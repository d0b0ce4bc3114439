//! The records of the admin store.

pub mod circuit_node;
pub mod proposed_node;
