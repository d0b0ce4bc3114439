//! What the daemon decides while it starts.

pub mod config_file;
pub mod endpoints;
pub mod error;
pub mod keys;
pub mod logging;
pub mod metrics;
pub mod node_id;
