//! Durable state of a Splinter node, with its rules proved.
//!
//! The heart of the crate is the event log that backs scabbard's two-phase
//! commit: [`consensus`] holds the event and message model, the rows they are
//! persisted as, the writer that turns one event into its rows, and a store
//! that keeps the log in position order. Around it stand the circuit node
//! records of the admin store ([`admin`]) and the small decisions that the
//! command line and the daemon make before they touch the machine
//! ([`cli`], [`daemon`]).

pub mod admin;
pub mod cli;
pub mod consensus;
pub mod daemon;
pub mod error;
pub mod text;
