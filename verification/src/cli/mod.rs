//! What the command line decides before it prints or touches a file.

pub mod error;
pub mod messages;
pub mod subcommands;
pub mod table;
