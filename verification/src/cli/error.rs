//! What an action of the command line reports when it fails.

use vstd::prelude::*;

verus! {

/// The failure of a command.
#[derive(Debug, Clone, PartialEq, Eq)]
pub enum CliError {
    /// A subcommand requires arguments, but none were provided.
    RequiresArgs,
    /// A non-existent subcommand was specified.
    InvalidSubcommand,
    /// An error was detected by the command's logic.
    ActionError(String),
    /// The environment of the command is not as it has to be.
    EnvironmentError(String),
}

/// A command failure as contracts see it.
pub enum CliErrorView {
    RequiresArgs,
    InvalidSubcommand,
    ActionError(Seq<char>),
    EnvironmentError(Seq<char>),
}

impl View for CliError {
    type V = CliErrorView;

    open spec fn view(&self) -> CliErrorView {
        match self {
            CliError::RequiresArgs => CliErrorView::RequiresArgs,
            CliError::InvalidSubcommand => CliErrorView::InvalidSubcommand,
            CliError::ActionError(message) => CliErrorView::ActionError(message@),
            CliError::EnvironmentError(message) => CliErrorView::EnvironmentError(message@),
        }
    }
}

} // verus!
