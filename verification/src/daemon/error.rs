//! What the daemon reports to its user when it cannot start.

use vstd::prelude::*;
use vstd::string::StringExecFns;
use crate::error::InternalError;

verus! {

/// The reason for which the daemon does not start.
#[derive(Debug, Clone, PartialEq, Eq)]
pub enum UserError {
    /// A required argument was not provided.
    MissingArgument(String),
    /// A provided argument is not valid.
    InvalidArgument(String),
    /// The daemon cannot run in the state that it found.
    DaemonError { context: String },
    /// Something failed that the user did not cause.
    InternalError(InternalError),
}

/// A start-up failure as contracts see it.
pub enum UserErrorView {
    MissingArgument(Seq<char>),
    InvalidArgument(Seq<char>),
    DaemonError(Seq<char>),
    InternalError(Seq<char>),
}

impl View for UserError {
    type V = UserErrorView;

    open spec fn view(&self) -> UserErrorView {
        match self {
            UserError::MissingArgument(message) => UserErrorView::MissingArgument(message@),
            UserError::InvalidArgument(message) => UserErrorView::InvalidArgument(message@),
            UserError::DaemonError { context } => UserErrorView::DaemonError(context@),
            UserError::InternalError(err) => UserErrorView::InternalError(err.message_text()),
        }
    }
}

impl UserError {
    /// An internal error with this message.
    pub fn internal(message: &str) -> (err: Self)
        ensures
            err@ == UserErrorView::InternalError(message@),
    {
        UserError::InternalError(InternalError::with_message(String::from_str(message)))
    }
}

} // verus!
