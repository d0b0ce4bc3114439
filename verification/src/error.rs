//! The errors that the stores and builders of this crate report.

use vstd::prelude::*;

verus! {

/// A failure that says nothing about the caller's request: a value that does
/// not fit the persisted width, or a backend that gave up. The caller may try
/// again.
#[derive(Debug, Clone, PartialEq, Eq)]
pub struct InternalError {
    message: String,
}

impl InternalError {
    /// An internal error that carries `message`.
    pub fn with_message(message: String) -> (err: Self)
        ensures
            err.message_text() == message@,
    {
        InternalError { message }
    }

    /// The characters of the message.
    pub closed spec fn message_text(&self) -> Seq<char> {
        self.message@
    }

    /// The human-readable message.
    pub fn message(&self) -> (m: &str)
        ensures
            m@ == self.message_text(),
    {
        self.message.as_str()
    }
}

/// A request that the current state does not allow. Trying again does not
/// help.
#[derive(Debug, Clone, PartialEq, Eq)]
pub struct InvalidStateError {
    message: String,
}

impl InvalidStateError {
    /// An invalid-state error that carries `message`.
    pub fn with_message(message: String) -> (err: Self)
        ensures
            err.message_text() == message@,
    {
        InvalidStateError { message }
    }

    /// The characters of the message.
    pub closed spec fn message_text(&self) -> Seq<char> {
        self.message@
    }

    /// The human-readable message.
    pub fn message(&self) -> (m: &str)
        ensures
            m@ == self.message_text(),
    {
        self.message.as_str()
    }
}

} // verus!

verus! {

/// What an operation of the consensus store reports when it fails.
#[derive(Debug, Clone, PartialEq, Eq)]
pub enum ScabbardStoreError {
    /// Nothing is wrong with the request; the whole operation may be tried
    /// again.
    Internal(InternalError),
    /// The request breaks a rule of the model, and will break it again.
    InvalidState(InvalidStateError),
}

/// A store error as contracts see it: its kind and the text of its message.
pub enum StoreErrorView {
    Internal(Seq<char>),
    InvalidState(Seq<char>),
}

impl View for ScabbardStoreError {
    type V = StoreErrorView;

    open spec fn view(&self) -> StoreErrorView {
        match self {
            ScabbardStoreError::Internal(err) => StoreErrorView::Internal(err.message_text()),
            ScabbardStoreError::InvalidState(err) => StoreErrorView::InvalidState(
                err.message_text(),
            ),
        }
    }
}

impl ScabbardStoreError {
    /// An `Internal` error with this message.
    pub fn internal(message: String) -> (err: Self)
        ensures
            err@ == StoreErrorView::Internal(message@),
    {
        ScabbardStoreError::Internal(InternalError::with_message(message))
    }

    /// An `InvalidState` error with this message.
    pub fn invalid_state(message: String) -> (err: Self)
        ensures
            err@ == StoreErrorView::InvalidState(message@),
    {
        ScabbardStoreError::InvalidState(InvalidStateError::with_message(message))
    }

    /// Whether the failed operation may be tried again as it is.
    pub fn is_retryable(&self) -> (retry: bool)
        ensures
            retry == (self@ is Internal),
    {
        match self {
            ScabbardStoreError::Internal(_) => true,
            ScabbardStoreError::InvalidState(_) => false,
        }
    }

    /// The human-readable message.
    pub fn message(&self) -> (m: &str)
        ensures
            self@ == StoreErrorView::Internal(m@) || self@ == StoreErrorView::InvalidState(m@),
    {
        match self {
            ScabbardStoreError::Internal(err) => err.message(),
            ScabbardStoreError::InvalidState(err) => err.message(),
        }
    }
}

} // verus!
