//! Failures of an engine session.

use vstd::prelude::*;

verus! {

/// What can go wrong while driving an engine.
#[derive(Clone, Debug, PartialEq, Eq)]
pub enum Error {
    /// An operation was requested in a phase that does not allow it.
    IllegalOperation,
    /// One line of engine output is not a protocol command.
    IllegalSyntax,
    /// The engine process could not be launched, or one of its streams failed.
    /// Carries the message of the underlying failure.
    EngineIo(String),
    /// A listener hook reported a failure. Carries the hook's message.
    HandlerError(String),
}

/// Mathematical model of an [`Error`].
pub enum ErrorView {
    IllegalOperation,
    IllegalSyntax,
    EngineIo(Seq<char>),
    HandlerError(Seq<char>),
}

impl View for Error {
    type V = ErrorView;

    open spec fn view(&self) -> ErrorView {
        match self {
            Error::IllegalOperation => ErrorView::IllegalOperation,
            Error::IllegalSyntax => ErrorView::IllegalSyntax,
            Error::EngineIo(message) => ErrorView::EngineIo(message@),
            Error::HandlerError(message) => ErrorView::HandlerError(message@),
        }
    }
}

/// Model of the outcome of an action that yields nothing but may fail.
pub open spec fn unit_view(result: Result<(), Error>) -> Result<(), ErrorView> {
    match result {
        Ok(()) => Ok(()),
        Err(error) => Err(error@),
    }
}

impl Error {
    /// Whether this failure is a single malformed line, which a read loop skips.
    pub fn is_syntax(&self) -> (skip: bool)
        ensures
            skip == (self@ is IllegalSyntax),
    {
        match self {
            Error::IllegalSyntax => true,
            _ => false,
        }
    }
}

} // verus!
