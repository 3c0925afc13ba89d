//! The failures a call against the chat server can end in.

use vstd::prelude::*;

verus! {

/// Why a call did not produce a response text. Every failure is final: the
/// library never retries and never logs.
#[derive(Debug, PartialEq, Eq)]
pub enum Error {
    /// A response that had to hold structured JSON did not have the expected
    /// shape. Carries the reason.
    JsonDecodeError(String),
    /// The settings name no server to talk to.
    MissingSettings,
    /// The request could not be carried out or the server answered with a
    /// status outside 200..=299. Carries the reason.
    RequestFailed(String),
    /// The body of a successful response could not be read as text.
    ResponseTextError,
}

/// The mathematical value of an [`Error`].
pub enum ErrorView {
    JsonDecodeError(Seq<char>),
    MissingSettings,
    RequestFailed(Seq<char>),
    ResponseTextError,
}

impl View for Error {
    type V = ErrorView;

    open spec fn view(&self) -> ErrorView {
        match self {
            Error::JsonDecodeError(reason) => ErrorView::JsonDecodeError(reason@),
            Error::MissingSettings => ErrorView::MissingSettings,
            Error::RequestFailed(reason) => ErrorView::RequestFailed(reason@),
            Error::ResponseTextError => ErrorView::ResponseTextError,
        }
    }
}

/// A result of the library as a mathematical value.
pub open spec fn result_view<T: View>(r: Result<T, Error>) -> Result<T::V, ErrorView> {
    match r {
        Ok(value) => Ok(value@),
        Err(error) => Err(error@),
    }
}

} // verus!
