//! The two ways a fetch can fail.

use vstd::prelude::*;

verus! {

/// Why a fetch produced no audio.
#[derive(Debug, PartialEq, Eq)]
pub enum FetchError {
    /// The transport could not carry the exchange to its end: no response
    /// arrived, or the body could not be read or decoded. Holds the
    /// transport's own description, unchanged.
    TransportFailure(String),
    /// A response arrived but is not audio. Holds the text of its body,
    /// unchanged.
    ServerFailure(String),
}

/// A [`FetchError`] with its text as a sequence of characters.
pub enum FetchErrorView {
    TransportFailure(Seq<char>),
    ServerFailure(Seq<char>),
}

impl View for FetchError {
    type V = FetchErrorView;

    open spec fn view(&self) -> FetchErrorView {
        match self {
            FetchError::TransportFailure(description) => FetchErrorView::TransportFailure(
                description@,
            ),
            FetchError::ServerFailure(text) => FetchErrorView::ServerFailure(text@),
        }
    }
}

impl FetchErrorView {
    /// The line shown to an operator: the kind of failure, then its text.
    pub open spec fn message(self) -> Seq<char> {
        match self {
            FetchErrorView::TransportFailure(description) => "Reqwest error: "@ + description,
            FetchErrorView::ServerFailure(text) => "Server error: "@ + text,
        }
    }
}

impl FetchError {
    /// The line shown to an operator: `Reqwest error: ` or `Server error: `,
    /// followed by the text the error holds.
    pub fn message(&self) -> (line: String)
        ensures
            line@ == self@.message(),
    {
        match self {
            FetchError::TransportFailure(description) => {
                String::from_str("Reqwest error: ").concat(description.as_str())
            },
            FetchError::ServerFailure(text) => {
                String::from_str("Server error: ").concat(text.as_str())
            },
        }
    }
}

} // verus!
