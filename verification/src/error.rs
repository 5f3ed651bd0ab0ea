//! What a command can fail with.
use vstd::prelude::*;

verus! {

/// Why a command failed.
#[derive(Debug, PartialEq, Eq)]
pub enum Error {
    /// A failure found by this program itself, with its description.
    Generic(String),
    /// The descriptor does not belong to the wallet stored under the chosen name.
    ChecksumMismatch,
    /// Any other failure of the wallet library, as that library words it.
    Other(String),
}

/// An [`Error`] with its text as a sequence of characters.
pub enum ErrorView {
    Generic(Seq<char>),
    ChecksumMismatch,
    Other(Seq<char>),
}

impl View for Error {
    type V = ErrorView;

    open spec fn view(&self) -> ErrorView {
        match *self {
            Error::Generic(text) => ErrorView::Generic(text@),
            Error::ChecksumMismatch => ErrorView::ChecksumMismatch,
            Error::Other(text) => ErrorView::Other(text@),
        }
    }
}

/// Whether `outcome` is a text that the wallet library gave, or its failure as it words it.
pub open spec fn worded(given: Result<Seq<char>, Seq<char>>, outcome: Result<String, Error>) -> bool {
    match given {
        Ok(text) => outcome matches Ok(t) && t@ == text,
        Err(text) => outcome matches Err(e) && e@ == ErrorView::Other(text),
    }
}

/// A text that the wallet library gave, or its failure as it words it.
pub fn outcome(given: Result<String, String>) -> (r: Result<String, Error>)
    ensures
        match given {
            Ok(text) => r == Ok::<String, Error>(text),
            Err(text) => r == Err::<String, Error>(Error::Other(text)),
        },
{
    match given {
        Ok(text) => Ok(text),
        Err(text) => Err(Error::Other(text)),
    }
}

} // verus!
