//! What a refused commit is answered.

use vstd::prelude::*;

verus! {

/// The class of an [`Error`].
#[derive(Clone, Copy, Debug, PartialEq, Eq, Structural)]
#[non_exhaustive]
pub enum ErrorKind {
    /// The files or the table handed in do not fit together.
    DataInvalid,
    /// The table's format has no room for what was asked.
    FeatureUnsupported,
    /// Storage or another outside party failed.
    Unexpected,
}

/// An error of a commit: its class, and a sentence for the reader.
#[derive(Debug, PartialEq, Eq)]
pub struct Error {
    pub kind: ErrorKind,
    pub message: String,
}

/// The mathematical content of an [`Error`].
#[verifier::ext_equal]
pub struct ErrorView {
    pub kind: ErrorKind,
    pub message: Seq<char>,
}

impl View for Error {
    type V = ErrorView;

    open spec fn view(&self) -> ErrorView {
        ErrorView { kind: self.kind, message: self.message@ }
    }
}

impl Clone for Error {
    fn clone(&self) -> (copy: Self)
        ensures
            copy == *self,
    {
        Error { kind: self.kind, message: self.message.clone() }
    }
}

impl Error {
    /// An error of the given class with the given sentence.
    pub fn new(kind: ErrorKind, message: &str) -> (error: Self)
        ensures
            error@ == (ErrorView { kind, message: message@ }),
    {
        Error { kind, message: message.to_owned() }
    }

    /// The error's class.
    pub fn kind(&self) -> (kind: ErrorKind)
        ensures
            kind == self@.kind,
    {
        self.kind
    }

    /// The error's sentence.
    pub fn message(&self) -> (message: &str)
        ensures
            message@ == self@.message,
    {
        self.message.as_str()
    }
}

/// What an outside check found, as a view.
pub open spec fn verdict_view(verdict: Result<(), Error>) -> Option<ErrorView> {
    match verdict {
        Ok(_) => None,
        Err(error) => Some(error@),
    }
}

} // verus!
