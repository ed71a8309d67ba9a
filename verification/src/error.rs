//! Failures reported by the library.

use vstd::prelude::*;

verus! {

/// The reason a request was turned down.
#[derive(PartialEq, Eq, Structural, Debug, Clone, Copy)]
pub enum ErrorKind {
    /// A read or a write failed, or delivered fewer bytes than asked for.
    Io,
    /// The input is too short, or its length is not one the operation accepts.
    MalformedInput,
    /// The first four bytes match none of the known magic headers.
    UnrecognizedFormat,
    /// The short name is none of `v64`, `n64`, `z64`.
    InvalidLayoutName,
    /// The image is already stored in the requested layout.
    NoOpConversion,
}

/// An error: why the request failed, and a message for a human reader.
#[derive(PartialEq, Eq, Debug, Clone)]
pub struct Error {
    pub kind: ErrorKind,
    pub message: String,
}

/// The mathematical content of an [`Error`].
pub struct ErrorView {
    pub kind: ErrorKind,
    pub message: Seq<char>,
}

impl View for Error {
    type V = ErrorView;

    open spec fn view(&self) -> ErrorView {
        ErrorView { kind: self.kind, message: self.message@ }
    }
}

/// A result with its error, if any, replaced by the error's view.
pub open spec fn outcome<T>(r: Result<T, Error>) -> Result<T, ErrorView> {
    match r {
        Ok(value) => Ok(value),
        Err(e) => Err(e@),
    }
}

impl Error {
    /// Builds an error of the given kind that carries `message`.
    pub fn new(kind: ErrorKind, message: &str) -> (e: Error)
        ensures
            e@ == (ErrorView { kind, message: message@ }),
    {
        Error { kind, message: String::from_str(message) }
    }

    /// Why the request failed.
    pub fn kind(&self) -> (kind: ErrorKind)
        ensures
            kind == self@.kind,
    {
        self.kind
    }

    /// The message, as an owned string.
    pub fn to_string(&self) -> (text: String)
        ensures
            text@ == self@.message,
    {
        self.message.clone()
    }

    /// The message.
    pub fn description(&self) -> (text: &str)
        ensures
            text@ == self@.message,
    {
        self.message.as_str()
    }
}

} // verus!
