//! Request and response types.

use vstd::prelude::*;

verus! {

/// List specifying general categories of [`ErrorResponse`]s.
#[derive(Debug, Copy, Clone, PartialEq, Eq, Structural)]
pub enum ErrorKind {
    /// Error name is not a part of the implemented `API` spec.
    Unrecognized,
}

/// Errors that may occur when processing an API request.
///
/// `name` and `message` are the two fields of the response body; the HTTP
/// status code travels beside the body and is attached when the value is made.
#[derive(Debug)]
pub struct ErrorResponse {
    pub name: String,
    pub message: String,
    status: u16,
}

/// What an [`ErrorResponse`] holds, as mathematical values.
pub struct ErrorResponseView {
    pub name: Seq<char>,
    pub message: Seq<char>,
    pub status: u16,
}

impl View for ErrorResponse {
    type V = ErrorResponseView;

    closed spec fn view(&self) -> ErrorResponseView {
        ErrorResponseView { name: self.name@, message: self.message@, status: self.status }
    }
}

impl ErrorResponse {
    /// Joins a decoded response body with the status code it arrived under.
    pub fn new(name: String, message: String, status: u16) -> (response: Self)
        ensures
            response@ == (ErrorResponseView { name: name@, message: message@, status }),
    {
        ErrorResponse { name, message, status }
    }

    /// Returns the HTTP status code the response arrived under.
    pub fn status(&self) -> (status: u16)
        ensures
            status == self@.status,
    {
        self.status
    }

    /// Returns the [`ErrorKind`].
    ///
    /// No error name is recognized yet, so every response is
    /// [`ErrorKind::Unrecognized`], whatever its name.
    pub fn kind(&self) -> (kind: ErrorKind)
        ensures
            kind == ErrorKind::Unrecognized,
    {
        match self.name.as_str() {
            _ => ErrorKind::Unrecognized,
        }
    }
}

} // verus!
