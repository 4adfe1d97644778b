//! The library's error type.

use vstd::prelude::*;
use vstd::string::StringExecFns;

verus! {

/// An error of the ping engine, carrying a human-readable message and no
/// chained cause.
#[derive(Debug)]
pub struct PingError {
    /// What went wrong, in words.
    pub message: String,
}

/// The outcome of every fallible operation of this library.
pub type PingResult<T> = Result<T, PingError>;

#[verifier::external_type_specification]
#[verifier::external_body]
pub struct ExIoError(std::io::Error);

/// Relies on `std::io::Error`'s `Display` implementation to render the error
/// as a human-readable string.
#[verifier::external_body]
fn io_error_message(error: &std::io::Error) -> (r: String) {
    error.to_string()
}

impl PingError {
    /// Renders the error the way it displays: `"PingError"` alone, or
    /// `"PingError: <message>"` when a message is present.
    pub fn display_string(&self) -> (r: String)
        ensures
            self.message@.len() == 0 ==> r@ == "PingError"@,
            self.message@.len() > 0 ==> r@ == "PingError: "@ + self.message@,
    {
        if self.message.as_str().is_empty() {
            "PingError".to_owned()
        } else {
            "PingError: ".to_owned().concat(self.message.as_str())
        }
    }

    /// No underlying error is ever chained below a `PingError`.
    pub fn source(&self) -> (r: Option<&PingError>)
        ensures
            r is None,
    {
        None
    }

    /// Wraps an I/O error: its display text becomes the message.
    pub fn from(error: std::io::Error) -> (r: PingError) {
        PingError { message: io_error_message(&error) }
    }
}

} // verus!
