//! The library's error type: a native call that returned a non-success
//! status code.

use vstd::prelude::*;

verus! {

/// A failed native call, carrying the status code the native entry point
/// returned.  Every native failure is surfaced through this one kind; none
/// is retried or recovered locally.
#[derive(Clone, Copy, Debug, PartialEq, Eq, Structural)]
pub struct Error {
    pub code: i32,
}

impl Error {
    /// Wraps a native status code.
    pub fn api_call(code: i32) -> (e: Error)
        ensures
            e.code == code,
    {
        Error { code }
    }

    /// The native status code that caused this error.
    pub fn code(&self) -> (c: i32)
        ensures
            c == self.code,
    {
        self.code
    }
}

/// Result of an operation that may fail with a native status code.
pub type VooResult<T> = Result<T, Error>;

} // verus!
