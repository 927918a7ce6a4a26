//! The application error type carried by failed [`Outcome`]s, and small
//! helpers around errors and absent values.

use vstd::prelude::*;

verus! {

/// A recoverable domain error. Each variant carries a descriptive message;
/// the error is always returned to the immediate caller, never thrown.
#[derive(Debug, PartialEq, Eq)]
pub enum AppError {
    NotFound(String),
    InvalidInput(String),
    IoError(String),
}

impl AppError {
    /// The descriptive message carried by the error, whichever variant it is.
    pub open spec fn spec_message(&self) -> Seq<char> {
        match self {
            AppError::NotFound(m) => m@,
            AppError::InvalidInput(m) => m@,
            AppError::IoError(m) => m@,
        }
    }

    /// Borrows the descriptive message.
    pub fn message(&self) -> (r: &str)
        ensures
            r@ == self.spec_message(),
    {
        match self {
            AppError::NotFound(m) => m.as_str(),
            AppError::InvalidInput(m) => m.as_str(),
            AppError::IoError(m) => m.as_str(),
        }
    }
}

/// Returns the contained value of a standard `Option`, or `default` when it
/// is absent.
pub fn safe_unwrap<T>(option: Option<T>, default: T) -> (r: T)
    ensures
        option matches Some(v) ==> r == v,
        option is None ==> r == default,
{
    match option {
        Some(v) => v,
        None => default,
    }
}

/// Wraps a message as an I/O error.
pub fn convert_error(msg: &str) -> (r: AppError)
    ensures
        r matches AppError::IoError(m) && m@ == msg@,
{
    AppError::IoError(msg.to_owned())
}

} // verus!
