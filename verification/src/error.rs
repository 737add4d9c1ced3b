//! The error type shared by every module, and the error codes.
//!
//! Business errors travel as HTTP 200 with a non-zero `code`; the codes are
//! grouped in segments of one thousand (10xxx shared, 22xxx catalog,
//! 40xxx defect, 44xxx customer return, ...).

use vstd::prelude::*;

verus! {

/// Shared code: the request is not authenticated.
pub const UNAUTHENTICATED: u32 = 10401;
/// Shared code: the requested path or record does not exist.
pub const NOT_FOUND: u32 = 10404;

/// A numeric error code.
#[derive(Debug, Clone, Copy, PartialEq, Eq)]
pub struct ErrorCode(pub u32);

impl ErrorCode {
    /// A module-defined code.
    pub fn custom(code: u32) -> (r: ErrorCode)
        ensures
            r.0 == code,
    {
        ErrorCode(code)
    }

    pub fn as_u32(&self) -> (r: u32)
        ensures
            r == self.0,
    {
        self.0
    }
}

/// Error of the application.
#[derive(Debug, Clone, PartialEq, Eq)]
pub enum AppError {
    /// The input is malformed (field lengths, quantities, missing settings).
    Validation(String),
    /// A business rule refused the request; `code` says which.
    Business { code: u32, message: String },
    /// The record does not exist.
    NotFound(String),
    /// A uniqueness rule was broken.
    Conflict(String),
    /// No valid credentials were presented.
    Unauthenticated,
    /// The user lacks a permission the request needs.
    Forbidden(String),
    /// Something outside the request went wrong.
    Internal(String),
}

/// `e` is the business error `code` with message `msg`.
pub open spec fn business_err(e: AppError, code: u32, msg: Seq<char>) -> bool {
    e matches AppError::Business { code: c, message: m } && c == code && m@ == msg
}

/// `e` is the validation error with message `msg`.
pub open spec fn validation_err(e: AppError, msg: Seq<char>) -> bool {
    e matches AppError::Validation(m) && m@ == msg
}

/// `r` failed with the business error `code` and message `msg`.
pub open spec fn fails_with<T>(r: Result<T, AppError>, code: u32, msg: Seq<char>) -> bool {
    r matches Err(e) && business_err(e, code, msg)
}

/// `r` failed with the validation error whose message is `msg`.
pub open spec fn fails_validation<T>(r: Result<T, AppError>, msg: Seq<char>) -> bool {
    r matches Err(e) && validation_err(e, msg)
}

impl AppError {
    pub fn business(code: ErrorCode, message: String) -> (r: AppError)
        ensures
            r == (AppError::Business { code: code.0, message }),
    {
        AppError::Business { code: code.0, message }
    }

    pub fn validation(message: String) -> (r: AppError)
        ensures
            r == AppError::Validation(message),
    {
        AppError::Validation(message)
    }

    pub fn not_found(message: String) -> (r: AppError)
        ensures
            r == AppError::NotFound(message),
    {
        AppError::NotFound(message)
    }

    pub fn conflict(message: String) -> (r: AppError)
        ensures
            r == AppError::Conflict(message),
    {
        AppError::Conflict(message)
    }

    /// The business code carried by the error, where it carries one.
    pub open spec fn spec_code(self) -> Option<u32> {
        match self {
            AppError::Business { code, .. } => Some(code),
            AppError::NotFound(_) => Some(NOT_FOUND),
            AppError::Unauthenticated => Some(UNAUTHENTICATED),
            _ => None,
        }
    }

    /// The code reported for the error: the business code, 10404 for a
    /// missing record, 10401 for missing credentials.
    pub fn code(&self) -> (r: Option<u32>)
        ensures
            r == self.spec_code(),
    {
        match self {
            AppError::Business { code, .. } => Some(*code),
            AppError::NotFound(_) => Some(NOT_FOUND),
            AppError::Unauthenticated => Some(UNAUTHENTICATED),
            _ => None,
        }
    }
}

} // verus!
