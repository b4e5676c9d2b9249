//! The errors that a request can end in, and the status each one maps to.
use vstd::prelude::*;
use vstd::string::*;

verus! {

/// One reason why a submitted field was rejected.
#[derive(Debug, Clone)]
pub struct FieldError {
    /// The name of the rejected field.
    pub field: String,
    /// The rule that it broke.
    pub code: String,
}

/// Why a request failed.
#[derive(Debug)]
pub enum AppError {
    /// No connection could be taken from the pool; the text is for the log.
    PoolError(String),
    /// The storage engine refused a statement; the text is for the log.
    SqlError(String),
    /// The submitted payload broke one or more field rules.
    ValidationErrors(Vec<FieldError>),
}

/// The kind of an error, without its detail.
pub enum ErrorKind {
    Pool,
    Sql,
    Validation,
}

pub open spec fn kind_of(e: AppError) -> ErrorKind {
    match e {
        AppError::PoolError(_) => ErrorKind::Pool,
        AppError::SqlError(_) => ErrorKind::Sql,
        AppError::ValidationErrors(_) => ErrorKind::Validation,
    }
}

pub const BAD_REQUEST: u16 = 400;

pub const INTERNAL_SERVER_ERROR: u16 = 500;

/// The status code of an error: 400 for a validation failure, 500 otherwise.
pub open spec fn error_status(e: AppError) -> u16 {
    match e {
        AppError::ValidationErrors(_) => BAD_REQUEST,
        _ => INTERNAL_SERVER_ERROR,
    }
}

/// The body sent to the client for an error other than a validation failure.
pub open spec fn internal_message() -> Seq<char> {
    "Internal server error."@
}

impl AppError {
    pub fn status_code(&self) -> (r: u16)
        ensures
            r == error_status(*self),
    {
        match self {
            AppError::ValidationErrors(_) => BAD_REQUEST,
            _ => INTERNAL_SERVER_ERROR,
        }
    }

    /// The generic body sent for an error whose detail stays in the log.
    pub fn internal_message() -> (r: String)
        ensures
            r@ == internal_message(),
    {
        String::from_str("Internal server error.")
    }
}

} // verus!
