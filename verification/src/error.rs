//! The error taxonomy of the service and its mapping to HTTP status codes.

use vstd::prelude::*;

verus! {

/// Everything a request handler can fail with.
#[derive(Debug, Clone, Copy, PartialEq, Eq, Structural)]
pub enum AppError {
    /// a referenced id is absent
    NotFound,
    /// a unique-name constraint would be violated
    Conflict,
    /// malformed body or an unparseable numeric segment
    BadRequest,
    /// any other failure of the backing store, including a transaction abort
    StoreError,
    /// reserved for field-level checks; none are enforced today
    ValidationError,
}

/// The HTTP status code each error is reported with.
pub open spec fn spec_status_code(e: AppError) -> u16 {
    match e {
        AppError::NotFound => 404,
        AppError::Conflict => 409,
        AppError::BadRequest => 400,
        AppError::StoreError => 500,
        AppError::ValidationError => 400,
    }
}

impl AppError {
    /// Maps this error to its HTTP status code.
    pub fn status_code(&self) -> (code: u16)
        ensures
            code == spec_status_code(*self),
    {
        match self {
            AppError::NotFound => 404,
            AppError::Conflict => 409,
            AppError::BadRequest => 400,
            AppError::StoreError => 500,
            AppError::ValidationError => 400,
        }
    }

    /// The human-readable message carried in the error envelope.
    pub fn message(&self) -> (m: &'static str)
        ensures
            *self == AppError::NotFound ==> m@ == "not found"@,
            *self == AppError::Conflict ==> m@ == "already exists"@,
            *self == AppError::BadRequest ==> m@ == "bad request"@,
            *self == AppError::StoreError ==> m@ == "store error"@,
            *self == AppError::ValidationError ==> m@ == "validation error"@,
    {
        match self {
            AppError::NotFound => "not found",
            AppError::Conflict => "already exists",
            AppError::BadRequest => "bad request",
            AppError::StoreError => "store error",
            AppError::ValidationError => "validation error",
        }
    }
}

} // verus!
