//! The failures an operation can end in, and the HTTP status of each.
use vstd::prelude::*;

verus! {

#[derive(Debug, Clone, Copy, PartialEq, Eq, Structural)]
pub enum AppError {
    /// A store fault: a constraint was violated or the store could not
    /// carry out the operation.
    InternalServerError,
    /// The requested identifier is absent.
    NotFound,
    /// A path or body parameter is malformed.
    ValidationError,
}

impl AppError {
    pub open spec fn status_spec(self) -> u16 {
        match self {
            AppError::InternalServerError => 500,
            AppError::NotFound => 404,
            AppError::ValidationError => 400,
        }
    }

    pub open spec fn message_spec(self) -> Seq<char> {
        match self {
            AppError::InternalServerError => "Database error"@,
            AppError::NotFound => "Not Found"@,
            AppError::ValidationError => "Bad Request"@,
        }
    }

    /// The HTTP status this failure is reported with.
    pub fn status_code(&self) -> (r: u16)
        ensures
            r == self.status_spec(),
    {
        match self {
            AppError::InternalServerError => 500,
            AppError::NotFound => 404,
            AppError::ValidationError => 400,
        }
    }

    /// The text shown to the client for this failure.
    pub fn message(&self) -> (r: String)
        ensures
            r@ == self.message_spec(),
    {
        match self {
            AppError::InternalServerError => String::from_str("Database error"),
            AppError::NotFound => String::from_str("Not Found"),
            AppError::ValidationError => String::from_str("Bad Request"),
        }
    }
}

} // verus!
