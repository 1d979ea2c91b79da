use vstd::prelude::*;

verus! {

/// The kinds of failure an operation can report.
#[derive(Debug, Clone, Copy, PartialEq, Eq, Structural)]
pub enum ServiceError {
    /// Bad or empty input; storage is never touched.
    Validation,
    /// The token/username pair matches no record.
    Unauthorized,
    /// The store or the notification transport failed.
    Infrastructure,
}

impl ServiceError {
    /// The HTTP status that reports this kind of failure.
    pub fn status_code(&self) -> (r: u16)
        ensures
            *self == ServiceError::Validation ==> r == 400,
            *self == ServiceError::Unauthorized ==> r == 401,
            *self == ServiceError::Infrastructure ==> r == 500,
    {
        match self {
            ServiceError::Validation => 400,
            ServiceError::Unauthorized => 401,
            ServiceError::Infrastructure => 500,
        }
    }

    /// A short description for the caller; it names no record and no cause.
    pub fn description(&self) -> (r: &'static str)
        ensures
            *self == ServiceError::Validation ==> r@ == "Invalid request"@,
            *self == ServiceError::Unauthorized ==> r@ == "Invalid token"@,
            *self == ServiceError::Infrastructure ==> r@ == "Internal failure"@,
    {
        match self {
            ServiceError::Validation => "Invalid request",
            ServiceError::Unauthorized => "Invalid token",
            ServiceError::Infrastructure => "Internal failure",
        }
    }
}

} // verus!
