//! Errors the HTTP API answers with.

use vstd::prelude::*;
use vstd::string::StringExecFns;

verus! {

/// A refused API request, with its detail.
#[derive(Debug)]
pub enum ApiError {
    DroneNotFound(String),
    MissionNotFound(String),
    InvalidFormation(String),
    BadRequest(String),
    ValidationError(String),
    Internal(String),
    InternalError(String),
}

impl ApiError {
    /// The HTTP status: 404 for a missing drone or mission, 400 for a bad
    /// request, 500 for an internal failure.
    pub open spec fn status_spec(self) -> u16 {
        match self {
            ApiError::DroneNotFound(_) => 404,
            ApiError::MissionNotFound(_) => 404,
            ApiError::InvalidFormation(_) => 400,
            ApiError::BadRequest(_) => 400,
            ApiError::ValidationError(_) => 400,
            ApiError::Internal(_) => 500,
            ApiError::InternalError(_) => 500,
        }
    }

    /// The detail carried by the error.
    pub open spec fn detail(self) -> Seq<char> {
        match self {
            ApiError::DroneNotFound(s) => s@,
            ApiError::MissionNotFound(s) => s@,
            ApiError::InvalidFormation(s) => s@,
            ApiError::BadRequest(s) => s@,
            ApiError::ValidationError(s) => s@,
            ApiError::Internal(s) => s@,
            ApiError::InternalError(s) => s@,
        }
    }

    /// The text that names the kind of error.
    pub open spec fn prefix(self) -> Seq<char> {
        match self {
            ApiError::DroneNotFound(_) => "Drone not found: "@,
            ApiError::MissionNotFound(_) => "Mission not found: "@,
            ApiError::InvalidFormation(_) => "Invalid formation type: "@,
            ApiError::BadRequest(_) => "Bad request: "@,
            ApiError::ValidationError(_) => "Validation error: "@,
            ApiError::Internal(_) => "Internal error: "@,
            ApiError::InternalError(_) => "Internal error: "@,
        }
    }

    /// The HTTP status code of the error.
    pub fn status_code(&self) -> (r: u16)
        ensures
            r == self.status_spec(),
    {
        match self {
            ApiError::DroneNotFound(_) | ApiError::MissionNotFound(_) => 404,
            ApiError::InvalidFormation(_) | ApiError::ValidationError(_) | ApiError::BadRequest(_) => 400,
            ApiError::Internal(_) | ApiError::InternalError(_) => 500,
        }
    }

    /// The message shown to the client: the kind of error, then its detail.
    pub fn message(&self) -> (r: String)
        ensures
            r@ == self.prefix() + self.detail(),
    {
        let (prefix, detail) = match self {
            ApiError::DroneNotFound(s) => ("Drone not found: ", s),
            ApiError::MissionNotFound(s) => ("Mission not found: ", s),
            ApiError::InvalidFormation(s) => ("Invalid formation type: ", s),
            ApiError::BadRequest(s) => ("Bad request: ", s),
            ApiError::ValidationError(s) => ("Validation error: ", s),
            ApiError::Internal(s) => ("Internal error: ", s),
            ApiError::InternalError(s) => ("Internal error: ", s),
        };
        let mut r = String::from_str(prefix);
        r.append(detail.as_str());
        r
    }
}

} // verus!
