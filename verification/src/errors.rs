//! Error taxonomy of the platform: generic REST error classes and the
//! ingest-specific problems, each mapped to its HTTP status code.

use vstd::prelude::*;

verus! {

/// Error type for when only unexpected failures can happen.
#[derive(Clone, Copy, Debug, PartialEq, Eq, Structural)]
pub enum UnexpectedError {
    InternalServerError,
}

impl UnexpectedError {
    /// HTTP status code of the error.
    pub fn status_code(&self) -> (code: u16)
        ensures
            code == 500,
    {
        match self {
            Self::InternalServerError => 500,
        }
    }
}

/// Error type for single item operations.
#[derive(Clone, Copy, Debug, PartialEq, Eq, Structural)]
pub enum ShowError {
    InternalServerError,
    NotFound,
}

impl ShowError {
    /// HTTP status code of the error.
    pub fn status_code(&self) -> (code: u16)
        ensures
            code == match self {
                Self::InternalServerError => 500u16,
                Self::NotFound => 404u16,
            },
    {
        match self {
            Self::InternalServerError => 500,
            Self::NotFound => 404,
        }
    }
}

/// Error type for creation operations.
#[derive(Clone, Copy, Debug, PartialEq, Eq, Structural)]
pub enum CreateError {
    InternalServerError,
    BadRequest,
}

impl CreateError {
    /// HTTP status code of the error.
    pub fn status_code(&self) -> (code: u16)
        ensures
            code == match self {
                Self::InternalServerError => 500u16,
                Self::BadRequest => 400u16,
            },
    {
        match self {
            Self::InternalServerError => 500,
            Self::BadRequest => 400,
        }
    }
}

/// Error type for modification operations.
#[derive(Clone, Copy, Debug, PartialEq, Eq, Structural)]
pub enum EditError {
    InternalServerError,
    BadRequest,
    NotFound,
}

impl EditError {
    /// HTTP status code of the error.
    pub fn status_code(&self) -> (code: u16)
        ensures
            code == match self {
                Self::InternalServerError => 500u16,
                Self::BadRequest => 400u16,
                Self::NotFound => 404u16,
            },
    {
        match self {
            Self::InternalServerError => 500,
            Self::BadRequest => 400,
            Self::NotFound => 404,
        }
    }
}

/// Problems that the event endpoints can report to a caller.
#[derive(Clone, Copy, Debug, PartialEq, Eq, Structural)]
pub enum Problem {
    Forbidden,
    NotFound,
    Conflict,
    InternalServerError,
    EventInvalidPayloadContentType,
    EventInvalidBase64Payload,
    EventInvalidMetadata,
    EventInvalidLabels,
}

impl Problem {
    /// HTTP status code of the problem.
    pub fn status_code(&self) -> (code: u16)
        ensures
            code == self.status_code_spec(),
    {
        match self {
            Self::Forbidden => 403,
            Self::NotFound => 404,
            Self::Conflict => 409,
            Self::InternalServerError => 500,
            Self::EventInvalidPayloadContentType => 400,
            Self::EventInvalidBase64Payload => 400,
            Self::EventInvalidMetadata => 400,
            Self::EventInvalidLabels => 400,
        }
    }

    /// The status code each problem maps to: validation problems are 400,
    /// missing rights 403, absent resources 404, duplicate ingests 409,
    /// and everything else collapses to 500.
    pub open spec fn status_code_spec(&self) -> u16 {
        match self {
            Self::Forbidden => 403u16,
            Self::NotFound => 404u16,
            Self::Conflict => 409u16,
            Self::InternalServerError => 500u16,
            Self::EventInvalidPayloadContentType => 400u16,
            Self::EventInvalidBase64Payload => 400u16,
            Self::EventInvalidMetadata => 400u16,
            Self::EventInvalidLabels => 400u16,
        }
    }
}

} // verus!
