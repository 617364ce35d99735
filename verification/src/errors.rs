//! The error taxonomy: validation, domain, not-found and unexpected
//! failures, with their mapping to transport-level status codes.
use vstd::prelude::*;

verus! {

/// How a single field failed validation.
#[derive(Debug, Clone, Copy, PartialEq, Eq, Structural)]
pub enum FieldValidationError {
    TooShort,
    TooLong,
    BadFormat,
}

/// One field's validation failure, keyed by the field's name.
#[derive(Debug, Clone, PartialEq, Eq)]
pub struct FieldError {
    pub field: String,
    pub error: FieldValidationError,
}

/// Technical failures: an entity absent where absence is exceptional,
/// or an unknown infrastructure fault.
#[derive(Debug, Clone, PartialEq, Eq)]
pub enum TechnicalErrors {
    NotFound(String),
    Unknown,
}

/// The closed error taxonomy of the backend. `Validation` carries
/// per-field detail; `Domain` a business-rule code; `Technical` and
/// `Unexpected` form the infrastructure channel.
#[derive(Debug, Clone, PartialEq, Eq)]
pub enum ZwitterError {
    Technical(TechnicalErrors),
    Domain(String),
    Unexpected(String),
    Validation(String, Vec<FieldError>),
}

/// An infrastructure failure: the technical-error channel that every
/// repository operation may report, as opposed to a domain, validation
/// or not-found outcome.
pub open spec fn is_infra_error(e: ZwitterError) -> bool {
    ||| e matches ZwitterError::Unexpected(_)
    ||| e == ZwitterError::Technical(TechnicalErrors::Unknown)
}

/// A not-found failure carrying the given error code.
pub open spec fn is_not_found_with(e: ZwitterError, code: Seq<char>) -> bool {
    &&& e matches ZwitterError::Technical(t)
    &&& t matches TechnicalErrors::NotFound(c) && c@ == code
}

impl ZwitterError {
    /// The not-found error with the given code.
    pub fn not_found(code: String) -> (r: Self)
        ensures
            is_not_found_with(r, code@),
            r == ZwitterError::Technical(TechnicalErrors::NotFound(code)),
    {
        Self::Technical(TechnicalErrors::NotFound(code))
    }

    /// The HTTP status an error is rendered as.
    pub open spec fn spec_status_code(&self) -> u16 {
        match self {
            ZwitterError::Domain(_) => 502,
            ZwitterError::Technical(TechnicalErrors::NotFound(_)) => 404,
            ZwitterError::Technical(TechnicalErrors::Unknown) => 500,
            ZwitterError::Validation(_, _) => 400,
            ZwitterError::Unexpected(_) => 500,
        }
    }

    /// Map the error to its transport-level status code: domain errors to
    /// 502, not-found to 404, validation to 400, everything unexpected
    /// to 500.
    pub fn status_code(&self) -> (r: u16)
        ensures
            r == self.spec_status_code(),
    {
        match self {
            ZwitterError::Domain(_) => 502,
            ZwitterError::Technical(TechnicalErrors::NotFound(_)) => 404,
            ZwitterError::Technical(TechnicalErrors::Unknown) => 500,
            ZwitterError::Validation(_, _) => 400,
            ZwitterError::Unexpected(_) => 500,
        }
    }
}

} // verus!
