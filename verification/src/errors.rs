use vstd::prelude::*;
use crate::validation::ValidationErrors;

verus! {

/// Relies on the type `serde_json::Error`: the parse or serialization
/// failure reported by serde_json, carried through opaquely.
#[verifier::external_type_specification]
#[verifier::external_body]
pub struct ExSerdeJsonError(serde_json::Error);

/// Everything that can end a decode attempt. Every failure is terminal for
/// the attempt; each maps to one HTTP status class (see `status_code`).
#[derive(Debug)]
pub enum JsonPayloadError {
    /// The declared content type was missing while required, or not acceptable.
    ContentType,
    /// The length declared by the request header alone exceeds the limit;
    /// detected before any of the body is read.
    OverflowKnownLength { length: usize, limit: usize },
    /// The accumulated body crossed the limit while streaming in.
    Overflow { limit: usize },
    /// The complete body did not deserialize into the target type.
    Deserialize(serde_json::Error),
    /// The decoded value broke its declared validation rules.
    ValidationFailed(ValidationErrors),
    /// A decoded value could not be serialized back to JSON text.
    Serialize(serde_json::Error),
}

/// The HTTP status that a failure maps to: unsupported media type for the
/// content-type gate, payload-too-large for either overflow, bad request for
/// malformed or invalid bodies, internal error for serialization failures.
pub open spec fn spec_status_code(e: JsonPayloadError) -> u16 {
    match e {
        JsonPayloadError::ContentType => 415,
        JsonPayloadError::OverflowKnownLength { .. } => 413,
        JsonPayloadError::Overflow { .. } => 413,
        JsonPayloadError::Deserialize(_) => 400,
        JsonPayloadError::ValidationFailed(_) => 400,
        JsonPayloadError::Serialize(_) => 500,
    }
}

impl JsonPayloadError {
    pub fn status_code(&self) -> (r: u16)
        ensures
            r == spec_status_code(*self),
    {
        match self {
            JsonPayloadError::ContentType => 415,
            JsonPayloadError::OverflowKnownLength { .. } => 413,
            JsonPayloadError::Overflow { .. } => 413,
            JsonPayloadError::Deserialize(_) => 400,
            JsonPayloadError::ValidationFailed(_) => 400,
            JsonPayloadError::Serialize(_) => 500,
        }
    }
}

} // verus!
