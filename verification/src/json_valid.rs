use vstd::prelude::*;
use crate::errors::JsonPayloadError;
use crate::validation::ValidationErrors;

verus! {

/// Transparent carrier for a decoded value that also passed its declared
/// validation rules.
pub struct JsonValid<T>(pub T);

impl<T> JsonValid<T> {
    /// Unwrap into inner `T` value.
    pub fn into_inner(self) -> (r: T)
        ensures
            r == self.0,
    {
        self.0
    }
}

/// What the decode pipeline does with a validation outcome: a value found
/// valid is wrapped and handed on; one found invalid becomes
/// `ValidationFailed` carrying the full list of violations.
pub fn apply_validation<T>(value: T, verdict: Result<(), ValidationErrors>) -> (r: Result<
    JsonValid<T>,
    JsonPayloadError,
>)
    ensures
        verdict is Ok ==> r == Ok::<JsonValid<T>, JsonPayloadError>(JsonValid(value)),
        verdict matches Err(e) ==> r == Err::<JsonValid<T>, JsonPayloadError>(
            JsonPayloadError::ValidationFailed(e),
        ),
{
    match verdict {
        Ok(()) => Ok(JsonValid(value)),
        Err(e) => Err(JsonPayloadError::ValidationFailed(e)),
    }
}

} // verus!
