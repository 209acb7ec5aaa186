use vstd::prelude::*;
use vstd::string::StringExecFns;

verus! {

/// A single field-level rule violation: the field it concerns and the
/// code of the rule that failed (for example `"length"`).
#[derive(Debug)]
pub struct FieldError {
    pub field: String,
    pub code: String,
}

/// The complete set of field-level violations found by a validation run.
/// The whole list is preserved, never truncated to the first violation.
#[derive(Debug)]
pub struct ValidationErrors {
    pub errors: Vec<FieldError>,
}

impl ValidationErrors {
    pub fn new() -> (r: ValidationErrors)
        ensures
            r.errors@.len() == 0,
    {
        ValidationErrors { errors: Vec::new() }
    }

    pub fn push(&mut self, e: FieldError)
        ensures
            final(self).errors@ == old(self).errors@.push(e),
    {
        self.errors.push(e);
    }

    pub fn is_empty(&self) -> (r: bool)
        ensures
            r == (self.errors@.len() == 0),
    {
        self.errors.len() == 0
    }
}

/// A declarative validation run over a decoded value: `Ok(())` when every
/// rule declared for the value holds, otherwise the full list of violations.
/// Implementations are supplied by the application for its own payload types.
pub trait Validate {
    fn validate(&self) -> Result<(), ValidationErrors>;
}

/// Checks a length constraint for one field: the length must lie between
/// `min` and `max` inclusive. Returns the field-level error when violated.
pub fn check_length(field: &str, len: usize, min: usize, max: usize) -> (r: Option<FieldError>)
    ensures
        r is Some <==> !(min <= len <= max),
        r matches Some(e) ==> e.field@ == field@ && e.code@ == "length"@,
{
    if min <= len && len <= max {
        None
    } else {
        Some(FieldError { field: String::from_str(field), code: String::from_str("length") })
    }
}

} // verus!
