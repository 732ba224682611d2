//! The outcome of checking one request field.

use vstd::prelude::*;

verus! {

/// Why a field was refused.
#[derive(Debug, Clone, Copy, PartialEq, Eq)]
pub struct ValidationError {
    /// A short fixed description of the rule that the field broke.
    pub code: &'static str,
}

impl ValidationError {
    /// A refusal with the given description.
    pub fn new(code: &'static str) -> (error: ValidationError)
        ensures
            error.code == code,
    {
        ValidationError { code }
    }
}

} // verus!
