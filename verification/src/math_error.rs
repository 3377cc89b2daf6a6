//! The recoverable-error taxonomy of the math layer. The hash pipeline never
//! returns these: its malformed inputs are caller contract violations and are
//! excluded by precondition instead.

use vstd::prelude::*;
use crate::belt::FieldError;

verus! {

/// Result alias for math operations within this crate.
pub type MathResult<T> = Result<T, MathError>;

#[derive(Debug, Clone, Copy, PartialEq, Eq, Structural)]
pub enum MathError {
    DivisionByZero,
    Field(FieldError),
}

impl core::convert::From<FieldError> for MathError {
    fn from(value: FieldError) -> (r: MathError)
        ensures
            r == MathError::Field(value),
    {
        MathError::Field(value)
    }
}

impl vstd::std_specs::convert::FromSpecImpl<FieldError> for MathError {
    open spec fn obeys_from_spec() -> bool {
        true
    }

    open spec fn from_spec(value: FieldError) -> MathError {
        MathError::Field(value)
    }
}

} // verus!
