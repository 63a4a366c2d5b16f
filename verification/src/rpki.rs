//! The outcome of validating where a route comes from.

use vstd::prelude::*;

verus! {

#[derive(Debug, Clone, Copy, PartialEq, Eq, Hash, Structural)]
pub enum RpkiValidation {
    Valid,
    Invalid,
    NotFound,
}

impl RpkiValidation {
    /// The number of the outcome in its extended community.
    pub const VALID: u8 = 0;

    pub const NOT_FOUND: u8 = 1;

    pub const INVALID: u8 = 2;

    pub open spec fn code_spec(self) -> u8 {
        match self {
            RpkiValidation::Valid => 0,
            RpkiValidation::NotFound => 1,
            RpkiValidation::Invalid => 2,
        }
    }

    pub fn to_u8(&self) -> (r: u8)
        ensures
            r == self.code_spec(),
    {
        match self {
            RpkiValidation::Valid => RpkiValidation::VALID,
            RpkiValidation::NotFound => RpkiValidation::NOT_FOUND,
            RpkiValidation::Invalid => RpkiValidation::INVALID,
        }
    }
}

} // verus!
