//! The origin of an order: customer or firm.

use vstd::prelude::*;

verus! {

#[derive(Debug, Clone, Copy, PartialEq, Eq, Structural)]
pub enum Origin {
    Customer,
    Firm,
    Unknown,
}

impl Origin {
    /// The wire code of the origin.
    pub open spec fn code_spec(self) -> i32 {
        match self {
            Origin::Customer => 0,
            Origin::Firm => 1,
            Origin::Unknown => 2,
        }
    }

    #[verifier::when_used_as_spec(code_spec)]
    pub fn code(self) -> (r: i32)
        ensures
            r == self.code_spec(),
    {
        match self {
            Origin::Customer => 0,
            Origin::Firm => 1,
            Origin::Unknown => 2,
        }
    }

    /// The origin a wire code decodes to.
    pub open spec fn from_code_spec(code: i32) -> Origin {
        if code == 0 {
            Origin::Customer
        } else if code == 1 {
            Origin::Firm
        } else {
            Origin::Unknown
        }
    }

    #[verifier::when_used_as_spec(from_code_spec)]
    pub fn from_code(code: i32) -> (r: Origin)
        ensures
            r == Origin::from_code_spec(code),
    {
        if code == 0 {
            Origin::Customer
        } else if code == 1 {
            Origin::Firm
        } else {
            Origin::Unknown
        }
    }
}

} // verus!
