//! The open/close disposition of a combo leg.

use vstd::prelude::*;

verus! {

#[derive(Debug, Clone, Copy, PartialEq, Eq, Structural)]
pub enum PositionType {
    SamePos,
    OpenPos,
    ClosePos,
    UnknownPos,
}

impl PositionType {
    /// The wire code of the disposition.
    pub open spec fn code_spec(self) -> i32 {
        match self {
            PositionType::SamePos => 0,
            PositionType::OpenPos => 1,
            PositionType::ClosePos => 2,
            PositionType::UnknownPos => 3,
        }
    }

    #[verifier::when_used_as_spec(code_spec)]
    pub fn code(self) -> (r: i32)
        ensures
            r == self.code_spec(),
    {
        match self {
            PositionType::SamePos => 0,
            PositionType::OpenPos => 1,
            PositionType::ClosePos => 2,
            PositionType::UnknownPos => 3,
        }
    }

    /// The disposition a wire code decodes to.
    pub open spec fn from_code_spec(code: i32) -> PositionType {
        if code == 0 {
            PositionType::SamePos
        } else if code == 1 {
            PositionType::OpenPos
        } else if code == 2 {
            PositionType::ClosePos
        } else {
            PositionType::UnknownPos
        }
    }

    #[verifier::when_used_as_spec(from_code_spec)]
    pub fn from_code(code: i32) -> (r: PositionType)
        ensures
            r == PositionType::from_code_spec(code),
    {
        if code == 0 {
            PositionType::SamePos
        } else if code == 1 {
            PositionType::OpenPos
        } else if code == 2 {
            PositionType::ClosePos
        } else {
            PositionType::UnknownPos
        }
    }
}

} // verus!
