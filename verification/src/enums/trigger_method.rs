//! The trigger method of a price condition.

use vstd::prelude::*;

verus! {

#[derive(Debug, Clone, Copy, PartialEq, Eq, Structural)]
pub enum TriggerMethod {
    Default,
    DoubleBidAsk,
    Last,
    DoubleLast,
    BidAsk,
    NA1,
    NA2,
    LastBidAsk,
    MidPoint,
}

impl TriggerMethod {
    /// The wire code of the trigger method.
    pub open spec fn code_spec(self) -> i32 {
        match self {
            TriggerMethod::Default => 0,
            TriggerMethod::DoubleBidAsk => 1,
            TriggerMethod::Last => 2,
            TriggerMethod::DoubleLast => 3,
            TriggerMethod::BidAsk => 4,
            TriggerMethod::NA1 => 5,
            TriggerMethod::NA2 => 6,
            TriggerMethod::LastBidAsk => 7,
            TriggerMethod::MidPoint => 8,
        }
    }

    #[verifier::when_used_as_spec(code_spec)]
    pub fn code(self) -> (r: i32)
        ensures
            r == self.code_spec(),
    {
        match self {
            TriggerMethod::Default => 0,
            TriggerMethod::DoubleBidAsk => 1,
            TriggerMethod::Last => 2,
            TriggerMethod::DoubleLast => 3,
            TriggerMethod::BidAsk => 4,
            TriggerMethod::NA1 => 5,
            TriggerMethod::NA2 => 6,
            TriggerMethod::LastBidAsk => 7,
            TriggerMethod::MidPoint => 8,
        }
    }
}

/// The trigger method a wire code decodes to; an unknown code falls back
/// to the default method.
pub open spec fn trigger_method_from_spec(val: i32) -> TriggerMethod {
    if val == 0 {
        TriggerMethod::Default
    } else if val == 1 {
        TriggerMethod::DoubleBidAsk
    } else if val == 2 {
        TriggerMethod::Last
    } else if val == 3 {
        TriggerMethod::DoubleLast
    } else if val == 4 {
        TriggerMethod::BidAsk
    } else if val == 5 {
        TriggerMethod::NA1
    } else if val == 6 {
        TriggerMethod::NA2
    } else if val == 7 {
        TriggerMethod::LastBidAsk
    } else if val == 8 {
        TriggerMethod::MidPoint
    } else {
        TriggerMethod::Default
    }
}

impl From<i32> for TriggerMethod {
    fn from(val: i32) -> (r: TriggerMethod) {
        if val == 0 {
            TriggerMethod::Default
        } else if val == 1 {
            TriggerMethod::DoubleBidAsk
        } else if val == 2 {
            TriggerMethod::Last
        } else if val == 3 {
            TriggerMethod::DoubleLast
        } else if val == 4 {
            TriggerMethod::BidAsk
        } else if val == 5 {
            TriggerMethod::NA1
        } else if val == 6 {
            TriggerMethod::NA2
        } else if val == 7 {
            TriggerMethod::LastBidAsk
        } else if val == 8 {
            TriggerMethod::MidPoint
        } else {
            TriggerMethod::Default
        }
    }
}

impl vstd::std_specs::convert::FromSpecImpl<i32> for TriggerMethod {
    open spec fn obeys_from_spec() -> bool {
        true
    }

    open spec fn from_spec(val: i32) -> TriggerMethod {
        trigger_method_from_spec(val)
    }
}

} // verus!
