//! The closed set of order-condition kinds and their wire codes.

use vstd::prelude::*;

verus! {

#[derive(Debug, Clone, Copy, PartialEq, Eq, Structural)]
pub enum OrderConditionType {
    Price,
    Time,
    Margin,
    Execution,
    Volume,
    PercentChange,
    Unknown,
}

impl OrderConditionType {
    /// The wire code of the condition kind.
    pub open spec fn code_spec(self) -> i32 {
        match self {
            OrderConditionType::Price => 1,
            OrderConditionType::Time => 3,
            OrderConditionType::Margin => 4,
            OrderConditionType::Execution => 5,
            OrderConditionType::Volume => 6,
            OrderConditionType::PercentChange => 7,
            OrderConditionType::Unknown => 0,
        }
    }

    #[verifier::when_used_as_spec(code_spec)]
    pub fn code(self) -> (r: i32)
        ensures
            r == self.code_spec(),
    {
        match self {
            OrderConditionType::Price => 1,
            OrderConditionType::Time => 3,
            OrderConditionType::Margin => 4,
            OrderConditionType::Execution => 5,
            OrderConditionType::Volume => 6,
            OrderConditionType::PercentChange => 7,
            OrderConditionType::Unknown => 0,
        }
    }
}

/// The condition kind a wire code decodes to.
pub open spec fn condition_type_from_spec(val: i32) -> OrderConditionType {
    if val == 1 {
        OrderConditionType::Price
    } else if val == 3 {
        OrderConditionType::Time
    } else if val == 4 {
        OrderConditionType::Margin
    } else if val == 5 {
        OrderConditionType::Execution
    } else if val == 6 {
        OrderConditionType::Volume
    } else if val == 7 {
        OrderConditionType::PercentChange
    } else {
        OrderConditionType::Unknown
    }
}

impl From<i32> for OrderConditionType {
    fn from(val: i32) -> (r: OrderConditionType) {
        if val == 1 {
            OrderConditionType::Price
        } else if val == 3 {
            OrderConditionType::Time
        } else if val == 4 {
            OrderConditionType::Margin
        } else if val == 5 {
            OrderConditionType::Execution
        } else if val == 6 {
            OrderConditionType::Volume
        } else if val == 7 {
            OrderConditionType::PercentChange
        } else {
            OrderConditionType::Unknown
        }
    }
}

impl vstd::std_specs::convert::FromSpecImpl<i32> for OrderConditionType {
    open spec fn obeys_from_spec() -> bool {
        true
    }

    open spec fn from_spec(val: i32) -> OrderConditionType {
        condition_type_from_spec(val)
    }
}

} // verus!
