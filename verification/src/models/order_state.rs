//! The order-state record: margin and commission figures decoded with a
//! what-if order.

use vstd::prelude::*;
use crate::double::Double;

verus! {

#[derive(Debug)]
pub struct OrderState {
    pub status: String,
    pub init_margin_before: String,
    pub maint_margin_before: String,
    pub equity_with_loan_before: String,
    pub init_margin_change: String,
    pub maint_margin_change: String,
    pub equity_with_loan_change: String,
    pub init_margin_after: String,
    pub maint_margin_after: String,
    pub equity_with_loan_after: String,
    pub commission: Double,
    pub min_commission: Double,
    pub max_commission: Double,
    pub commission_currency: String,
    pub warning_text: String,
    pub completed_time: String,
    pub completed_status: String,
}

/// The mathematical value of a `OrderState`: each text field as its
/// character sequence, each number field as its wire text or unset.
#[verifier::ext_equal]
pub struct OrderStateV {
    pub status: Seq<char>,
    pub init_margin_before: Seq<char>,
    pub maint_margin_before: Seq<char>,
    pub equity_with_loan_before: Seq<char>,
    pub init_margin_change: Seq<char>,
    pub maint_margin_change: Seq<char>,
    pub equity_with_loan_change: Seq<char>,
    pub init_margin_after: Seq<char>,
    pub maint_margin_after: Seq<char>,
    pub equity_with_loan_after: Seq<char>,
    pub commission: Option<Seq<char>>,
    pub min_commission: Option<Seq<char>>,
    pub max_commission: Option<Seq<char>>,
    pub commission_currency: Seq<char>,
    pub warning_text: Seq<char>,
    pub completed_time: Seq<char>,
    pub completed_status: Seq<char>,
}

impl View for OrderState {
    type V = OrderStateV;

    open spec fn view(&self) -> OrderStateV {
        OrderStateV {
            status: self.status@,
            init_margin_before: self.init_margin_before@,
            maint_margin_before: self.maint_margin_before@,
            equity_with_loan_before: self.equity_with_loan_before@,
            init_margin_change: self.init_margin_change@,
            maint_margin_change: self.maint_margin_change@,
            equity_with_loan_change: self.equity_with_loan_change@,
            init_margin_after: self.init_margin_after@,
            maint_margin_after: self.maint_margin_after@,
            equity_with_loan_after: self.equity_with_loan_after@,
            commission: self.commission@,
            min_commission: self.min_commission@,
            max_commission: self.max_commission@,
            commission_currency: self.commission_currency@,
            warning_text: self.warning_text@,
            completed_time: self.completed_time@,
            completed_status: self.completed_status@,
        }
    }
}

/// The default-initialised value, as populated before decoding.
pub open spec fn orderstate_init() -> OrderStateV {
    OrderStateV {
        status: Seq::empty(),
        init_margin_before: Seq::empty(),
        maint_margin_before: Seq::empty(),
        equity_with_loan_before: Seq::empty(),
        init_margin_change: Seq::empty(),
        maint_margin_change: Seq::empty(),
        equity_with_loan_change: Seq::empty(),
        init_margin_after: Seq::empty(),
        maint_margin_after: Seq::empty(),
        equity_with_loan_after: Seq::empty(),
        commission: Option::Some("0"@),
        min_commission: Option::Some("0"@),
        max_commission: Option::Some("0"@),
        commission_currency: Seq::empty(),
        warning_text: Seq::empty(),
        completed_time: Seq::empty(),
        completed_status: Seq::empty(),
    }
}

impl OrderState {
    /// A fresh record with every field at its documented default.
    pub fn new() -> (r: OrderState)
        ensures
            r@ == orderstate_init(),
    {
        let r = OrderState {
            status: String::new(),
            init_margin_before: String::new(),
            maint_margin_before: String::new(),
            equity_with_loan_before: String::new(),
            init_margin_change: String::new(),
            maint_margin_change: String::new(),
            equity_with_loan_change: String::new(),
            init_margin_after: String::new(),
            maint_margin_after: String::new(),
            equity_with_loan_after: String::new(),
            commission: Double::Num(String::from_str("0")),
            min_commission: Double::Num(String::from_str("0")),
            max_commission: Double::Num(String::from_str("0")),
            commission_currency: String::new(),
            warning_text: String::new(),
            completed_time: String::new(),
            completed_status: String::new(),
        };
        proof {
            assert(r@ =~~= orderstate_init());
        }
        r
    }
}

} // verus!
