//! The per-leg price of a combo order.

use vstd::prelude::*;
use crate::double::Double;

verus! {

#[derive(Debug)]
pub struct OrderComboLeg {
    pub price: Double,
}

#[verifier::ext_equal]
pub struct OrderComboLegV {
    pub price: Option<Seq<char>>,
}

impl View for OrderComboLeg {
    type V = OrderComboLegV;

    open spec fn view(&self) -> OrderComboLegV {
        OrderComboLegV { price: self.price@ }
    }
}

impl OrderComboLeg {
    pub fn new(price: Double) -> (r: OrderComboLeg)
        ensures
            r@ == (OrderComboLegV { price: price@ }),
    {
        OrderComboLeg { price }
    }
}

} // verus!
