//! One leg of a combo ("bag") contract.

use vstd::prelude::*;
use crate::enums::position_type::PositionType;

verus! {

#[derive(Debug)]
pub struct ComboLeg {
    pub con_id: i32,
    pub ratio: i32,
    pub action: String,
    pub exchange: String,
    pub open_close: PositionType,
    pub short_sale_slot: i32,
    pub designated_location: String,
    pub exempt_code: i32,
}

#[verifier::ext_equal]
pub struct ComboLegV {
    pub con_id: i32,
    pub ratio: i32,
    pub action: Seq<char>,
    pub exchange: Seq<char>,
    pub open_close: PositionType,
    pub short_sale_slot: i32,
    pub designated_location: Seq<char>,
    pub exempt_code: i32,
}

impl View for ComboLeg {
    type V = ComboLegV;

    open spec fn view(&self) -> ComboLegV {
        ComboLegV {
            con_id: self.con_id,
            ratio: self.ratio,
            action: self.action@,
            exchange: self.exchange@,
            open_close: self.open_close,
            short_sale_slot: self.short_sale_slot,
            designated_location: self.designated_location@,
            exempt_code: self.exempt_code,
        }
    }
}

impl ComboLeg {
    pub fn new(
        con_id: i32,
        ratio: i32,
        action: String,
        exchange: String,
        open_close: PositionType,
        short_sale_slot: i32,
        designated_location: String,
        exempt_code: i32,
    ) -> (r: ComboLeg)
        ensures
            r@ == (ComboLegV {
                con_id,
                ratio,
                action: action@,
                exchange: exchange@,
                open_close,
                short_sale_slot,
                designated_location: designated_location@,
                exempt_code,
            }),
    {
        ComboLeg {
            con_id,
            ratio,
            action,
            exchange,
            open_close,
            short_sale_slot,
            designated_location,
            exempt_code,
        }
    }
}

} // verus!
