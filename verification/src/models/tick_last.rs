//! One tick-by-tick trade report.

use vstd::prelude::*;
use crate::double::Double;

verus! {

#[derive(Debug)]
pub struct TickLast {
    pub time: i64,
    pub price: Double,
    pub size: i32,
    pub mask: i32,
    pub exchange: String,
    pub special_conditions: String,
}

#[verifier::ext_equal]
pub struct TickLastV {
    pub time: i64,
    pub price: Option<Seq<char>>,
    pub size: i32,
    pub mask: i32,
    pub exchange: Seq<char>,
    pub special_conditions: Seq<char>,
}

impl View for TickLast {
    type V = TickLastV;

    open spec fn view(&self) -> TickLastV {
        TickLastV {
            time: self.time,
            price: self.price@,
            size: self.size,
            mask: self.mask,
            exchange: self.exchange@,
            special_conditions: self.special_conditions@,
        }
    }
}

impl TickLast {
    /// A fresh record with every field at its zero default.
    pub fn new() -> (r: TickLast)
        ensures
            r@ == (TickLastV {
                time: 0,
                price: Some("0"@),
                size: 0,
                mask: 0,
                exchange: Seq::empty(),
                special_conditions: Seq::empty(),
            }),
    {
        let r = TickLast {
            time: 0,
            price: Double::Num(String::from_str("0")),
            size: 0,
            mask: 0,
            exchange: String::new(),
            special_conditions: String::new(),
        };
        proof {
            assert(r@ =~~= (TickLastV {
                time: 0,
                price: Some("0"@),
                size: 0,
                mask: 0,
                exchange: Seq::empty(),
                special_conditions: Seq::empty(),
            }));
        }
        r
    }
}

} // verus!
