//! The order-status event record.

use vstd::prelude::*;
use crate::double::Double;

verus! {

#[derive(Debug)]
pub struct OrderStatusMessage {
    pub order_id: i32,
    pub status: String,
    pub filled: Double,
    pub remaining: Double,
    pub avg_fill_price: Double,
    pub perm_id: i32,
    pub parent_id: i32,
    pub last_fill_price: Double,
    pub client_id: i32,
    pub why_held: String,
    pub mkt_cap_price: Double,
}

#[verifier::ext_equal]
pub struct OrderStatusMessageV {
    pub order_id: i32,
    pub status: Seq<char>,
    pub filled: Option<Seq<char>>,
    pub remaining: Option<Seq<char>>,
    pub avg_fill_price: Option<Seq<char>>,
    pub perm_id: i32,
    pub parent_id: i32,
    pub last_fill_price: Option<Seq<char>>,
    pub client_id: i32,
    pub why_held: Seq<char>,
    pub mkt_cap_price: Option<Seq<char>>,
}

impl View for OrderStatusMessage {
    type V = OrderStatusMessageV;

    open spec fn view(&self) -> OrderStatusMessageV {
        OrderStatusMessageV {
            order_id: self.order_id,
            status: self.status@,
            filled: self.filled@,
            remaining: self.remaining@,
            avg_fill_price: self.avg_fill_price@,
            perm_id: self.perm_id,
            parent_id: self.parent_id,
            last_fill_price: self.last_fill_price@,
            client_id: self.client_id,
            why_held: self.why_held@,
            mkt_cap_price: self.mkt_cap_price@,
        }
    }
}

impl OrderStatusMessage {
    /// A fresh record with every field at its zero default.
    pub fn new() -> (r: OrderStatusMessage)
        ensures
            r@ == (OrderStatusMessageV {
                order_id: 0,
                status: Seq::empty(),
                filled: Some("0"@),
                remaining: Some("0"@),
                avg_fill_price: Some("0"@),
                perm_id: 0,
                parent_id: 0,
                last_fill_price: Some("0"@),
                client_id: 0,
                why_held: Seq::empty(),
                mkt_cap_price: Some("0"@),
            }),
    {
        let r = OrderStatusMessage {
            order_id: 0,
            status: String::new(),
            filled: Double::Num(String::from_str("0")),
            remaining: Double::Num(String::from_str("0")),
            avg_fill_price: Double::Num(String::from_str("0")),
            perm_id: 0,
            parent_id: 0,
            last_fill_price: Double::Num(String::from_str("0")),
            client_id: 0,
            why_held: String::new(),
            mkt_cap_price: Double::Num(String::from_str("0")),
        };
        proof {
            assert(r@ =~~= (OrderStatusMessageV {
                order_id: 0,
                status: Seq::empty(),
                filled: Some("0"@),
                remaining: Some("0"@),
                avg_fill_price: Some("0"@),
                perm_id: 0,
                parent_id: 0,
                last_fill_price: Some("0"@),
                client_id: 0,
                why_held: Seq::empty(),
                mkt_cap_price: Some("0"@),
            }));
        }
        r
    }
}

} // verus!
