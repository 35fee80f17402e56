//! The payload of an open-order event: the decoded order with its contract
//! and state.

use vstd::prelude::*;
use crate::models::contract::{Contract, ContractV};
use crate::models::order::{Order, OrderV};
use crate::models::order_state::{OrderState, OrderStateV};

verus! {

pub struct OrderDataItem {
    pub order_id: i32,
    pub order: Order,
    pub contract: Contract,
    pub order_state: OrderState,
}

#[verifier::ext_equal]
pub struct OrderDataItemV {
    pub order_id: i32,
    pub order: OrderV,
    pub contract: ContractV,
    pub order_state: OrderStateV,
}

impl View for OrderDataItem {
    type V = OrderDataItemV;

    open spec fn view(&self) -> OrderDataItemV {
        OrderDataItemV {
            order_id: self.order_id,
            order: self.order@,
            contract: self.contract@,
            order_state: self.order_state@,
        }
    }
}

impl OrderDataItem {
    pub fn new(order_id: i32, order: Order, contract: Contract, order_state: OrderState) -> (r:
        OrderDataItem)
        ensures
            r@ == (OrderDataItemV {
                order_id,
                order: order@,
                contract: contract@,
                order_state: order_state@,
            }),
    {
        OrderDataItem { order_id, order, contract, order_state }
    }
}

} // verus!
