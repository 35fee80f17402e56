//! The delta-neutral underlying attached to a contract.

use vstd::prelude::*;
use crate::double::Double;

verus! {

#[derive(Debug)]
pub struct DeltaNeutralContract {
    pub con_id: i32,
    pub delta: Double,
    pub price: Double,
}

#[verifier::ext_equal]
pub struct DeltaNeutralContractV {
    pub con_id: i32,
    pub delta: Option<Seq<char>>,
    pub price: Option<Seq<char>>,
}

impl View for DeltaNeutralContract {
    type V = DeltaNeutralContractV;

    open spec fn view(&self) -> DeltaNeutralContractV {
        DeltaNeutralContractV { con_id: self.con_id, delta: self.delta@, price: self.price@ }
    }
}

impl DeltaNeutralContract {
    pub fn new(con_id: i32, delta: Double, price: Double) -> (r: DeltaNeutralContract)
        ensures
            r@ == (DeltaNeutralContractV { con_id: con_id, delta: delta@, price: price@ }),
    {
        DeltaNeutralContract { con_id, delta, price }
    }
}

} // verus!
