//! The soft-dollar tier attached to an order.

use vstd::prelude::*;

verus! {

#[derive(Debug)]
pub struct SoftDollarTier {
    pub name: String,
    pub val: String,
    pub display_name: String,
}

#[verifier::ext_equal]
pub struct SoftDollarTierV {
    pub name: Seq<char>,
    pub val: Seq<char>,
    pub display_name: Seq<char>,
}

impl View for SoftDollarTier {
    type V = SoftDollarTierV;

    open spec fn view(&self) -> SoftDollarTierV {
        SoftDollarTierV { name: self.name@, val: self.val@, display_name: self.display_name@ }
    }
}

impl SoftDollarTier {
    pub fn new(name: String, val: String, display_name: String) -> (r: SoftDollarTier)
        ensures
            r@ == (SoftDollarTierV { name: name@, val: val@, display_name: display_name@ }),
    {
        SoftDollarTier { name, val, display_name }
    }
}

} // verus!
