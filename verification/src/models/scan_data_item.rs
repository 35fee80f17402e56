//! One row of scanner data.

use vstd::prelude::*;
use crate::models::contract_details::{ContractDetails, ContractDetailsV};

verus! {

#[derive(Debug)]
pub struct ScanDataItem {
    pub request_id: i32,
    pub rank: i32,
    pub contract_details: ContractDetails,
    pub distance: String,
    pub benchmark: String,
    pub projection: String,
    pub legs_str: String,
}

#[verifier::ext_equal]
pub struct ScanDataItemV {
    pub request_id: i32,
    pub rank: i32,
    pub contract_details: ContractDetailsV,
    pub distance: Seq<char>,
    pub benchmark: Seq<char>,
    pub projection: Seq<char>,
    pub legs_str: Seq<char>,
}

impl View for ScanDataItem {
    type V = ScanDataItemV;

    open spec fn view(&self) -> ScanDataItemV {
        ScanDataItemV {
            request_id: self.request_id,
            rank: self.rank,
            contract_details: self.contract_details@,
            distance: self.distance@,
            benchmark: self.benchmark@,
            projection: self.projection@,
            legs_str: self.legs_str@,
        }
    }
}

} // verus!
