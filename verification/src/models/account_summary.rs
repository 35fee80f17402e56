//! One account-summary row.

use vstd::prelude::*;

verus! {

#[derive(Debug)]
pub struct AccountSummary {
    pub request_id: i32,
    pub account: String,
    pub tag: String,
    pub value: String,
    pub currency: String,
}

#[verifier::ext_equal]
pub struct AccountSummaryV {
    pub request_id: i32,
    pub account: Seq<char>,
    pub tag: Seq<char>,
    pub value: Seq<char>,
    pub currency: Seq<char>,
}

impl View for AccountSummary {
    type V = AccountSummaryV;

    open spec fn view(&self) -> AccountSummaryV {
        AccountSummaryV {
            request_id: self.request_id,
            account: self.account@,
            tag: self.tag@,
            value: self.value@,
            currency: self.currency@,
        }
    }
}

} // verus!
