//! The outbound request-type codes, matching the published protocol
//! numbering. Every outbound message begins with one of these.

use vstd::prelude::*;

verus! {

pub const REQUEST_MARKET_DATA: i32 = 1;
pub const PLACE_ORDER: i32 = 3;
pub const CANCEL_ORDER: i32 = 4;
pub const REQUEST_CONTRACT_DATA: i32 = 9;
pub const REQUEST_HISTORICAL_DATA: i32 = 20;
pub const REQUEST_SCANNER_SUBSCRIPTION: i32 = 22;
pub const CANCEL_SCANNER_SUBSCRIPTION: i32 = 23;
pub const REQUEST_REAL_TIME_BARS: i32 = 50;
pub const REQUEST_GLOBAL_CANCEL: i32 = 58;
pub const REQUEST_ACCOUNT_SUMMARY: i32 = 62;
pub const START_API: i32 = 71;
pub const REQ_PN_L: i32 = 92;
pub const CANCEL_PN_L: i32 = 93;
pub const REQ_TICK_BY_TICK_DATA: i32 = 97;
pub const CANCEL_TICK_BY_TICK_DATA: i32 = 98;

} // verus!
