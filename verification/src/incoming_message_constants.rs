//! The inbound message-type codes, matching the published protocol
//! numbering. Field zero of every inbound frame carries one of these.

use vstd::prelude::*;

verus! {

pub const NOT_VALID: i32 = -1;
pub const TICK_PRICE: i32 = 1;
pub const TICK_SIZE: i32 = 2;
pub const ORDER_STATUS: i32 = 3;
pub const ERROR: i32 = 4;
pub const OPEN_ORDER: i32 = 5;
pub const NEXT_VALID_ID: i32 = 9;
pub const CONTRACT_DATA: i32 = 10;
pub const MANAGED_ACCOUNTS: i32 = 15;
pub const HISTORICAL_DATA: i32 = 17;
pub const SCANNER_DATA: i32 = 20;
pub const TICK_GENERIC: i32 = 45;
pub const REAL_TIME_BARS: i32 = 50;
pub const CONTRACT_DATA_END: i32 = 52;
pub const OPEN_ORDER_END: i32 = 53;
pub const ACCOUNT_SUMMARY: i32 = 63;
pub const ACCOUNT_SUMMARY_END: i32 = 64;
pub const PN_L: i32 = 94;
pub const TICK_BY_TICK: i32 = 99;

} // verus!
