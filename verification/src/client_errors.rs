//! The stable error codes the client itself raises, paired with their
//! messages, matching the published client-error numbering.

use vstd::prelude::*;

verus! {

pub const UPDATE_TWS_CODE: i32 = 503;
pub const UPDATE_TWS_TEXT: &'static str = "The TWS is out of date and must be upgraded.";
pub const NOT_CONNECTED_CODE: i32 = 504;
pub const NOT_CONNECTED_TEXT: &'static str = "Not connected";
pub const FAIL_SEND_REQMKT: i32 = 510;
pub const FAIL_SEND_ORDER: i32 = 512;
pub const FAIL_SEND_REQCONTRACT: i32 = 518;
pub const FAIL_SEND_CANSCANNER: i32 = 525;
pub const FAIL_SEND_REQHISTDATA: i32 = 527;
pub const FAIL_SEND_REQRTBARS: i32 = 529;
pub const FAIL_SEND_REQGLOBALCANCEL: i32 = 533;
pub const FAIL_SEND_REQTICKBYTICKDATA: i32 = 536;
pub const FAIL_SEND_CANCELTICKBYTICKDATA: i32 = 537;

} // verus!
