//! The version compatibility table: a static, append-only map from named
//! protocol capabilities to the minimum server version that supports them.
//! Both the outbound encoders and the inbound decoders consult these same
//! constants, so the two schemas cannot silently diverge.

use vstd::prelude::*;

verus! {

pub const REAL_TIME_BARS: i32 = 34;
pub const SCALE_ORDERS: i32 = 35;
pub const SNAPSHOT_MKT_DATA: i32 = 35;
pub const SSHORT_COMBO_LEGS: i32 = 35;
pub const WHAT_IF_ORDERS: i32 = 36;
pub const CONTRACT_CONID: i32 = 37;
pub const PTA_ORDERS: i32 = 39;
pub const DELTA_NEUTRAL: i32 = 40;
pub const CONTRACT_DATA_CHAIN: i32 = 40;
pub const SCALE_ORDERS2: i32 = 40;
pub const ALGO_ORDERS: i32 = 41;
pub const NOT_HELD: i32 = 44;
pub const SEC_ID_TYPE: i32 = 45;
pub const PLACE_ORDER_CONID: i32 = 46;
pub const SSHORTX_OLD: i32 = 51;
pub const SSHORTX: i32 = 52;
pub const REQ_GLOBAL_CANCEL: i32 = 53;
pub const HEDGE_ORDERS: i32 = 54;
pub const OPT_OUT_SMART_ROUTING: i32 = 56;
pub const SMART_COMBO_ROUTING_PARAMS: i32 = 57;
pub const DELTA_NEUTRAL_CONID: i32 = 58;
pub const SCALE_ORDERS3: i32 = 60;
pub const ORDER_COMBO_LEGS_PRICE: i32 = 61;
pub const TRAILING_PERCENT: i32 = 62;
pub const DELTA_NEUTRAL_OPEN_CLOSE: i32 = 66;
pub const ACCT_SUMMARY: i32 = 67;
pub const TRADING_CLASS: i32 = 68;
pub const SCALE_TABLE: i32 = 69;
pub const LINKING: i32 = 70;
pub const ALGO_ID: i32 = 71;
pub const OPTIONAL_CAPABILITIES: i32 = 72;
pub const ORDER_SOLICITED: i32 = 73;
pub const PRIMARYEXCH: i32 = 75;
pub const RANDOMIZE_SIZE_AND_PRICE: i32 = 76;
pub const FRACTIONAL_POSITIONS: i32 = 101;
pub const PEGGED_TO_BENCHMARK: i32 = 102;
pub const MODELS_SUPPORT: i32 = 103;
pub const EXT_OPERATOR: i32 = 105;
pub const SOFT_DOLLAR_TIER: i32 = 106;
pub const MD_SIZE_MULTIPLIER: i32 = 110;
pub const CASH_QTY: i32 = 111;
pub const SMART_COMPONENTS: i32 = 114;
pub const AGG_GROUP: i32 = 121;
pub const UNDERLYING_INFO: i32 = 122;
pub const SYNT_REALTIME_BARS: i32 = 124;
pub const MARKET_RULES: i32 = 126;
pub const PNL: i32 = 127;
pub const UNREALIZED_PNL: i32 = 129;
pub const MARKET_CAP_PRICE: i32 = 131;
pub const REAL_EXPIRATION_DATE: i32 = 134;
pub const REALIZED_PNL: i32 = 135;
pub const TICK_BY_TICK: i32 = 137;
pub const DECISION_MAKER: i32 = 138;
pub const MIFID_EXECUTION: i32 = 139;
pub const TICK_BY_TICK_IGNORE_SIZE: i32 = 140;
pub const AUTO_PRICE_FOR_HEDGE: i32 = 141;
pub const WHAT_IF_EXT_FIELDS: i32 = 142;
pub const SCANNER_GENERIC_OPTS: i32 = 143;
pub const ORDER_CONTAINER: i32 = 145;
pub const D_PEG_ORDERS: i32 = 148;
pub const PRICE_MGMT_ALGO: i32 = 151;

} // verus!
