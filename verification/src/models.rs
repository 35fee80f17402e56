//! The domain records the protocol carries: plain aggregates populated
//! field by field by the decode routines and read field by field by the
//! encoders.

pub mod account_summary;
pub mod bar;
pub mod combo_leg;
pub mod conditions;
pub mod contract;
pub mod contract_details;
pub mod delta_neutral_contract;
pub mod order;
pub mod order_combo_leg;
pub mod order_data_item;
pub mod order_state;
pub mod order_status_message;
pub mod scan_data_item;
pub mod scanner_subscription;
pub mod soft_dollar_tier;
pub mod tag_value;
pub mod tick_last;
