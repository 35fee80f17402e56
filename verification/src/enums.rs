//! Closed enumerations of the protocol: message kinds, order-condition
//! kinds, trigger methods, and per-leg flags.

pub mod incoming_message_enum;
pub mod order_condition_type;
pub mod origin;
pub mod position_type;
pub mod trigger_method;
