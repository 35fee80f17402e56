//! Behaviour shared by every order-condition kind.

pub mod order_condition;
