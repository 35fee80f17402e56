//! Client-side engine for a length-prefixed, NUL-delimited, version-evolving
//! wire protocol used to talk to a remote trading gateway.
//!
//! The crate is organised in layers. `frame` turns raw bytes into
//! length-prefixed frames; `fields` splits a frame payload into NUL-terminated
//! string fields; `numbers` and `double` give the textual encodings of the
//! primitive field types; `api_parameter` builds outbound field sequences;
//! `decoder` and `order_decoder` turn inbound field sequences into typed
//! events; `requests` builds the outbound request messages.

pub mod helper_constants;
pub mod incoming_message_constants;
pub mod outgoing_messages;
pub mod min_server_version;
pub mod numbers;
pub mod double;
pub mod fields;
pub mod frame;
pub mod enums;
pub mod api_parameter;
pub mod decoder;
pub mod models;
pub mod order_decoder;
pub mod client_errors;
pub mod requests;
pub mod traits;
