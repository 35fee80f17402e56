//! Shared wire-level constants: the "unset" sentinels and frame limits.

use vstd::prelude::*;

verus! {

/// Sentinel for an integer field that was intentionally not provided.
/// It encodes as an empty wire field and decodes back to itself.
pub const UNSET_INTEGER: i32 = i32::MAX;

/// Largest payload size (in bytes) the frame reader accepts. A frame whose
/// declared length exceeds this is dropped without breaking the connection.
pub const MAX_MSG_SIZE: usize = 0xFFFFFF;

/// Security type string marking a combo ("bag") contract.
pub const BAG_SEC_TYPE: &'static str = "BAG";

} // verus!
