//! Logging capability: fire-and-forget messages across the host boundary.
//!
//! Each operation maps to a single host call carrying a severity level and
//! the message's exported bytes. No return value and no failure path reach
//! the caller; the host is trusted to cope with malformed or oversized
//! messages on its own.

use vstd::prelude::*;

verus! {

use crate::marshal::export_bytes;
use vstd::utf8::encode_utf8;

/// Severity carried by an informational message.
pub const INFO_LEVEL: u32 = 1;

/// Severity carried by an error message.
pub const ERROR_LEVEL: u32 = 3;

/// The payload of one log call: the severity level and the message's
/// exported bytes, exactly as the host is handed them.
pub struct LogCall {
    pub level: u32,
    pub message: Vec<u8>,
}

/// Build the log call for one informational message.
pub fn info(msg: &str) -> (c: LogCall)
    ensures
        c.level == INFO_LEVEL,
        c.message@ == encode_utf8(msg@),
{
    LogCall { level: INFO_LEVEL, message: export_bytes(msg) }
}

/// Build the log call for one error message.
pub fn error(msg: &str) -> (c: LogCall)
    ensures
        c.level == ERROR_LEVEL,
        c.message@ == encode_utf8(msg@),
{
    LogCall { level: ERROR_LEVEL, message: export_bytes(msg) }
}

} // verus!
