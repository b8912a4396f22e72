//! Completion capability: one prompt across the host boundary, one text
//! back.
//!
//! The host reports how many bytes of completion it wrote into the
//! transfer buffer. Zero is its error sentinel, and a report past the
//! buffer's capacity is a boundary violation treated as the same absence,
//! never a read past the buffer; both are surfaced as the fixed text
//! `"AI Error"` rather than a distinguishable error value. A caller cannot
//! tell that sentinel apart from a legitimate completion equal to the same
//! text: the ambiguity is part of the boundary's contract and is kept, not
//! resolved, here.

use vstd::prelude::*;

verus! {

use crate::marshal::decoded;
use crate::marshal::import_buffer;

/// Capacity of the transfer buffer for one completion.
pub const AI_BUFFER_LEN: usize = 65536;

/// Interpret the host's answer to one prompt: the transfer buffer and the
/// length the host reports as written. Zero written bytes is the host's
/// error sentinel and a report past the buffer's capacity is treated the
/// same way; both yield the fixed sentinel text. Anything else is the
/// decoded completion of exactly the reported length.
pub fn ask(written: u64, buffer: &Vec<u8>) -> (r: String)
    ensures
        written == 0 || written > buffer@.len() ==> r@ == "AI Error"@,
        0 < written <= buffer@.len() ==> r@ == decoded(buffer@.take(written as int)),
{
    if written == 0 {
        return "AI Error".to_owned();
    }
    match import_buffer(buffer, written) {
        Some(s) => s,
        None => "AI Error".to_owned(),
    }
}

} // verus!
