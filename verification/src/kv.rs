//! Key/value capability: a one-way store and a bounded load across the host
//! boundary.
//!
//! `set` is fire-and-forget: the host takes the key and value bytes and
//! signals nothing back. `get` hands the host a fixed transfer buffer; a
//! reported length beyond that buffer's capacity means the value is too
//! large or missing and yields absence — never a truncated partial text. A
//! reported length of zero is a valid empty value, distinct from absence.

use vstd::prelude::*;

verus! {

use crate::marshal::decoded;
use crate::marshal::export_bytes;
use crate::marshal::import_buffer;
use crate::marshal::import_spec;
use vstd::utf8::encode_utf8;

/// Capacity of the transfer buffer for one loaded value.
pub const KV_BUFFER_LEN: usize = 4096;

/// The payload of one store call: the key's and the value's exported bytes,
/// exactly as the host is handed them.
pub struct SetCall {
    pub key: Vec<u8>,
    pub value: Vec<u8>,
}

/// Build the store call for one key and value. One-way: no return and no
/// failure is signaled to the caller.
pub fn set(key: &str, value: &str) -> (c: SetCall)
    ensures
        c.key@ == encode_utf8(key@),
        c.value@ == encode_utf8(value@),
{
    SetCall { key: export_bytes(key), value: export_bytes(value) }
}

/// Interpret the host's answer to one load: the transfer buffer and the
/// length the host reports as written. Over-capacity reports yield absence;
/// anything else is the decoded text of exactly the reported length.
pub fn get(written: u64, buffer: &Vec<u8>) -> (r: Option<String>)
    ensures
        r is None <==> written > buffer@.len(),
        r matches Some(s) ==> s@ == decoded(buffer@.take(written as int)),
{
    import_buffer(buffer, written)
}

/// Store-then-load round trip: for every value whose encoding fits the
/// transfer buffer, a host that echoes the stored bytes of `set`'s call
/// back through `get`'s buffer yields exactly the stored text, with
/// nothing truncated and nothing replaced.
pub proof fn lemma_set_get_round_trip(value: Seq<char>, buffer: Seq<u8>)
    requires
        encode_utf8(value).len() <= KV_BUFFER_LEN,
        buffer.len() == KV_BUFFER_LEN,
        buffer.take(encode_utf8(value).len() as int) == encode_utf8(value),
    ensures
        import_spec(buffer, encode_utf8(value).len() as int) == Some(value),
{
    crate::marshal::lemma_export_import_round_trip(value, buffer);
}

} // verus!
