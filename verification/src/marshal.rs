//! Marshalling primitives for the host-call boundary.
//!
//! A host call takes guest text as a byte sequence (an address and a length
//! in the real boundary) and hands variable-length output back through a
//! transfer buffer together with the number of bytes it reports as written.
//! These primitives are the only place where raw byte counts are turned into
//! guest-owned text; the sentinel "the report exceeds the buffer's capacity"
//! becomes an explicit absence here and never leaks to the capability
//! modules' callers.

use vstd::prelude::*;

verus! {

use vstd::slice::slice_subrange;
use vstd::string::StrSliceExecFns;
use vstd::utf8::decode_utf8;
use vstd::utf8::encode_utf8;
use vstd::utf8::valid_utf8;

/// The replacement-character decoding that `String::from_utf8_lossy` applies
/// to a byte sequence that is not valid UTF-8.
pub uninterp spec fn lossy_of(bytes: Seq<u8>) -> Seq<char>;

/// The text a byte sequence from a transfer buffer decodes to: valid UTF-8
/// decodes exactly, anything else decodes lossily rather than failing, since
/// malformed host output must never crash the guest.
pub open spec fn decoded(bytes: Seq<u8>) -> Seq<char> {
    if valid_utf8(bytes) {
        decode_utf8(bytes)
    } else {
        lossy_of(bytes)
    }
}

/// The text recovered from a transfer buffer of which the host reports
/// `written` bytes: absent when the report exceeds the buffer's capacity,
/// else the decoding of exactly the first `written` bytes.
pub open spec fn import_spec(buffer: Seq<u8>, written: int) -> Option<Seq<char>> {
    if written > buffer.len() {
        None
    } else {
        Some(decoded(buffer.take(written)))
    }
}

/// Relies on `String::from_utf8_lossy`: bytes that are valid UTF-8 decode to
/// exactly the text they encode; invalid sequences are replaced rather than
/// rejected (that replacement is only named, by `lossy_of`).
#[verifier::external_body]
fn from_utf8_lossy(bytes: &[u8]) -> (s: String)
    ensures
        valid_utf8(bytes@) ==> s@ == decode_utf8(bytes@),
        !valid_utf8(bytes@) ==> s@ == lossy_of(bytes@),
{
    String::from_utf8_lossy(bytes).into_owned()
}

/// The export half of the boundary: the bytes of `s` that a host call is
/// handed.
pub fn export_bytes(s: &str) -> (b: Vec<u8>)
    ensures
        b@ == encode_utf8(s@),
{
    s.as_bytes_vec()
}

/// Allocate a zeroed transfer buffer of the given capacity for one host call
/// to write into.
pub fn transfer_buffer(capacity: usize) -> (b: Vec<u8>)
    ensures
        b@.len() == capacity,
        forall|i: int| 0 <= i < capacity ==> b@[i] == 0u8,
{
    let mut b: Vec<u8> = Vec::new();
    while b.len() < capacity
        invariant
            b@.len() <= capacity,
            forall|i: int| 0 <= i < b@.len() ==> b@[i] == 0u8,
        decreases capacity - b@.len(),
    {
        b.push(0u8);
    }
    b
}

/// The import half of the boundary: reinterpret a transfer buffer according
/// to the length the host reports as written. A report beyond the buffer's
/// capacity signals a host-side contract violation or an oversized value and
/// yields absence; the buffer is never indexed past its end.
pub fn import_buffer(buffer: &Vec<u8>, written: u64) -> (r: Option<String>)
    ensures
        r is None <==> import_spec(buffer@, written as int) is None,
        r matches Some(s) ==> import_spec(buffer@, written as int) == Some(s@),
{
    if written > buffer.len() as u64 {
        return None;
    }
    let slice = slice_subrange(buffer.as_slice(), 0, written as usize);
    assert(slice@ =~= buffer@.take(written as int));
    Some(from_utf8_lossy(slice))
}

/// Round trip across the boundary: when the host echoes exactly the exported
/// bytes of a text into a buffer with capacity to hold them, importing the
/// buffer yields exactly that text — no truncation and no replacement.
pub proof fn lemma_export_import_round_trip(s: Seq<char>, buffer: Seq<u8>)
    requires
        encode_utf8(s).len() <= buffer.len(),
        buffer.take(encode_utf8(s).len() as int) == encode_utf8(s),
    ensures
        import_spec(buffer, encode_utf8(s).len() as int) == Some(s),
{
    broadcast use vstd::utf8::encode_utf8_valid_utf8;
    broadcast use vstd::utf8::encode_utf8_decode_utf8;
}

} // verus!
