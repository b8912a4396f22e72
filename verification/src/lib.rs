//! Guest-side kit for code that runs inside a sandboxed bytecode host.
//!
//! The host offers logging, a structured database query, a key/value store
//! and a completion call through a binary boundary over the guest's memory;
//! the guest also exchanges one JSON request/response envelope with its
//! outer caller per invocation. The modules here hold the boundary
//! protocol: how guest text is exported for a host call, how a host's
//! variable-length output is imported back, how truncation, absence and
//! failure are signaled through integer sentinels, and how the envelope is
//! framed. The host calls themselves, and the process's input and output
//! streams, stay outside; every function here works on the plain values
//! that cross that line.

use vstd::prelude::*;

pub mod ai;
pub mod db;
pub mod json;
pub mod kv;
pub mod logger;
pub mod marshal;

verus! {

use crate::json::envelope_body;
use crate::json::envelope_body_of;
use crate::json::envelope_grammar;
use crate::json::envelope_headers;
use crate::json::envelope_headers_of;
use crate::json::envelope_method;
use crate::json::envelope_method_of;
use crate::json::value_outcome;

/// The inbound envelope: one per invocation, decoded from the input stream
/// and immutable afterwards. Absent headers mean none were supplied, which
/// is distinct from an empty set of them.
#[derive(Debug)]
pub struct Request {
    pub body: String,
    pub headers: Option<Vec<(String, Vec<String>)>>,
    pub method: Option<String>,
}

/// The outbound envelope: one per invocation. The headers are name/value
/// pairs in insertion order with distinct names; they always carry the
/// content-type marker and the runtime-identity marker.
#[derive(Debug)]
pub struct Response {
    pub status: u16,
    pub headers: Vec<(String, Vec<String>)>,
    pub body: String,
}

/// The characters the envelope treats as incidental whitespace around its
/// input: the Unicode white-space set that `str::trim` removes.
pub open spec fn is_space_char(c: char) -> bool {
    ||| c == ' '
    ||| c == '\t'
    ||| c == '\n'
    ||| c == '\u{B}'
    ||| c == '\u{C}'
    ||| c == '\r'
    ||| c == '\u{85}'
    ||| c == '\u{A0}'
    ||| c == '\u{1680}'
    ||| c == '\u{2000}'
    ||| c == '\u{2001}'
    ||| c == '\u{2002}'
    ||| c == '\u{2003}'
    ||| c == '\u{2004}'
    ||| c == '\u{2005}'
    ||| c == '\u{2006}'
    ||| c == '\u{2007}'
    ||| c == '\u{2008}'
    ||| c == '\u{2009}'
    ||| c == '\u{200A}'
    ||| c == '\u{2028}'
    ||| c == '\u{2029}'
    ||| c == '\u{202F}'
    ||| c == '\u{205F}'
    ||| c == '\u{3000}'
}

/// Whether a text is empty or all whitespace, so that trimming it leaves
/// nothing.
pub open spec fn is_blank(s: Seq<char>) -> bool {
    forall|i: int| 0 <= i < s.len() ==> is_space_char(s[i])
}

fn space_char(c: char) -> (r: bool)
    ensures
        r == is_space_char(c),
{
    c == ' ' || c == '\t' || c == '\n' || c == '\u{B}' || c == '\u{C}' || c == '\r' || c
        == '\u{85}' || c == '\u{A0}' || c == '\u{1680}' || c == '\u{2000}' || c == '\u{2001}' || c
        == '\u{2002}' || c == '\u{2003}' || c == '\u{2004}' || c == '\u{2005}' || c == '\u{2006}'
        || c == '\u{2007}' || c == '\u{2008}' || c == '\u{2009}' || c == '\u{200A}' || c
        == '\u{2028}' || c == '\u{2029}' || c == '\u{202F}' || c == '\u{205F}' || c == '\u{3000}'
}

fn check_blank(s: &str) -> (r: bool)
    ensures
        r == is_blank(s@),
{
    let n = s.unicode_len();
    let mut i: usize = 0;
    while i < n
        invariant
            n == s@.len(),
            i <= n,
            forall|j: int| 0 <= j < i ==> is_space_char(s@[j]),
        decreases n - i,
    {
        if !space_char(s.get_char(i)) {
            assert(!is_space_char(s@[i as int]));
            return false;
        }
        i += 1;
    }
    true
}

/// Decode the inbound envelope from the whole input stream's text. Empty
/// or all-whitespace input is not an error: it yields the default request
/// with an empty body and no headers or method, so a guest can be invoked
/// with no structured input at all. Anything else must parse as a JSON
/// envelope — a parse failure carries the underlying diagnostic — and
/// must carry a text `body`; `headers`, if present and not null, must be
/// an object of arrays of texts, and `method` a text. The decoded request
/// carries exactly those fields.
pub fn read_input(input: &str) -> (r: Result<Request, String>)
    ensures
        is_blank(input@) ==> (r matches Ok(req) && req.body@.len() == 0 && req.headers is None
            && req.method is None),
        !is_blank(input@) && value_outcome(input@) is Some ==> (r matches Err(e) && e@
            == value_outcome(input@)->0),
        !is_blank(input@) && value_outcome(input@) is None ==> (r is Ok <==> envelope_body(input@)
            is Some && envelope_method(input@) is Some && envelope_headers(input@) is Some),
        !is_blank(input@) && value_outcome(input@) is None ==> (r matches Ok(req) ==> (req.body@
            == envelope_body(input@)->0 && req.method.deep_view() == envelope_method(input@)->0
            && req.headers.deep_view() == envelope_headers(input@)->0)),
{
    if check_blank(input) {
        return Ok(Request { body: String::new(), headers: None, method: None });
    }
    if let Err(d) = envelope_grammar(input) {
        return Err(d);
    }
    let body = match envelope_body_of(input) {
        None => {
            return Err("envelope needs a text body field".to_owned());
        },
        Some(b) => b,
    };
    let method = match envelope_method_of(input) {
        None => {
            return Err("envelope method must be text".to_owned());
        },
        Some(m) => m,
    };
    let headers = match envelope_headers_of(input) {
        None => {
            return Err("envelope headers must be an object of text arrays".to_owned());
        },
        Some(h) => h,
    };
    Ok(Request { body, headers, method })
}

/// Build the outbound envelope for one status and body. The headers are
/// exactly the two injected markers: the content type, fixed to the JSON
/// media type, and the runtime identity of this kit.
pub fn send_response(status: u16, body: String) -> (r: Response)
    ensures
        r.status == status,
        r.body@ == body@,
        r.headers@.len() == 2,
        r.headers@[0].0@ == "Content-Type"@,
        r.headers@[0].1@.len() == 1,
        r.headers@[0].1@[0]@ == "application/json"@,
        r.headers@[1].0@ == "X-Runtime"@,
        r.headers@[1].1@.len() == 1,
        r.headers@[1].1@[0]@ == "Gojinn-Rust"@,
{
    let mut headers: Vec<(String, Vec<String>)> = Vec::new();
    let mut content_type: Vec<String> = Vec::new();
    content_type.push("application/json".to_owned());
    headers.push(("Content-Type".to_owned(), content_type));
    let mut runtime: Vec<String> = Vec::new();
    runtime.push("Gojinn-Rust".to_owned());
    headers.push(("X-Runtime".to_owned(), runtime));
    Response { status, headers, body }
}

} // verus!
