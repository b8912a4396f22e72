//! Trusted boundary to the JSON library.
//!
//! Host query output and the inbound envelope are JSON; decoding them is
//! the JSON library's work. Parsing is a function of the input alone, so
//! each outcome the contracts need — whether a text or byte sequence
//! parses, and what the protocol-relevant fields of the decoded document
//! are — is given a name here and tied to the input by a trusted item.
//! A decoded `serde_json::Value` itself stays opaque to the verifier and
//! is only carried through; every decision taken on the named outcomes
//! stands in verified code of the callers.

use vstd::prelude::*;

verus! {

#[verifier::external_type_specification]
#[verifier::external_body]
pub struct ExValue(serde_json::Value);

/// What parsing a byte sequence as a JSON array of values comes to; it
/// depends on the bytes alone. `Ok` carries the number of elements, `Err`
/// the parse diagnostic.
pub uninterp spec fn rows_outcome(bytes: Seq<u8>) -> Result<int, Seq<char>>;

/// The error marker of a JSON array's first element, as a function of the
/// bytes the array was parsed from: absent when the array is empty or its
/// first element has no `"error"` field; `Some(None)` when that field is
/// present but no text; `Some(Some(m))` when it is the text `m`.
pub uninterp spec fn first_error_of(bytes: Seq<u8>) -> Option<Option<Seq<char>>>;

/// Relies on `serde_json::from_slice`, asked for a `Vec` of values, and on
/// `Value::get` and `Value::as_str` applied to the first element: the bytes
/// parse as a JSON array or yield a diagnostic (named `rows_outcome`), and
/// the first element's `"error"` field is handed out as plain text (named
/// `first_error_of`).
#[verifier::external_body]
pub(crate) fn parse_rows(bytes: &[u8]) -> (r: Result<
    (Vec<serde_json::Value>, Option<Option<String>>),
    String,
>)
    ensures
        r matches Ok(p) ==> rows_outcome(bytes@) matches Ok(n) && p.0@.len() == n
            && p.1.deep_view() == first_error_of(bytes@),
        r matches Err(d) ==> rows_outcome(bytes@) matches Err(m) && d@ == m,
{
    match serde_json::from_slice::<Vec<serde_json::Value>>(bytes) {
        Ok(rows) => {
            let marker = rows.first().and_then(|f| f.get("error")).map(|e| {
                e.as_str().map(|s| s.to_string())
            });
            Ok((rows, marker))
        },
        Err(e) => Err(e.to_string()),
    }
}

/// Whether a text parses as one JSON value; it depends on the text alone.
/// `Some` carries the parse diagnostic, `None` says the text parses.
pub uninterp spec fn value_outcome(text: Seq<char>) -> Option<Seq<char>>;

/// Relies on `serde_json::from_str`, asked for one value: the text parses
/// as JSON or yields a diagnostic (outcome named by `value_outcome`).
#[verifier::external_body]
pub(crate) fn envelope_grammar(text: &str) -> (r: Result<(), String>)
    ensures
        r is Ok <==> value_outcome(text@) is None,
        r matches Err(d) ==> value_outcome(text@) matches Some(m) && d@ == m,
{
    match serde_json::from_str::<serde_json::Value>(text) {
        Ok(_) => Ok(()),
        Err(e) => Err(e.to_string()),
    }
}

/// The envelope's `body` field as a function of the envelope text: the
/// field's text where the text parses as a JSON object carrying a string
/// `"body"` member, absent in every other case.
pub uninterp spec fn envelope_body(text: Seq<char>) -> Option<Seq<char>>;

/// Relies on `serde_json::from_str`, `Value::get` and `Value::as_str`: the
/// parse is a function of the text alone, so the `body` field's text is
/// too (named `envelope_body`).
#[verifier::external_body]
pub(crate) fn envelope_body_of(text: &str) -> (r: Option<String>)
    ensures
        r.deep_view() == envelope_body(text@),
{
    serde_json::from_str::<serde_json::Value>(text).ok().and_then(|v| {
        v.get("body").and_then(|b| b.as_str().map(|s| s.to_string()))
    })
}

/// The envelope's `method` field as a function of the envelope text:
/// absent where the field is no text and not null; `Some(None)` where the
/// envelope is a JSON object without the field or with it null;
/// `Some(Some(m))` where the field is the text `m`.
pub uninterp spec fn envelope_method(text: Seq<char>) -> Option<Option<Seq<char>>>;

/// Relies on `serde_json::from_str`, `Value::get`, `Value::is_null` and
/// `Value::as_str`: the `method` field's shape and text are functions of
/// the text alone (named `envelope_method`).
#[verifier::external_body]
pub(crate) fn envelope_method_of(text: &str) -> (r: Option<Option<String>>)
    ensures
        r.deep_view() == envelope_method(text@),
{
    let v = match serde_json::from_str::<serde_json::Value>(text) {
        Ok(v) => v,
        Err(_) => return None,
    };
    match v.get("method") {
        None => Some(None),
        Some(m) if m.is_null() => Some(None),
        Some(m) => m.as_str().map(|s| Some(s.to_string())),
    }
}

/// The envelope's `headers` field as a function of the envelope text:
/// absent where the field is present but no object of arrays of texts;
/// `Some(None)` where the envelope is a JSON object without the field or
/// with it null; `Some(Some(hs))` where it is such an object, as its
/// name/values entries in the decoded object's order.
pub uninterp spec fn envelope_headers(text: Seq<char>) -> Option<
    Option<Seq<(Seq<char>, Seq<Seq<char>>)>>,
>;

/// Relies on `serde_json::from_str`, `Value::get`, `Value::is_null`,
/// `Value::as_object`, `Value::as_array` and `Value::as_str`: the `headers`
/// field's shape and entries are functions of the text alone (named
/// `envelope_headers`).
#[verifier::external_body]
pub(crate) fn envelope_headers_of(text: &str) -> (r: Option<Option<Vec<(String, Vec<String>)>>>)
    ensures
        r.deep_view() == envelope_headers(text@),
{
    let v = match serde_json::from_str::<serde_json::Value>(text) {
        Ok(v) => v,
        Err(_) => return None,
    };
    match v.get("headers") {
        None => Some(None),
        Some(h) if h.is_null() => Some(None),
        Some(h) => h.as_object().and_then(|m| {
            m.iter().map(|(k, vals)| {
                vals.as_array().and_then(|a| a.iter().map(|x| x.as_str().map(|s| s.to_string())).collect::<Option<Vec<String>>>()).map(|texts| (k.clone(), texts))
            }).collect::<Option<Vec<(String, Vec<String>)>>>()
        }).map(Some),
    }
}

} // verus!
