//! Database capability: a one-shot structured query across the host
//! boundary.
//!
//! The guest hands the host the SQL text and a transfer buffer; the host
//! answers with a written-byte count. Zero is the failure sentinel, and a
//! count past the buffer's capacity is a boundary violation treated the
//! same way, never a read past the buffer; any other count frames a JSON
//! array of row objects in the buffer. The host smuggles domain failures
//! inside that success channel: a first row that carries an `"error"`
//! field is a failed call, not a one-row result, and this module — not the
//! host's return code — must tell the two apart.

use vstd::prelude::*;

verus! {

use crate::json::first_error_of;
use crate::json::parse_rows;
use crate::json::rows_outcome;
use vstd::slice::slice_subrange;

/// Capacity of the transfer buffer for one query's response. It is a hard
/// ceiling: the host truncates a larger response when writing, and the
/// parse then fails on the truncated JSON rather than yielding partial
/// rows.
pub const QUERY_BUFFER_LEN: usize = 65536;

/// How one query fails.
#[derive(Debug, PartialEq, Eq)]
pub enum DbError {
    /// The host reported zero bytes written, or a count past the transfer
    /// buffer's capacity.
    EmptyOrFailedQuery,
    /// The written bytes did not parse as a JSON array; carries the parse
    /// diagnostic.
    MalformedResponse(String),
    /// The first row carried an `"error"` field; carries that field's text,
    /// or a generic fallback where the field was no text.
    DatabaseError(String),
}

/// The text reported for a first row whose `"error"` field held `marker`:
/// the field's own text, or the generic fallback where the field was
/// present but no text.
pub fn error_report(marker: Option<String>) -> (r: String)
    ensures
        marker matches Some(m) ==> r == m,
        marker is None ==> r@ == "Unknown DB Error"@,
{
    match marker {
        Some(m) => m,
        None => "Unknown DB Error".to_owned(),
    }
}

/// Interpret the host's answer to one query: the buffer the host wrote
/// into and the byte count it reported. Zero bytes is the failure
/// sentinel, a count past the buffer's capacity is treated as the same
/// failure, the written slice must frame a JSON array, and a first element
/// carrying an `"error"` field turns the whole call into a reported
/// failure. Every element of a clean result is returned, including the one
/// inspected for the marker.
pub fn query(written: u32, buffer: &Vec<u8>) -> (r: Result<Vec<serde_json::Value>, DbError>)
    ensures
        written == 0 || written > buffer@.len() <==> (r matches Err(e)
            && e is EmptyOrFailedQuery),
        0 < written <= buffer@.len() && rows_outcome(buffer@.take(written as int)) is Err ==> (
        r matches Err(e) && e matches DbError::MalformedResponse(m) && m@ == rows_outcome(
            buffer@.take(written as int),
        )->Err_0),
        0 < written <= buffer@.len() && rows_outcome(buffer@.take(written as int)) is Ok ==> ((
        r is Ok <==> first_error_of(buffer@.take(written as int)) is None) && (r matches Ok(rows)
            ==> rows@.len() == rows_outcome(buffer@.take(written as int))->Ok_0)),
        first_error_of(buffer@.take(written as int)) matches Some(marker) ==> (0 < written
            <= buffer@.len() && rows_outcome(buffer@.take(written as int)) is Ok ==> (r matches
        Err(e) && e matches DbError::DatabaseError(d) && (match marker {
            Some(m) => d@ == m,
            None => d@ == "Unknown DB Error"@,
        }))),
{
    if written == 0 {
        return Err(DbError::EmptyOrFailedQuery);
    }
    if written as usize > buffer.len() {
        return Err(DbError::EmptyOrFailedQuery);
    }
    let slice = slice_subrange(buffer.as_slice(), 0, written as usize);
    assert(slice@ =~= buffer@.take(written as int));
    match parse_rows(slice) {
        Err(d) => Err(DbError::MalformedResponse(d)),
        Ok((rows, marker)) => match marker {
            None => Ok(rows),
            Some(field) => Err(DbError::DatabaseError(error_report(field))),
        },
    }
}

} // verus!
