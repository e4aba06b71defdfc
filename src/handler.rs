use vstd::prelude::*;

use crate::error::HandlerError;
use crate::projection::{all_projectable, first_short_record, uniform, MIN_FIELDS, project_rows, project_table, projectable};
use crate::tabular::{csv_records, csv_text, read_records, write_records};

verus! {

/// The response of a successful invocation.
pub struct Envelope {
    pub status_code: u16,
    /// Header names and values; the handler sets none.
    pub headers: Vec<(String, String)>,
    pub body: String,
    pub is_base64_encoded: bool,
}

/// A fetch status that lets the invocation go on: 2xx and 3xx.
pub open spec fn status_accepted(status: u16) -> bool {
    200 <= status <= 399
}

/// What projecting a fetched body must give: a parse failure for a malformed
/// body (records of unequal length included), the first short record for a
/// body that cannot be projected, and otherwise the written projection.
pub open spec fn document_result(body: Seq<u8>, r: Result<String, HandlerError>) -> bool {
    match csv_records(body) {
        None => r matches Err(HandlerError::Parse(_)),
        Some(t) => uniform(t) && if !projectable(t) {
            r matches Err(HandlerError::RowTooShort(i)) && first_short_record(t, i as int)
        } else {
            r matches Ok(s) && s@ == csv_text(project_table(t))
        },
    }
}

/// Fails on a fetch status other than 2xx or 3xx.
pub fn check_status(status: u16) -> (r: Result<(), HandlerError>)
    ensures
        r is Ok <==> status_accepted(status),
        r is Err ==> r == Err::<(), HandlerError>(HandlerError::Status(status)),
{
    if 200 <= status && status <= 399 {
        Ok(())
    } else {
        Err(HandlerError::Status(status))
    }
}

/// Parses a fetched body, projects its header and every data record, and
/// writes the projected records out as a new delimited document.
pub fn project_document(body: &[u8]) -> (r: Result<String, HandlerError>)
    ensures
        document_result(body@, r),
{
    let table = match read_records(body) {
        Ok(t) => t,
        Err(msg) => return Err(HandlerError::Parse(msg)),
    };
    let out = match project_rows(&table) {
        Ok(o) => o,
        Err(e) => return Err(e),
    };
    match write_records(&out) {
        Ok(s) => Ok(s),
        Err(msg) => Err(HandlerError::Encoding(msg)),
    }
}

/// Wraps a document in a response: status 200, no headers, a text body that
/// is not base64-encoded.
pub fn envelope(body: String) -> (r: Envelope)
    ensures
        r.status_code == 200,
        r.headers@.len() == 0,
        r.body@ == body@,
        !r.is_base64_encoded,
{
    Envelope { status_code: 200, headers: Vec::new(), body, is_base64_encoded: false }
}

/// One invocation, from the status and body of the fetch to the response:
/// a rejected status fails at once, anything else is projected and wrapped.
pub fn handle(status: u16, body: &[u8]) -> (r: Result<Envelope, HandlerError>)
    ensures
        !status_accepted(status) ==> r == Err::<Envelope, HandlerError>(
            HandlerError::Status(status),
        ),
        status_accepted(status) ==> (r matches Ok(env) ==> document_result(body@, Ok(env.body))),
        status_accepted(status) ==> (r matches Err(e) ==> document_result(body@, Err(e))),
        status_accepted(status) ==> (csv_records(body@) matches Some(t) ==> (projectable(t) ==> (
        r matches Ok(env) && env.body@ == csv_text(project_table(t))))),
        r matches Ok(env) ==> env.status_code == 200 && env.headers@.len() == 0
            && !env.is_base64_encoded,
{
    match check_status(status) {
        Ok(()) => {},
        Err(e) => return Err(e),
    }
    match project_document(body) {
        Ok(text) => Ok(envelope(text)),
        Err(e) => Err(e),
    }
}

/// A body with a record shorter than `MIN_FIELDS` makes projection fail:
/// nothing truncated or partly projected comes back.
pub proof fn lemma_short_record_fails(body: Seq<u8>, r: Result<String, HandlerError>, i: int)
    requires
        document_result(body, r),
        csv_records(body) is Some,
        0 <= i < csv_records(body)->Some_0.len(),
        csv_records(body)->Some_0[i].len() < MIN_FIELDS,
    ensures
        r matches Err(HandlerError::RowTooShort(j)) && j <= i,
{
    let t = csv_records(body)->Some_0;
    assert(!all_projectable(t));
    if let Err(HandlerError::RowTooShort(j)) = r {
        if j > i {
            assert(t.take(j as int)[i] == t[i]);
        }
    }
}

/// A body that the reader rejects fails at the parse stage, never with an
/// empty document.
pub proof fn lemma_malformed_body_fails(body: Seq<u8>, r: Result<String, HandlerError>)
    requires
        document_result(body, r),
        csv_records(body) is None,
    ensures
        r matches Err(HandlerError::Parse(_)),
{
}

/// The outcome depends on the body alone: two projections of one body both
/// succeed with the same text, or both fail.
pub proof fn lemma_same_body_same_outcome(
    body: Seq<u8>,
    r1: Result<String, HandlerError>,
    r2: Result<String, HandlerError>,
)
    requires
        document_result(body, r1),
        document_result(body, r2),
    ensures
        r1 is Ok <==> r2 is Ok,
        r1 matches Ok(s1) ==> (r2 matches Ok(s2) && s1@ == s2@),
{
}

/// A body that the reader accepts has records of one length: a record
/// longer or shorter than the header never reaches the projection.
pub proof fn lemma_accepted_body_uniform(body: Seq<u8>, r: Result<String, HandlerError>)
    requires
        document_result(body, r),
        csv_records(body) is Some,
    ensures
        uniform(csv_records(body)->Some_0),
{
}

/// A fetch answered with a server or client error status fails the
/// invocation: no response is produced.
pub proof fn lemma_error_status_fails(status: u16)
    requires
        400 <= status,
    ensures
        !status_accepted(status),
{
}

} // verus!
