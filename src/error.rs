use vstd::prelude::*;

verus! {

/// Why an invocation failed. Every kind is fatal for the invocation.
#[derive(Debug, PartialEq, Eq)]
pub enum HandlerError {
    /// The dataset source answered with a status outside 200..=399.
    Status(u16),
    /// The fetched body is not a well-formed delimited document; the
    /// parser's message is kept.
    Parse(String),
    /// The record at this position (0 is the header) has fewer fields than
    /// the projection reads, or the document has no header at all.
    RowTooShort(usize),
    /// The projected document could not be written out as text; the
    /// writer's message is kept.
    Encoding(String),
}

} // verus!
