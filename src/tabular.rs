use vstd::prelude::*;

use crate::projection::{table_view, uniform};

verus! {

/// What the delimited-text reader makes of a body: every record, the header
/// first, as the texts of its fields; `None` where the body is malformed.
pub uninterp spec fn csv_records(body: Seq<u8>) -> Option<Seq<Seq<Seq<char>>>>;

/// The delimited text that the writer produces for a table of records.
pub uninterp spec fn csv_text(table: Seq<Seq<Seq<char>>>) -> Seq<char>;

/// Relies on csv::ReaderBuilder and Reader::records with the default
/// settings, the header read as an ordinary first record: reading from memory
/// yields every record in order, or fails on a malformed body, as the bytes
/// alone decide. The reader is not flexible: a record whose field count
/// differs from the first record's is an error, so what it yields is uniform.
#[verifier::external_body]
pub(crate) fn read_records(body: &[u8]) -> (r: Result<Vec<Vec<String>>, String>)
    ensures
        r matches Ok(t) ==> csv_records(body@) == Some(table_view(t@)),
        r matches Ok(t) ==> uniform(table_view(t@)),
        r is Err ==> csv_records(body@) is None,
{
    csv::ReaderBuilder::new()
        .has_headers(false)
        .from_reader(body)
        .records()
        .map(|rec| rec.map(|fields| fields.iter().map(String::from).collect()))
        .collect::<Result<Vec<Vec<String>>, csv::Error>>()
        .map_err(|e| e.to_string())
}

/// Relies on csv::Writer with the default settings, writing each record in
/// turn into memory; the bytes it produced are then taken as UTF-8 text.
/// Writing into a `Vec` does no failing I/O, the writer's one other error is
/// a record whose field count differs from the first record's, and fields
/// that are text joined by ASCII quotes, delimiters and line ends stay text:
/// so a uniform table is always written.
#[verifier::external_body]
pub(crate) fn write_records(table: &Vec<Vec<String>>) -> (r: Result<String, String>)
    ensures
        r matches Ok(s) ==> s@ == csv_text(table_view(table@)),
        uniform(table_view(table@)) ==> r is Ok,
{
    let mut wtr = csv::Writer::from_writer(Vec::new());
    for record in table.iter() {
        wtr.write_record(record).map_err(|e| e.to_string())?;
    }
    let bytes = wtr.into_inner().map_err(|e| e.to_string())?;
    String::from_utf8(bytes).map_err(|e| e.to_string())
}

} // verus!
