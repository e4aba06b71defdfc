use vstd::prelude::*;

use crate::error::HandlerError;

verus! {

/// Every record must hold at least this many fields: the highest kept position is 17.
pub const MIN_FIELDS: usize = 18;

/// Number of fields in every projected record.
pub const OUTPUT_FIELDS: usize = 9;

/// The positions (0-based) that a projected record keeps, in output order.
pub open spec fn source_columns() -> Seq<int> {
    seq![1, 2, 4, 5, 10, 11, 14, 15, 17]
}

/// The projection of one record, field by field.
pub open spec fn projected(record: Seq<Seq<char>>) -> Seq<Seq<char>> {
    source_columns().map_values(|c: int| record[c])
}

/// The text of each field of a record.
pub open spec fn record_view(record: Seq<String>) -> Seq<Seq<char>> {
    record.map_values(|s: String| s@)
}

/// Builds the record that holds exactly the fields at the positions of
/// `source_columns`, in that order.
pub fn select(from: &Vec<String>) -> (r: Vec<String>)
    requires
        from@.len() >= MIN_FIELDS,
    ensures
        record_view(r@) == projected(record_view(from@)),
        r@.len() == OUTPUT_FIELDS,
{
    let r = vec![
        from[1].clone(),
        from[2].clone(),
        from[4].clone(),
        from[5].clone(),
        from[10].clone(),
        from[11].clone(),
        from[14].clone(),
        from[15].clone(),
        from[17].clone(),
    ];
    assert(record_view(r@) =~= projected(record_view(from@)));
    r
}

/// The text of each field of each record of a table.
pub open spec fn table_view(table: Seq<Vec<String>>) -> Seq<Seq<Seq<char>>> {
    table.map_values(|r: Vec<String>| record_view(r@))
}

/// Every record of the table has as many fields as the first.
pub open spec fn uniform(table: Seq<Seq<Seq<char>>>) -> bool {
    forall|i: int| 0 <= i < table.len() ==> #[trigger] table[i].len() == table[0].len()
}

/// Every record of the table is long enough to be projected.
pub open spec fn all_projectable(table: Seq<Seq<Seq<char>>>) -> bool {
    forall|i: int| 0 <= i < table.len() ==> table[i].len() >= MIN_FIELDS
}

/// A table can be projected: it has a header and no record is too short.
pub open spec fn projectable(table: Seq<Seq<Seq<char>>>) -> bool {
    table.len() > 0 && all_projectable(table)
}

/// `i` is the position that a failed projection reports: the first record
/// that is too short, or 0 for a table without a header.
pub open spec fn first_short_record(table: Seq<Seq<Seq<char>>>, i: int) -> bool {
    if table.len() == 0 {
        i == 0
    } else {
        &&& 0 <= i < table.len()
        &&& table[i].len() < MIN_FIELDS
        &&& all_projectable(table.take(i))
    }
}

/// The projection of every record, in the same order.
pub open spec fn project_table(table: Seq<Seq<Seq<char>>>) -> Seq<Seq<Seq<char>>> {
    table.map_values(|r: Seq<Seq<char>>| projected(r))
}

/// Projects the header (the first record) and every data record, in order.
/// Fails, with the position of the offending record, when the table is empty
/// or a record is too short: no record is skipped or padded.
pub fn project_rows(table: &Vec<Vec<String>>) -> (r: Result<Vec<Vec<String>>, HandlerError>)
    ensures
        r is Ok <==> projectable(table_view(table@)),
        r matches Ok(out) ==> table_view(out@) == project_table(table_view(table@)),
        r matches Ok(out) ==> out@.len() == table@.len(),
        r matches Ok(out) ==> uniform(table_view(out@)),
        r matches Err(e) ==> (e matches HandlerError::RowTooShort(i) && first_short_record(
            table_view(table@),
            i as int,
        )),
{
    if table.len() == 0 {
        return Err(HandlerError::RowTooShort(0));
    }
    let mut out: Vec<Vec<String>> = Vec::new();
    let mut i: usize = 0;
    while i < table.len()
        invariant
            i <= table@.len(),
            out@.len() == i,
            all_projectable(table_view(table@).take(i as int)),
            forall|k: int| 0 <= k < i ==> record_view(out@[k]@) == projected(record_view(table@[k]@)),
        decreases table@.len() - i,
    {
        if table[i].len() < MIN_FIELDS {
            assert(table_view(table@)[i as int].len() < MIN_FIELDS);
            return Err(HandlerError::RowTooShort(i));
        }
        let row = select(&table[i]);
        out.push(row);
        i = i + 1;
        assert(all_projectable(table_view(table@).take(i as int))) by {
            assert forall|k: int| 0 <= k < i implies table_view(table@).take(i as int)[k].len() >= MIN_FIELDS by {
                if k < i - 1 {
                    assert(table_view(table@).take(i as int)[k] == table_view(table@).take(i - 1)[k]);
                }
            }
        }
    }
    assert(table_view(table@).take(i as int) =~= table_view(table@));
    assert(table_view(out@) =~= project_table(table_view(table@)));
    proof {
        lemma_projected_table_uniform(table_view(table@));
    }
    Ok(out)
}

/// A projectable record gives exactly `OUTPUT_FIELDS` fields, each copied
/// unchanged from the position that `source_columns` lists at its place.
pub proof fn lemma_projected_fields(record: Seq<Seq<char>>)
    requires
        record.len() >= MIN_FIELDS,
    ensures
        projected(record).len() == OUTPUT_FIELDS,
        forall|k: int| 0 <= k < OUTPUT_FIELDS ==> 0 <= #[trigger] source_columns()[k] < record.len()
            && projected(record)[k] == record[source_columns()[k]],
        projected(record) == seq![record[1], record[2], record[4], record[5], record[10],
            record[11], record[14], record[15], record[17]],
{
    assert(projected(record) =~= seq![record[1], record[2], record[4], record[5], record[10],
        record[11], record[14], record[15], record[17]]);
}

/// Projecting a table keeps the number of records and their order: the
/// record at each position is the projection of the record at that position.
pub proof fn lemma_rows_kept_in_order(table: Seq<Seq<Seq<char>>>)
    ensures
        project_table(table).len() == table.len(),
        forall|i: int| 0 <= i < table.len() ==> #[trigger] project_table(table)[i] == projected(table[i]),
{
}

/// The projection of a projectable table has `OUTPUT_FIELDS` fields in
/// every record, so its records all have the same length.
pub proof fn lemma_projected_table_uniform(table: Seq<Seq<Seq<char>>>)
    requires
        projectable(table),
    ensures
        uniform(project_table(table)),
        forall|i: int| 0 <= i < table.len() ==> (#[trigger] project_table(table)[i]).len() == OUTPUT_FIELDS,
{
    assert forall|i: int| 0 <= i < table.len() implies (#[trigger] project_table(table)[i]).len() == OUTPUT_FIELDS by {
        lemma_projected_fields(table[i]);
    }
}

/// A table with a record shorter than `MIN_FIELDS` cannot be projected.
pub proof fn lemma_short_record_blocks(table: Seq<Seq<Seq<char>>>, i: int)
    requires
        0 <= i < table.len(),
        table[i].len() < MIN_FIELDS,
    ensures
        !projectable(table),
{
}

} // verus!
