//! The one call into the csv crate: splitting CSV text into rows of fields.
use vstd::prelude::*;

verus! {

#[verifier::external_type_specification]
#[verifier::external_body]
pub struct ExCsvError(csv::Error);

/// The rows of fields that CSV text holds, header row first, or `None` where
/// the csv crate refuses the text (for one, a row whose field count differs
/// from the first row's).
pub uninterp spec fn csv_table(text: Seq<char>) -> Option<Seq<Seq<Seq<char>>>>;

/// The rows of a table as plain character sequences.
pub open spec fn rows_view(rows: Seq<Vec<String>>) -> Seq<Seq<Seq<char>>> {
    Seq::new(rows.len(), |i: int| Seq::new(rows[i]@.len(), |j: int| rows[i]@[j]@))
}

/// Relies on csv::ReaderBuilder (header handling off, so that the header row
/// comes back as the first record; equal field counts enforced, the default)
/// and on csv::Reader::records: every record of `text`, in order, or the
/// error that stopped the reading.
#[verifier::external_body]
pub(crate) fn read_csv_rows(text: &str) -> (r: Result<Vec<Vec<String>>, csv::Error>)
    ensures
        match r {
            Ok(rows) => csv_table(text@) == Some(rows_view(rows@)),
            Err(_) => csv_table(text@) is None,
        },
{
    let mut reader = csv::ReaderBuilder::new().has_headers(false).from_reader(text.as_bytes());
    reader.records().map(|rec| rec.map(|row| row.iter().map(String::from).collect())).collect()
}

} // verus!
