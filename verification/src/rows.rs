//! Delimited record files, read and written by the `csv` crate.
//!
//! A file is a sequence of rows. A row that the reader can decode is a list
//! of text fields; a row that it cannot decode is kept as a malformed row, so
//! that each store can decide what a malformed row means for it.

use vstd::prelude::*;
use crate::text::texts;

verus! {

/// The rows that `csv::Reader::records` yields for `data`, in order, when the
/// reader is built with the given field delimiter, without a header row and
/// with rows of any number of fields allowed. A row that the reader reports
/// as an error stands as `None`.
pub uninterp spec fn csv_rows(data: Seq<u8>, delimiter: u8) -> Seq<Option<Seq<Seq<char>>>>;

/// The bytes that `csv::Writer::write_record` writes for one record of the
/// given fields, terminator included, when the writer is built with the given
/// field delimiter.
pub uninterp spec fn csv_line(fields: Seq<Seq<char>>, delimiter: u8) -> Seq<u8>;

/// The view of one row.
pub open spec fn row_view(row: Option<Vec<String>>) -> Option<Seq<Seq<char>>> {
    match row {
        Some(fields) => Some(texts(fields@)),
        None => None,
    }
}

/// The view of a list of rows.
pub open spec fn rows_view(rows: Seq<Option<Vec<String>>>) -> Seq<Option<Seq<Seq<char>>>> {
    rows.map_values(|row: Option<Vec<String>>| row_view(row))
}

/// Decodes `data` with `csv::Reader`: the delimiter is set, the first row is
/// data like every other, and rows may differ in their number of fields.
/// The contract names the outcome of `Reader::records`; a row for which the
/// reader returns an error (bytes that are not UTF-8) comes back as `None`,
/// and reading goes on with the row after it.
#[verifier::external_body]
pub(crate) fn read_rows(data: &[u8], delimiter: u8) -> (rows: Vec<Option<Vec<String>>>)
    ensures
        rows_view(rows@) == csv_rows(data@, delimiter),
{
    let mut reader = csv::ReaderBuilder::new()
        .delimiter(delimiter)
        .has_headers(false)
        .flexible(true)
        .from_reader(data);
    reader.records().map(|row| row.ok().map(|r| r.iter().map(String::from).collect())).collect()
}

/// Encodes one record with `csv::Writer::write_record` into a buffer in
/// memory. The contract names the bytes written. Writing one record into
/// memory cannot fail: the writer's only errors are those of the sink and a
/// change of the field count between records.
#[verifier::external_body]
pub(crate) fn write_row(fields: &Vec<String>, delimiter: u8) -> (line: Vec<u8>)
    ensures
        line@ == csv_line(texts(fields@), delimiter),
{
    let mut writer = csv::WriterBuilder::new().delimiter(delimiter).from_writer(Vec::new());
    let _ = writer.write_record(fields);
    writer.into_inner().unwrap_or_default()
}

} // verus!
