//! Writing a table out: each row as one line of delimited text, the lines
//! joined, and the whole compressed.

use std::io::Write;
use vstd::prelude::*;
use vstd::string::*;
use crate::export::{
    bests_rows, bests_table, history_rows_of, history_table, table_text, BestRecord, ChartInfo,
    HistoryRecord,
};
use crate::normalize::texts;

verus! {

/// The byte that separates the fields of a row: a tab.
pub const DELIMITER: u8 = 9;

/// The level at which exports are compressed.
pub const COMPRESSION_LEVEL: u32 = 6;

/// The bytes that the csv crate writes for one record under a delimiter:
/// the fields, quoted where they need it, the delimiter between them and
/// the line end after them. `None` where the writer reports an error.
pub uninterp spec fn csv_record(fields: Seq<Seq<char>>, delimiter: u8) -> Option<Seq<u8>>;

/// What flate2 makes of a run of bytes at a compression level: the gzip
/// stream, header and trailer included. `None` where the encoder reports an
/// error.
pub uninterp spec fn gzipped(bytes: Seq<u8>, level: u32) -> Option<Seq<u8>>;

/// The bytes of an optional buffer.
pub open spec fn bytes_view(b: Option<Vec<u8>>) -> Option<Seq<u8>> {
    match b {
        Some(v) => Some(v@),
        None => None,
    }
}

/// Builds a `csv::Writer` over an empty buffer with the given delimiter,
/// writes the fields with `write_record` and takes the buffer back with
/// `into_inner`. What is written depends on the fields and the delimiter
/// alone, and the contract names it [`csv_record`]; an error of the writer
/// comes back as `None`.
#[verifier::external_body]
fn csv_line(fields: &Vec<String>, delimiter: u8) -> (r: Option<Vec<u8>>)
    ensures
        bytes_view(r) == csv_record(texts(fields@), delimiter),
{
    let mut writer = csv::WriterBuilder::new().delimiter(delimiter).from_writer(Vec::new());
    match writer.write_record(fields) {
        Ok(()) => writer.into_inner().ok(),
        Err(_) => None,
    }
}

/// Runs the bytes through a `flate2::write::GzEncoder` over an empty
/// buffer and takes the buffer back with `finish`. The stream carries no
/// time and no file name, so it depends on the bytes and the level alone,
/// and the contract names it [`gzipped`]; an error of the encoder comes back
/// as `None`. Levels above 9 are left out: the encoder is not made for them.
#[verifier::external_body]
fn gzip(bytes: &Vec<u8>, level: u32) -> (r: Option<Vec<u8>>)
    requires
        level <= 9,
    ensures
        bytes_view(r) == gzipped(bytes@, level),
{
    let mut encoder = flate2::write::GzEncoder::new(Vec::new(), flate2::Compression::new(level));
    match encoder.write_all(bytes) {
        Ok(()) => encoder.finish().ok(),
        Err(_) => None,
    }
}

/// The first `n` rows as delimited text: the lines of the rows one after
/// the other. `None` where a row cannot be written.
pub open spec fn lines_of(rows: Seq<Seq<Seq<char>>>, n: int) -> Option<Seq<u8>>
    decreases n,
{
    if n <= 0 {
        Some(Seq::empty())
    } else {
        match (lines_of(rows, n - 1), csv_record(rows[n - 1], DELIMITER)) {
            (Some(before), Some(line)) => Some(before + line),
            _ => None,
        }
    }
}

/// A table as compressed tab-separated text.
pub open spec fn archive_of(rows: Seq<Seq<Seq<char>>>) -> Option<Seq<u8>> {
    match lines_of(rows, rows.len() as int) {
        Some(text) => gzipped(text, COMPRESSION_LEVEL),
        None => None,
    }
}

/// Adds one written line to the text so far; a line that could not be
/// written spoils the whole.
pub fn join_line(text: Option<Vec<u8>>, line: Option<Vec<u8>>) -> (r: Option<Vec<u8>>)
    ensures
        bytes_view(r) == match (bytes_view(text), bytes_view(line)) {
            (Some(before), Some(l)) => Some(before + l),
            _ => None,
        },
{
    match (text, line) {
        (Some(mut before), Some(l)) => {
            let ghost start = before@;
            let mut i: usize = 0;
            while i < l.len()
                invariant
                    i <= l.len(),
                    before@ == start + l@.take(i as int),
                decreases l.len() - i,
            {
                before.push(l[i]);
                assert(before@ =~= start + l@.take(i + 1));
                i = i + 1;
            }
            assert(l@.take(l.len() as int) =~= l@);
            Some(before)
        },
        _ => None,
    }
}

/// Writes a table as tab-separated text, one line for each row.
pub fn write_table(rows: &Vec<Vec<String>>) -> (r: Option<Vec<u8>>)
    ensures
        bytes_view(r) == lines_of(table_text(rows@), rows.len() as int),
{
    let mut text: Option<Vec<u8>> = Some(Vec::new());
    let mut k: usize = 0;
    while k < rows.len()
        invariant
            k <= rows.len(),
            bytes_view(text) == lines_of(table_text(rows@), k as int),
        decreases rows.len() - k,
    {
        let line = csv_line(&rows[k], DELIMITER);
        text = join_line(text, line);
        k = k + 1;
    }
    text
}

/// Compresses a table written as text.
pub fn compress(text: Option<Vec<u8>>) -> (r: Option<Vec<u8>>)
    ensures
        bytes_view(r) == match bytes_view(text) {
            Some(t) => gzipped(t, COMPRESSION_LEVEL),
            None => None,
        },
{
    match text {
        Some(t) => gzip(&t, COMPRESSION_LEVEL),
        None => None,
    }
}

/// The table of a player's bests, written and compressed.
pub fn bests_archive(bests: &Vec<BestRecord>, charts: &Vec<ChartInfo>) -> (r: Option<Vec<u8>>)
    ensures
        bytes_view(r) == archive_of(bests_table(bests@, charts@)),
{
    let rows = bests_rows(bests, charts);
    assert(table_text(rows@).len() == rows.len());
    compress(write_table(&rows))
}

/// The table of a player's history, written and compressed.
pub fn history_archive(records: &Vec<HistoryRecord>, charts: &Vec<ChartInfo>) -> (r: Option<
    Vec<u8>,
>)
    ensures
        bytes_view(r) == archive_of(history_table(records@, charts@)),
{
    let rows = history_rows_of(records, charts);
    assert(table_text(rows@).len() == rows.len());
    compress(write_table(&rows))
}

/// Where the table of a player's bests is stored.
pub open spec fn bests_key_of(user: Seq<char>) -> Seq<char> {
    "scores/"@ + user + "/data/bests.tsv.gz"@
}

/// Where the table of a player's history is stored.
pub open spec fn history_key_of(user: Seq<char>) -> Seq<char> {
    "scores/"@ + user + "/data/scores.tsv.gz"@
}

/// The object key for the table of a player's bests.
pub fn bests_key(user: &str) -> (r: String)
    ensures
        r@ == bests_key_of(user@),
{
    String::from_str("scores/").concat(user).concat("/data/bests.tsv.gz")
}

/// The object key for the table of a player's history.
pub fn history_key(user: &str) -> (r: String)
    ensures
        r@ == history_key_of(user@),
{
    String::from_str("scores/").concat(user).concat("/data/scores.tsv.gz")
}

} // verus!
