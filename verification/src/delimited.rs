//! Loading of comma-separated text.
//!
//! The bytes are always read as Shift_JIS, whatever they look like: a byte
//! order mark changes nothing, and UTF-8 input comes out garbled. Bytes that
//! are no Shift_JIS sequence become U+FFFD and the load goes on. The text is
//! then split into records by the `csv` crate. No row is taken for a header:
//! every record is data.

use vstd::prelude::*;
use crate::error::TablifyError;
use crate::table::{
    all_given, failed_with, first_failed, gathered, lemma_gathered_failure, rows_given, Row, Sheet,
};

verus! {

/// The text that Shift_JIS decoding, with malformed sequences replaced, makes
/// of `bytes`.
pub uninterp spec fn shift_jis_text(bytes: Seq<u8>) -> Seq<char>;

/// The records that the `csv` crate reads from `text` with its default
/// dialect and no header row, in order: the fields of a record, or for a
/// record that the reader rejects its error as it displays.
pub uninterp spec fn csv_records(text: Seq<char>) -> Seq<Result<Seq<Seq<char>>, Seq<char>>>;

/// The records that `reader` has not handed out yet, as in [`csv_records`].
pub uninterp spec fn unread_records(reader: csv::Reader<&[u8]>) -> Seq<Result<Seq<Seq<char>>, Seq<char>>>;

/// What `error` displays as.
pub uninterp spec fn csv_cause(error: csv::Error) -> Seq<char>;

/// `csv::Reader`: a reader of records, opaque but for what it has yet to
/// hand out.
#[verifier::external_type_specification]
#[verifier::external_body]
#[verifier::reject_recursive_types(R)]
pub struct ExCsvReader<R>(csv::Reader<R>);

/// `csv::Error`: why the reader rejected a record, opaque but for what it
/// displays as.
#[verifier::external_type_specification]
#[verifier::external_body]
pub struct ExCsvError(csv::Error);

/// The longest input the decoder takes. For `n` bytes it asks for a buffer
/// of up to `3 * n + 3` bytes, and panics where that passes `isize::MAX`,
/// which is `usize::MAX / 2`. This is the largest `n` for which it does not.
pub open spec fn max_text_bytes() -> int {
    (usize::MAX as int / 2 - 3) / 3
}

/// `encoding_rs::Encoding::decode_without_bom_handling` on
/// `encoding_rs::SHIFT_JIS`. The result is a function of the bytes alone. The
/// decoder panics where the size of its buffer overflows; the bound rules
/// that out.
#[verifier::external_body]
fn decode_shift_jis(bytes: &[u8]) -> (text: String)
    requires
        bytes@.len() <= max_text_bytes(),
    ensures
        text@ == shift_jis_text(bytes@),
{
    encoding_rs::SHIFT_JIS.decode_without_bom_handling(bytes).0.into_owned()
}

/// `csv::ReaderBuilder::from_reader` on the bytes of `text`, with
/// `has_headers(false)` and every other setting left at its default. The
/// reader is ready to hand out the records of `text` from the first on.
#[verifier::external_body]
fn open_reader<'a>(text: &'a str) -> (reader: csv::Reader<&'a [u8]>)
    ensures
        unread_records(reader) == csv_records(text@),
{
    csv::ReaderBuilder::new().has_headers(false).from_reader(text.as_bytes())
}

/// `csv::Reader::deserialize`, advanced by one record. `None` means that the
/// input is used up. Otherwise the first unread record leaves the reader; it
/// comes back as its fields, or as the reader's error where it was rejected.
#[verifier::external_body]
fn next_record(reader: &mut csv::Reader<&[u8]>) -> (record: Option<Result<Row, csv::Error>>)
    ensures
        match record {
            None => unread_records(*old(reader)).len() == 0,
            Some(Ok(row)) => {
                &&& unread_records(*old(reader)).len() > 0
                &&& unread_records(*old(reader))[0] matches Ok(fields) && fields == row.deep_view()
                &&& unread_records(*final(reader)) == unread_records(*old(reader)).skip(1)
            },
            Some(Err(error)) => {
                &&& unread_records(*old(reader)).len() > 0
                &&& unread_records(*old(reader))[0] matches Err(cause) && cause == csv_cause(error)
            },
        },
{
    reader.deserialize().next()
}

/// `<csv::Error as std::fmt::Display>::fmt`, drawn into a string: the error
/// as it displays.
#[verifier::external_body]
fn csv_error_text(error: &csv::Error) -> (text: String)
    ensures
        text@ == csv_cause(*error),
{
    format!("{}", error)
}

/// What a load makes of the reader's rejection of a record: `Parse` with
/// the error as it displays.
pub fn record_failure(error: csv::Error) -> (failure: TablifyError)
    ensures
        failure matches TablifyError::Parse(cause) && cause@ == csv_cause(error),
{
    TablifyError::Parse(csv_error_text(&error))
}

/// Reads the records left in `reader` until the input ends or a record is
/// rejected.
pub fn read_records(reader: &mut csv::Reader<&[u8]>) -> (loaded: Result<Sheet, TablifyError>)
    ensures
        match loaded {
            Ok(rows) => {
                &&& all_given(unread_records(*old(reader)))
                &&& rows.deep_view() == rows_given(unread_records(*old(reader)))
            },
            Err(failure) => failure matches TablifyError::Parse(cause) && failed_with(
                unread_records(*old(reader)),
                cause@,
            ),
        },
{
    let ghost all = unread_records(*reader);
    let mut rows: Sheet = Vec::new();
    loop
        invariant
            all == unread_records(*old(reader)),
            rows.len() <= all.len(),
            unread_records(*reader) == all.skip(rows.len() as int),
            forall|i: int| 0 <= i < rows.len() ==> (#[trigger] all[i]) is Ok && all[i]->Ok_0 == rows[i].deep_view(),
        decreases all.len() - rows.len(),
    {
        match next_record(reader) {
            None => {
                assert(rows.len() == all.len());
                assert(rows.deep_view() =~= rows_given(all));
                return Ok(rows);
            },
            Some(Ok(row)) => {
                assert(all.skip(rows.len() as int)[0] == all[rows.len() as int]);
                assert(all.skip(rows.len() as int).skip(1) =~= all.skip(rows.len() + 1));
                rows.push(row);
            },
            Some(Err(e)) => {
                assert(all.skip(rows.len() as int)[0] == all[rows.len() as int]);
                assert(first_failed(all, rows.len() as int));
                return Err(record_failure(e));
            },
        }
    }
}

/// What loading `bytes` as delimited text yields: the rows, or the error of
/// the first record that the reader rejects.
pub open spec fn csv_sheet(bytes: Seq<u8>) -> Result<Seq<Seq<Seq<char>>>, Seq<char>> {
    gathered(csv_records(shift_jis_text(bytes)))
}

/// The cause given for input that is too long for the decoder.
pub open spec fn too_long() -> Seq<char> {
    "input too long to decode"@
}

/// Loads delimited text into one sheet.
///
/// Input longer than the decoder takes fails with `Decode`. No other input
/// does: bytes that are no Shift_JIS are replaced and the load goes on.
/// Below that length the load fails exactly where the `csv` crate rejects a
/// record, with `Parse` and the error of the first such record as it
/// displays.
pub fn load_csv(a: &Vec<u8>) -> (loaded: Result<Sheet, TablifyError>)
    ensures
        a.len() > max_text_bytes() ==> (loaded matches Err(TablifyError::Decode(cause)) && cause@ == too_long()),
        a.len() <= max_text_bytes() ==> match csv_sheet(a@) {
            Ok(rows) => loaded matches Ok(sheet) && sheet.deep_view() == rows,
            Err(rejection) => loaded matches Err(TablifyError::Parse(cause)) && cause@ == rejection,
        },
{
    if a.len() > (usize::MAX / 2 - 3) / 3 {
        return Err(TablifyError::Decode("input too long to decode".to_owned()));
    }
    let text = decode_shift_jis(a.as_slice());
    let mut reader = open_reader(text.as_str());
    let loaded = read_records(&mut reader);
    proof {
        if loaded is Err {
            lemma_gathered_failure(csv_records(shift_jis_text(a@)), loaded->Err_0->Parse_0@);
        }
    }
    loaded
}

} // verus!
