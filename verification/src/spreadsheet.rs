//! Loading of spreadsheet workbooks.
//!
//! A workbook names its worksheets in a fixed order. Each is read whole: the
//! used range of cells, every cell turned into text by the `calamine` crate's
//! own coercion. No row is taken for a header. One worksheet that cannot be
//! read fails the whole load.
//!
//! `calamine` panics on some malformed containers instead of failing. The
//! functions here are for containers on which it comes back; the
//! preconditions say so.

use vstd::prelude::*;
use crate::error::TablifyError;
use crate::table::{
    all_given, first_failed, gathered, lemma_gathered_failure, rows_given, Row, Sheet, Workbook,
};

verus! {

/// What reading one worksheet comes to.
pub enum Reading {
    /// Its rows of text.
    Rows(Seq<Seq<Seq<char>>>),
    /// An error of `calamine`, as it displays.
    Failed(Seq<char>),
    /// Nothing: the container declares the worksheet and does not hold it.
    Missing,
}

/// What opening a container comes to.
pub enum Opening {
    /// A workbook with these worksheets, in the order the container declares
    /// them: each its name and what reading under that name comes to.
    Opened(Seq<(Seq<char>, Reading)>),
    /// An error of `calamine`, as it displays.
    Refused(Seq<char>),
    /// Nothing: `calamine` panics on the container or never comes back.
    Aborted,
}

/// What `calamine` makes of opening `bytes` as a workbook. It does not come
/// back from every container: on one whose styles hold a number format with
/// more than 255 opening brackets, for one, it panics.
pub uninterp spec fn xlsx_opening(bytes: Seq<u8>) -> Opening;

/// `calamine` comes back from opening `bytes`, with a workbook or an error.
pub open spec fn opens_whole(bytes: Seq<u8>) -> bool {
    !(xlsx_opening(bytes) is Aborted)
}

/// The worksheets of the workbook that opens from `bytes`, or the error for
/// which none opens, as it displays.
pub open spec fn xlsx_sheets(bytes: Seq<u8>) -> Result<Seq<(Seq<char>, Reading)>, Seq<char>>
    recommends
        opens_whole(bytes),
{
    match xlsx_opening(bytes) {
        Opening::Opened(sheets) => Ok(sheets),
        Opening::Refused(cause) => Err(cause),
        Opening::Aborted => Err(Seq::empty()),
    }
}

/// What `calamine` makes of the rows of `range`, top to bottom: the cells of
/// a row from the first column of the range to its last, each turned into
/// text, or for a row with a cell that cannot be turned into text the error
/// as it displays.
pub uninterp spec fn range_rows(range: calamine::Range<calamine::DataType>) -> Seq<Result<Seq<Seq<char>>, Seq<char>>>;

/// The rows that `reader` has not handed out yet, as in [`range_rows`].
pub uninterp spec fn unread_rows(reader: RowReader<'_>) -> Seq<Result<Seq<Seq<char>>, Seq<char>>>;

/// The bytes that the open workbook `book` reads from.
pub uninterp spec fn source_of(book: calamine::Xlsx<std::io::Cursor<&[u8]>>) -> Seq<u8>;

/// Whether `calamine` comes back from reading any worksheet of `book`, with
/// cells or with an error. It does not on a worksheet with a cell that
/// names a shared string that is not there, nor on one whose rows are out of
/// order: there it panics.
pub uninterp spec fn reads_whole(book: calamine::Xlsx<std::io::Cursor<&[u8]>>) -> bool;

/// The worksheets that the open workbook `book` holds, as in [`Opening`].
pub uninterp spec fn sheets_of(book: calamine::Xlsx<std::io::Cursor<&[u8]>>) -> Seq<(Seq<char>, Reading)>;

/// What `error` displays as.
pub uninterp spec fn calamine_cause(error: calamine::Error) -> Seq<char>;

/// `calamine::Xlsx`: an open workbook, opaque but for the worksheets it holds.
#[verifier::external_type_specification]
#[verifier::external_body]
#[verifier::reject_recursive_types(RS)]
pub struct ExXlsx<RS>(calamine::Xlsx<RS>);

/// `std::io::Cursor`: the in-memory input of an open workbook. Opaque.
#[verifier::external_type_specification]
#[verifier::external_body]
#[verifier::reject_recursive_types(T)]
pub struct ExCursor<T>(std::io::Cursor<T>);

/// `calamine::Range`: the used cells of one worksheet, opaque but for the rows
/// of text they make.
#[verifier::external_type_specification]
#[verifier::external_body]
#[verifier::reject_recursive_types(T)]
pub struct ExRange<T>(calamine::Range<T>);

/// `calamine::DataType`: one cell as the container types it. Opaque.
#[verifier::external_type_specification]
#[verifier::external_body]
pub struct ExDataType(calamine::DataType);

/// `calamine::Error`: why a container or a worksheet could not be read,
/// opaque but for what it displays as.
#[verifier::external_type_specification]
#[verifier::external_body]
pub struct ExCalamineError(calamine::Error);

/// `calamine::RangeDeserializer` over cells that become rows of strings:
/// the rows of one range as they are read one after the other. It is held
/// here, opaque but for what it has yet to hand out, because its own
/// declaration is bound by traits of `calamine` and `serde`.
#[verifier::external_body]
pub struct RowReader<'a> {
    rows: calamine::RangeDeserializer<'a, calamine::DataType, Vec<String>>,
}

/// The reading that the rows of a range stand for: all of them, or the
/// error of the first that could not be read.
pub open spec fn reading_of(rows: Seq<Result<Seq<Seq<char>>, Seq<char>>>) -> Reading {
    match gathered(rows) {
        Ok(held) => Reading::Rows(held),
        Err(cause) => Reading::Failed(cause),
    }
}

/// `calamine::Xlsx::new` on a cursor over `bytes`, for bytes from which it
/// comes back. Whether a workbook opens, and what it then holds, is a
/// function of the bytes alone. The workbook that opens reads from these
/// bytes.
#[verifier::external_body]
fn open_book<'a>(bytes: &'a [u8]) -> (opened: Result<calamine::Xlsx<std::io::Cursor<&'a [u8]>>, calamine::Error>)
    requires
        !(xlsx_opening(bytes@) is Aborted),
    ensures
        match opened {
            Ok(book) => {
                &&& xlsx_opening(bytes@) == Opening::Opened(sheets_of(book))
                &&& source_of(book) == bytes@
            },
            Err(error) => xlsx_opening(bytes@) == Opening::Refused(calamine_cause(error)),
        },
{
    Ok(calamine::Reader::new(std::io::Cursor::new(bytes))?)
}

/// `calamine::Reader::sheet_names`: the names of the worksheets, in the order
/// the container declares them.
#[verifier::external_body]
fn sheet_names(book: &calamine::Xlsx<std::io::Cursor<&[u8]>>) -> (names: Vec<String>)
    ensures
        names.len() == sheets_of(*book).len(),
        forall|i: int| 0 <= i < names.len() ==> (#[trigger] names[i])@ == sheets_of(*book)[i].0,
{
    calamine::Reader::sheet_names(book)
}

/// `calamine::Reader::worksheet_range` for `name`, on a workbook from whose
/// worksheets `calamine` comes back. `None` means that the workbook has no
/// such worksheet to read. Reading changes nothing of what the workbook
/// holds. For a worksheet of that name, the workbook holds what comes back:
/// the rows of the range, the error, or nothing.
#[verifier::external_body]
fn sheet_range(book: &mut calamine::Xlsx<std::io::Cursor<&[u8]>>, name: &str) -> (found: Option<Result<calamine::Range<calamine::DataType>, calamine::Error>>)
    requires
        reads_whole(*old(book)),
    ensures
        reads_whole(*final(book)),
        sheets_of(*final(book)) == sheets_of(*old(book)),
        forall|i: int| 0 <= i < sheets_of(*old(book)).len() && (#[trigger] sheets_of(*old(book))[i]).0 == name@ ==>
            match found {
                Some(Ok(range)) => sheets_of(*old(book))[i].1 == reading_of(range_rows(range)),
                Some(Err(error)) => sheets_of(*old(book))[i].1 == Reading::Failed(calamine_cause(error)),
                None => sheets_of(*old(book))[i].1 == Reading::Missing,
            },
{
    calamine::Reader::worksheet_range(book, name).map(|range| range.map_err(calamine::Error::from))
}

/// `calamine::RangeDeserializerBuilder::from_range` with `has_headers(false)`.
/// Without headers to look for it does not fail, and the reader is ready to
/// hand out the rows of the range from the first on.
#[verifier::external_body]
fn open_rows<'a>(range: &'a calamine::Range<calamine::DataType>) -> (opened: Result<RowReader<'a>, calamine::Error>)
    ensures
        opened is Ok,
        unread_rows(opened->Ok_0) == range_rows(*range),
{
    let rows = calamine::RangeDeserializerBuilder::new().has_headers(false).from_range(range)?;
    Ok(RowReader { rows })
}

/// `<calamine::RangeDeserializer as Iterator>::next`. `None` means that the
/// rows are used up. Otherwise the first unread row leaves the reader; it
/// comes back as its cells, or as the error of the cell that could not be
/// turned into text.
#[verifier::external_body]
fn next_row(reader: &mut RowReader<'_>) -> (row: Option<Result<Row, calamine::Error>>)
    ensures
        match row {
            None => unread_rows(*old(reader)).len() == 0,
            Some(Ok(cells)) => {
                &&& unread_rows(*old(reader)).len() > 0
                &&& unread_rows(*old(reader))[0] matches Ok(held) && held == cells.deep_view()
                &&& unread_rows(*final(reader)) == unread_rows(*old(reader)).skip(1)
            },
            Some(Err(error)) => {
                &&& unread_rows(*old(reader)).len() > 0
                &&& unread_rows(*old(reader))[0] matches Err(cause) && cause == calamine_cause(error)
            },
        },
{
    reader.rows.next().map(|row| row.map_err(calamine::Error::from))
}

/// `<calamine::Error as std::fmt::Display>::fmt`, drawn into a string: the
/// error as it displays.
#[verifier::external_body]
fn calamine_error_text(error: &calamine::Error) -> (text: String)
    ensures
        text@ == calamine_cause(*error),
{
    format!("{}", error)
}

/// Every worksheet has rows.
pub open spec fn all_readable(sheets: Seq<(Seq<char>, Reading)>) -> bool {
    forall|i: int| 0 <= i < sheets.len() ==> (#[trigger] sheets[i]).1 is Rows
}

/// The rows of worksheets that all have rows, one sheet per worksheet, in
/// the same order.
pub open spec fn contents_of(sheets: Seq<(Seq<char>, Reading)>) -> Seq<Seq<Seq<Seq<char>>>> {
    Seq::new(sheets.len(), |i: int| sheets[i].1->Rows_0)
}

/// The worksheet at `i` is the first without rows.
pub open spec fn first_unread(sheets: Seq<(Seq<char>, Reading)>, i: int) -> bool {
    &&& 0 <= i < sheets.len()
    &&& !(sheets[i].1 is Rows)
    &&& forall|j: int| 0 <= j < i ==> (#[trigger] sheets[j]).1 is Rows
}

/// The cause given for a worksheet that the container declares and does not
/// hold.
pub open spec fn missing_sheet() -> Seq<char> {
    "Cannot find a sheet."@
}

/// The cause that a load gives for a worksheet without rows.
pub open spec fn cause_of(reading: Reading) -> Seq<char> {
    match reading {
        Reading::Rows(_) => Seq::empty(),
        Reading::Failed(cause) => cause,
        Reading::Missing => missing_sheet(),
    }
}

/// `cause` is the cause of the first worksheet without rows.
pub open spec fn unread_with(sheets: Seq<(Seq<char>, Reading)>, cause: Seq<char>) -> bool {
    exists|i: int| first_unread(sheets, i) && cause_of(sheets[i].1) == cause
}

/// The first worksheet without rows is one worksheet.
pub proof fn lemma_first_unread_is_one(sheets: Seq<(Seq<char>, Reading)>, i: int, j: int)
    requires
        first_unread(sheets, i),
        first_unread(sheets, j),
    ensures
        i == j,
{
    if i < j {
        assert(sheets[i].1 is Rows);
    } else if j < i {
        assert(sheets[j].1 is Rows);
    }
}

/// What a load makes of an error of `calamine`: `Parse` with the error as it
/// displays.
pub fn container_failure(error: calamine::Error) -> (failure: TablifyError)
    ensures
        failure matches TablifyError::Parse(cause) && cause@ == calamine_cause(error),
{
    TablifyError::Parse(calamine_error_text(&error))
}

/// Reads the rows of one range, top to bottom, until they end or a row
/// cannot be read.
pub fn read_rows(range: &calamine::Range<calamine::DataType>) -> (loaded: Result<Sheet, TablifyError>)
    ensures
        match gathered(range_rows(*range)) {
            Ok(rows) => loaded matches Ok(sheet) && sheet.deep_view() == rows,
            Err(failure) => loaded matches Err(TablifyError::Parse(cause)) && cause@ == failure,
        },
{
    let ghost all = range_rows(*range);
    let mut reader = match open_rows(range) {
        Ok(reader) => reader,
        Err(e) => {
            return Err(container_failure(e));
        },
    };
    let mut rows: Sheet = Vec::new();
    loop
        invariant
            all == range_rows(*range),
            rows.len() <= all.len(),
            unread_rows(reader) == all.skip(rows.len() as int),
            forall|i: int| 0 <= i < rows.len() ==> (#[trigger] all[i]) is Ok && all[i]->Ok_0 == rows[i].deep_view(),
        decreases all.len() - rows.len(),
    {
        match next_row(&mut reader) {
            None => {
                assert(rows.len() == all.len());
                assert(all_given(all));
                assert(rows.deep_view() =~= rows_given(all));
                return Ok(rows);
            },
            Some(Ok(cells)) => {
                assert(all.skip(rows.len() as int)[0] == all[rows.len() as int]);
                assert(all.skip(rows.len() as int).skip(1) =~= all.skip(rows.len() + 1));
                rows.push(cells);
            },
            Some(Err(e)) => {
                assert(all.skip(rows.len() as int)[0] == all[rows.len() as int]);
                assert(first_failed(all, rows.len() as int));
                let failure = container_failure(e);
                proof {
                    lemma_gathered_failure(all, failure->Parse_0@);
                }
                return Err(failure);
            },
        }
    }
}

/// Reads every worksheet of an open workbook, in declaration order.
///
/// The first worksheet that gives no rows fails the whole reading, with its
/// cause. The call is for workbooks from whose worksheets `calamine` comes
/// back.
pub fn read_sheets(book: &mut calamine::Xlsx<std::io::Cursor<&[u8]>>) -> (loaded: Result<Workbook, TablifyError>)
    requires
        reads_whole(*old(book)),
    ensures
        reads_whole(*final(book)),
        sheets_of(*final(book)) == sheets_of(*old(book)),
        match loaded {
            Ok(workbook) => {
                &&& all_readable(sheets_of(*old(book)))
                &&& workbook.len() == sheets_of(*old(book)).len()
                &&& workbook.deep_view() == contents_of(sheets_of(*old(book)))
            },
            Err(failure) => failure matches TablifyError::Parse(cause) && unread_with(
                sheets_of(*old(book)),
                cause@,
            ),
        },
{
    let ghost sheets = sheets_of(*book);
    let names = sheet_names(book);
    let mut workbook: Workbook = Vec::new();
    let mut i: usize = 0;
    while i < names.len()
        invariant
            reads_whole(*book),
            sheets == sheets_of(*old(book)),
            sheets == sheets_of(*book),
            names.len() == sheets.len(),
            forall|j: int| 0 <= j < names.len() ==> (#[trigger] names[j])@ == sheets[j].0,
            i <= names.len(),
            workbook.len() == i,
            forall|j: int| 0 <= j < i ==> (#[trigger] sheets[j]).1 == Reading::Rows(workbook[j].deep_view()),
        decreases names.len() - i,
    {
        assert(sheets[i as int].0 == names[i as int]@);
        match sheet_range(book, names[i].as_str()) {
            Some(Ok(range)) => match read_rows(&range) {
                Ok(rows) => {
                    workbook.push(rows);
                },
                Err(failure) => {
                    assert(first_unread(sheets, i as int));
                    return Err(failure);
                },
            },
            Some(Err(e)) => {
                assert(first_unread(sheets, i as int));
                return Err(container_failure(e));
            },
            None => {
                assert(first_unread(sheets, i as int));
                return Err(TablifyError::Parse("Cannot find a sheet.".to_owned()));
            },
        }
        i = i + 1;
    }
    assert(workbook.deep_view() =~= contents_of(sheets));
    Ok(workbook)
}

/// What loading `bytes` as a spreadsheet yields: one sheet per worksheet, or
/// the cause for which the container does not open, or the cause of the
/// first worksheet without rows.
pub open spec fn xlsx_workbook(bytes: Seq<u8>) -> Result<Seq<Seq<Seq<Seq<char>>>>, Seq<char>> {
    match xlsx_sheets(bytes) {
        Ok(sheets) => if all_readable(sheets) {
            Ok(contents_of(sheets))
        } else {
            let i = choose|i: int| first_unread(sheets, i);
            Err(cause_of(sheets[i].1))
        },
        Err(cause) => Err(cause),
    }
}

/// The number of worksheets that the container in `bytes` declares.
pub open spec fn xlsx_sheet_count(bytes: Seq<u8>) -> nat
    recommends
        xlsx_sheets(bytes) is Ok,
{
    xlsx_sheets(bytes)->Ok_0.len()
}

/// `calamine` comes back from opening `bytes`, and from reading any
/// worksheet of any workbook that reads from `bytes`.
pub open spec fn reads_whole_from(bytes: Seq<u8>) -> bool {
    &&& opens_whole(bytes)
    &&& forall|book: calamine::Xlsx<std::io::Cursor<&[u8]>>|
        source_of(book) == bytes ==> #[trigger] reads_whole(book)
}

/// Loads a spreadsheet into one sheet per worksheet, in declaration order.
///
/// Fails exactly where the container does not open or a worksheet gives no
/// rows, with `Parse` and the cause of the first such failure. The call is
/// for containers from which `calamine` comes back, on opening them and on
/// reading their worksheets.
pub fn load_xlsx(a: &Vec<u8>) -> (loaded: Result<Workbook, TablifyError>)
    requires
        reads_whole_from(a@),
    ensures
        match xlsx_workbook(a@) {
            Ok(sheets) => loaded matches Ok(workbook) && workbook.deep_view() == sheets
                && workbook.len() == xlsx_sheet_count(a@),
            Err(refusal) => loaded matches Err(TablifyError::Parse(cause)) && cause@ == refusal,
        },
{
    match open_book(a.as_slice()) {
        Ok(book) => {
            let mut book = book;
            let loaded = read_sheets(&mut book);
            proof {
                let sheets = xlsx_sheets(a@)->Ok_0;
                if loaded is Err {
                    let cause = loaded->Err_0->Parse_0@;
                    let i = choose|i: int| first_unread(sheets, i) && cause_of(sheets[i].1) == cause;
                    assert(!all_readable(sheets));
                    let k = choose|k: int| first_unread(sheets, k);
                    lemma_first_unread_is_one(sheets, i, k);
                }
            }
            loaded
        },
        Err(e) => Err(container_failure(e)),
    }
}

/// A spreadsheet that loads gives exactly one sheet per worksheet that the
/// container declares, and the sheet at each place holds the rows of the
/// worksheet declared at that place.
pub proof fn lemma_sheet_per_worksheet(bytes: Seq<u8>)
    requires
        xlsx_workbook(bytes) is Ok,
    ensures
        xlsx_sheets(bytes) is Ok,
        xlsx_workbook(bytes)->Ok_0.len() == xlsx_sheet_count(bytes),
        forall|i: int| 0 <= i < xlsx_sheet_count(bytes) ==>
            xlsx_sheets(bytes)->Ok_0[i].1 == Reading::Rows(#[trigger] xlsx_workbook(bytes)->Ok_0[i]),
{
}

} // verus!
