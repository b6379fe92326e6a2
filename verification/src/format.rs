//! Choice of the input format from the name of the source.
//!
//! Only the end of the name counts, and it is compared exactly: `report.csv`
//! is delimited text, `report.CSV` is nothing.

use vstd::prelude::*;

verus! {

/// An input format the loader understands.
#[derive(Debug, Clone, Copy, PartialEq, Eq, Structural)]
pub enum Format {
    /// Comma-separated text in the fixed legacy codepage.
    Csv,
    /// A spreadsheet container with any number of worksheets.
    Xlsx,
}

/// `s` ends with `suffix`.
pub open spec fn ends_with(s: Seq<char>, suffix: Seq<char>) -> bool {
    s.len() >= suffix.len() && s.subrange(s.len() - suffix.len(), s.len() as int) == suffix
}

/// The ending that selects delimited text.
pub open spec fn csv_suffix() -> Seq<char> {
    seq!['.', 'c', 's', 'v']
}

/// The ending that selects a spreadsheet.
pub open spec fn xlsx_suffix() -> Seq<char> {
    seq!['.', 'x', 'l', 's', 'x']
}

/// The format a source name selects, if any.
pub open spec fn format_of(name: Seq<char>) -> Option<Format> {
    if ends_with(name, csv_suffix()) {
        Some(Format::Csv)
    } else if ends_with(name, xlsx_suffix()) {
        Some(Format::Xlsx)
    } else {
        None
    }
}

/// Whether `text` ends with `suffix`, compared character by character.
pub fn has_suffix(text: &str, suffix: &str) -> (found: bool)
    ensures
        found == ends_with(text@, suffix@),
{
    let n: usize = text.unicode_len();
    let k: usize = suffix.unicode_len();
    if n < k {
        return false;
    }
    let start: usize = n - k;
    let mut i: usize = 0;
    while i < k
        invariant
            n == text@.len(),
            k == suffix@.len(),
            start == n - k,
            i <= k,
            forall|j: int| 0 <= j < i ==> text@[start + j] == suffix@[j],
        decreases k - i,
    {
        if text.get_char(start + i) != suffix.get_char(i) {
            assert(text@.subrange(n - k, n as int)[i as int] != suffix@[i as int]);
            return false;
        }
        i = i + 1;
    }
    assert(text@.subrange(n - k, n as int) =~= suffix@);
    true
}

/// Picks the format from the end of the source name.
pub fn detect_format(name: &str) -> (format: Option<Format>)
    ensures
        format == format_of(name@),
{
    proof {
        reveal_strlit(".csv");
        reveal_strlit(".xlsx");
        assert(".csv"@ =~= csv_suffix());
        assert(".xlsx"@ =~= xlsx_suffix());
    }
    if has_suffix(name, ".csv") {
        Some(Format::Csv)
    } else if has_suffix(name, ".xlsx") {
        Some(Format::Xlsx)
    } else {
        None
    }
}

/// A name that ends in `.csv` selects delimited text, one that ends in
/// `.xlsx` a spreadsheet, and every other name nothing. No name ends in both.
pub proof fn lemma_extension_dispatch(name: Seq<char>)
    ensures
        ends_with(name, csv_suffix()) <==> format_of(name) == Some(Format::Csv),
        ends_with(name, xlsx_suffix()) <==> format_of(name) == Some(Format::Xlsx),
        !ends_with(name, csv_suffix()) && !ends_with(name, xlsx_suffix()) <==> format_of(name) is None,
{
    if ends_with(name, csv_suffix()) && ends_with(name, xlsx_suffix()) {
        let n = name.len() as int;
        assert(name.subrange(n - 4, n)[3] == name[n - 1]);
        assert(name.subrange(n - 5, n)[4] == name[n - 1]);
        assert(csv_suffix()[3] == 'v');
        assert(xlsx_suffix()[4] == 'x');
    }
}

} // verus!
