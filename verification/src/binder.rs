//! Binding of one sheet to the names a template can address.
//!
//! In header mode the first row is bound to `headers` and the rest to `rows`.
//! Otherwise the whole sheet is bound to `rows`. A sheet without rows has no
//! first row to take: in header mode it binds `headers` to an empty list and
//! `rows` to an empty table, so that a template written for header mode still
//! finds both names.
//!
//! Rows of unequal width are passed through untouched.

use vstd::prelude::*;
use crate::table::{Row, Sheet};

verus! {

/// What a template sees of one sheet.
pub struct RenderContext {
    /// The first row, in header mode only.
    pub headers: Option<Row>,
    /// The body rows.
    pub rows: Sheet,
}

/// The mathematical content of a [`RenderContext`].
pub struct Bindings {
    pub headers: Option<Seq<Seq<char>>>,
    pub rows: Seq<Seq<Seq<char>>>,
}

impl View for RenderContext {
    type V = Bindings;

    open spec fn view(&self) -> Bindings {
        Bindings {
            headers: match self.headers {
                Some(h) => Some(h.deep_view()),
                None => None,
            },
            rows: self.rows.deep_view(),
        }
    }
}

/// The name under which the first row is bound.
pub open spec fn headers_key() -> Seq<char> {
    seq!['h', 'e', 'a', 'd', 'e', 'r', 's']
}

/// The name under which the body rows are bound.
pub open spec fn rows_key() -> Seq<char> {
    seq!['r', 'o', 'w', 's']
}

impl Bindings {
    /// The names that are bound: `rows` always, `headers` in header mode.
    pub open spec fn names(self) -> Set<Seq<char>> {
        if self.headers is Some {
            set![headers_key(), rows_key()]
        } else {
            set![rows_key()]
        }
    }
}

/// What binding `sheet` yields.
pub open spec fn bound(sheet: Seq<Seq<Seq<char>>>, has_headers: bool) -> Bindings {
    if !has_headers {
        Bindings { headers: None, rows: sheet }
    } else if sheet.len() == 0 {
        Bindings { headers: Some(Seq::empty()), rows: Seq::empty() }
    } else {
        Bindings { headers: Some(sheet[0]), rows: sheet.skip(1) }
    }
}

/// Binds a sheet. Never fails.
pub fn bind(sheet: Sheet, has_headers: bool) -> (ctx: RenderContext)
    ensures
        ctx@ == bound(sheet.deep_view(), has_headers),
        has_headers == (ctx.headers is Some),
        !has_headers ==> ctx.rows == sheet,
        has_headers && sheet.len() > 0 ==> ctx.headers == Some(sheet[0]) && ctx.rows@ == sheet@.skip(1),
{
    let mut rows = sheet;
    if !has_headers {
        RenderContext { headers: None, rows }
    } else if rows.len() == 0 {
        let ctx = RenderContext { headers: Some(Vec::new()), rows };
        assert(ctx@.headers->0 =~= Seq::empty());
        assert(ctx@.rows =~= Seq::empty());
        ctx
    } else {
        let headers = rows.remove(0);
        assert(rows.deep_view() =~= sheet.deep_view().skip(1));
        RenderContext { headers: Some(headers), rows }
    }
}

/// In header mode a sheet with rows is split after its first row, and nothing
/// is lost: the body is one row shorter than the sheet, and the header row
/// followed by the body is the sheet again.
pub proof fn lemma_header_split(sheet: Seq<Seq<Seq<char>>>)
    requires
        sheet.len() > 0,
    ensures
        bound(sheet, true).headers == Some(sheet[0]),
        bound(sheet, true).rows == sheet.subrange(1, sheet.len() as int),
        bound(sheet, true).rows.len() == sheet.len() - 1,
        seq![sheet[0]] + bound(sheet, true).rows == sheet,
        bound(sheet, true).names() == set![headers_key(), rows_key()],
{
    assert(seq![sheet[0]] + sheet.skip(1) =~= sheet);
}

/// Without header mode the sheet is bound whole, under the one name `rows`.
pub proof fn lemma_headerless_unchanged(sheet: Seq<Seq<Seq<char>>>)
    ensures
        bound(sheet, false).headers is None,
        bound(sheet, false).rows == sheet,
        bound(sheet, false).names() == set![rows_key()],
{
}

/// A sheet without rows binds, in header mode, an empty header row and an
/// empty body.
pub proof fn lemma_empty_sheet_with_headers()
    ensures
        bound(Seq::empty(), true).headers == Some(Seq::<Seq<char>>::empty()),
        bound(Seq::empty(), true).rows == Seq::<Seq<Seq<char>>>::empty(),
        bound(Seq::empty(), true).names() == set![headers_key(), rows_key()],
{
}

} // verus!
