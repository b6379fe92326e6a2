//! The uniform in-memory shape of tabular input: text cells in rows, rows in
//! sheets, sheets in a workbook. Order is the order of the source. Contracts
//! speak of these types by their `deep_view`, sequences of characters nested
//! as the vectors are.

use vstd::prelude::*;

verus! {

/// A row: its cells, left to right.
pub type Row = Vec<String>;

/// A sheet: its rows, top to bottom.
pub type Sheet = Vec<Row>;

/// A workbook: its sheets, in the order the source declares them.
pub type Workbook = Vec<Sheet>;

/// Every item of what a reader hands out, one after the other, is a row.
pub open spec fn all_given(items: Seq<Result<Seq<Seq<char>>, Seq<char>>>) -> bool {
    forall|i: int| 0 <= i < items.len() ==> (#[trigger] items[i]) is Ok
}

/// The rows of items that all are rows.
pub open spec fn rows_given(items: Seq<Result<Seq<Seq<char>>, Seq<char>>>) -> Seq<Seq<Seq<char>>> {
    Seq::new(items.len(), |i: int| items[i]->Ok_0)
}

/// The item at `i` is the first that is no row but a failure.
pub open spec fn first_failed(items: Seq<Result<Seq<Seq<char>>, Seq<char>>>, i: int) -> bool {
    &&& 0 <= i < items.len()
    &&& items[i] is Err
    &&& forall|j: int| 0 <= j < i ==> (#[trigger] items[j]) is Ok
}

/// `cause` is the cause of the first item that is a failure.
pub open spec fn failed_with(items: Seq<Result<Seq<Seq<char>>, Seq<char>>>, cause: Seq<char>) -> bool {
    exists|i: int| first_failed(items, i) && items[i]->Err_0 == cause
}

/// What reading the items to the first failure gives: all rows, or the cause
/// of that failure.
pub open spec fn gathered(items: Seq<Result<Seq<Seq<char>>, Seq<char>>>) -> Result<
    Seq<Seq<Seq<char>>>,
    Seq<char>,
> {
    if all_given(items) {
        Ok(rows_given(items))
    } else {
        let i = choose|i: int| first_failed(items, i);
        Err(items[i]->Err_0)
    }
}

/// The first failure is one item: two places that both are the first are
/// the same place.
pub proof fn lemma_first_failed_is_one(items: Seq<Result<Seq<Seq<char>>, Seq<char>>>, i: int, j: int)
    requires
        first_failed(items, i),
        first_failed(items, j),
    ensures
        i == j,
{
    if i < j {
        assert(items[i] is Ok);
    } else if j < i {
        assert(items[j] is Ok);
    }
}

/// Items of which the first failure has the cause `cause` gather to that
/// cause.
pub proof fn lemma_gathered_failure(items: Seq<Result<Seq<Seq<char>>, Seq<char>>>, cause: Seq<char>)
    requires
        failed_with(items, cause),
    ensures
        gathered(items) == Err::<Seq<Seq<Seq<char>>>, Seq<char>>(cause),
{
    let i = choose|i: int| first_failed(items, i) && items[i]->Err_0 == cause;
    assert(!all_given(items));
    let k = choose|k: int| first_failed(items, k);
    lemma_first_failed_is_one(items, i, k);
}

} // verus!
