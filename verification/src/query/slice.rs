//! The result slicer: from the rows a query fetched to the page and its boundary flags.

use vstd::prelude::*;
use crate::conv::{str_eq, AsMaybeStr};

verus! {

/// What the slicer needs to know of the request that a batch of rows was fetched for.
#[derive(Debug, Clone, PartialEq, Eq, Hash)]
pub struct ResultSliceOptions {
    /// The rows come in the reverse of the canonical order.
    pub reverse_results: bool,
    /// The page size.
    pub limit: i64,
    /// The key that the page starts after, in canonical order.
    pub after: Option<String>,
    /// The key that the page ends before, in canonical order.
    pub before: Option<String>,
}

/// [`ResultSliceOptions`] as a mathematical value.
pub struct SliceContext {
    pub reverse_results: bool,
    pub limit: int,
    pub after: Option<Seq<char>>,
    pub before: Option<Seq<char>>,
}

/// The characters of an optional string.
pub open spec fn text_of(s: Option<String>) -> Option<Seq<char>> {
    match s {
        Some(s) => Some(s@),
        None => None,
    }
}

impl View for ResultSliceOptions {
    type V = SliceContext;

    open spec fn view(&self) -> SliceContext {
        SliceContext {
            reverse_results: self.reverse_results,
            limit: self.limit as int,
            after: text_of(self.after),
            before: text_of(self.before),
        }
    }
}

impl Default for ResultSliceOptions {
    fn default() -> (opts: Self)
        ensures
            opts@ == (SliceContext {
                reverse_results: false,
                limit: 0,
                after: None,
                before: None,
            }),
    {
        ResultSliceOptions { reverse_results: false, limit: 0, after: None, before: None }
    }
}

impl SliceContext {
    /// The boundary key that the rows start at, in the order they were fetched in.
    pub open spec fn beg_key(self) -> Option<Seq<char>> {
        if self.reverse_results {
            self.before
        } else {
            self.after
        }
    }

    /// The boundary key that the rows end at, in the order they were fetched in.
    pub open spec fn end_key(self) -> Option<Seq<char>> {
        if self.reverse_results {
            self.after
        } else {
            self.before
        }
    }
}

/// `row` is the item that the boundary `key` names.
pub open spec fn is_at<T: AsMaybeStr>(row: T, key: Option<Seq<char>>) -> bool {
    key is Some && row.maybe_str() == key
}

/// The first row is the item that `key` names: a sentinel, delivered on an earlier page.
pub open spec fn starts_on<T: AsMaybeStr>(rows: Seq<T>, key: Option<Seq<char>>) -> bool {
    rows.len() > 0 && is_at(rows.first(), key)
}

/// The last row is the item that `key` names.
pub open spec fn ends_on<T: AsMaybeStr>(rows: Seq<T>, key: Option<Seq<char>>) -> bool {
    rows.len() > 0 && is_at(rows.last(), key)
}

/// How many of the two boundaries were found among the rows.
pub open spec fn sentinels<T: AsMaybeStr>(
    rows: Seq<T>,
    beg: Option<Seq<char>>,
    end: Option<Seq<char>>,
) -> int {
    (if starts_on(rows, beg) { 1int } else { 0int })
        + (if ends_on(rows, end) { 1int } else { 0int })
}

/// The rows without the sentinels, in the same order.
pub open spec fn retained<T: AsMaybeStr>(
    rows: Seq<T>,
    beg: Option<Seq<char>>,
    end: Option<Seq<char>>,
) -> Seq<T> {
    let lo = if starts_on(rows, beg) { 1int } else { 0int };
    let hi = rows.len() - (if ends_on(rows, end) { 1int } else { 0int });
    if lo <= hi {
        rows.subrange(lo, hi)
    } else {
        Seq::empty()
    }
}

/// How many of `n` retained rows a page of size `limit` holds. A limit below zero cuts
/// nothing off.
pub open spec fn page_len(n: nat, limit: int) -> nat {
    if 0 <= limit < n {
        limit as nat
    } else {
        n
    }
}

/// The retained rows, cut to the page size.
pub open spec fn truncated<T: AsMaybeStr>(rows: Seq<T>, ctx: SliceContext) -> Seq<T> {
    let kept = retained(rows, ctx.beg_key(), ctx.end_key());
    kept.take(page_len(kept.len(), ctx.limit) as int)
}

/// There are items before the page, in the order the rows were fetched in.
pub open spec fn more_beg<T: AsMaybeStr>(rows: Seq<T>, ctx: SliceContext) -> bool {
    starts_on(rows, ctx.beg_key())
}

/// There are items beyond the page, in the order the rows were fetched in: the end
/// boundary was found, or a row was left over that is neither a sentinel nor on the page.
pub open spec fn more_end<T: AsMaybeStr>(rows: Seq<T>, ctx: SliceContext) -> bool {
    ends_on(rows, ctx.end_key()) || truncated(rows, ctx).len() < rows.len() - sentinels(
        rows,
        ctx.beg_key(),
        ctx.end_key(),
    )
}

/// The items of the page, in canonical order.
pub open spec fn page_items<T: AsMaybeStr>(rows: Seq<T>, ctx: SliceContext) -> Seq<T> {
    if ctx.reverse_results {
        truncated(rows, ctx).reverse()
    } else {
        truncated(rows, ctx)
    }
}

pub open spec fn page_has_previous<T: AsMaybeStr>(rows: Seq<T>, ctx: SliceContext) -> bool {
    if ctx.reverse_results {
        more_end(rows, ctx)
    } else {
        more_beg(rows, ctx)
    }
}

pub open spec fn page_has_next<T: AsMaybeStr>(rows: Seq<T>, ctx: SliceContext) -> bool {
    if ctx.reverse_results {
        more_beg(rows, ctx)
    } else {
        more_end(rows, ctx)
    }
}

/// One page of items in canonical order, with its boundary flags.
#[derive(Debug, Default, Clone, PartialEq, Eq, Hash)]
pub struct ResultSlice<T> {
    pub results: Vec<T>,
    pub has_previous_page: bool,
    pub has_next_page: bool,
}

/// Whether `row` is the item that `key` names.
fn row_is_at<T: AsMaybeStr>(row: &T, key: &Option<String>) -> (at: bool)
    ensures
        at == is_at(*row, text_of(*key)),
{
    match key {
        Some(key) => match row.as_maybe_str() {
            Some(text) => str_eq(text, key.as_str()),
            None => false,
        },
        None => false,
    }
}

/// The items of `items` in reverse order.
pub(crate) fn reversed<T>(items: Vec<T>) -> (out: Vec<T>)
    ensures
        out@ == items@.reverse(),
{
    let ghost all = items@;
    let mut items = items;
    let mut out: Vec<T> = Vec::new();
    while items.len() > 0
        invariant
            items@.len() + out@.len() == all.len(),
            items@ == all.take(items@.len() as int),
            forall|i: int| 0 <= i < out@.len() ==> out@[i] == all[all.len() - 1 - i],
        decreases items@.len(),
    {
        let item = items.pop();
        if let Some(item) = item {
            out.push(item);
        }
    }
    assert(out@ =~= all.reverse());
    out
}

impl<T: AsMaybeStr> ResultSlice<T> {
    /// Cuts the page out of `results`, the rows fetched for a request, in the order they
    /// were fetched in. A first row at the start boundary and a last row at the end
    /// boundary are sentinels: they are dropped, and each shows that there is more on its
    /// side. What is left is cut to the page size; a row cut off shows that there is more
    /// beyond the end.
    pub fn new(results: Vec<T>, opts: ResultSliceOptions) -> (slice: ResultSlice<T>)
        ensures
            slice.results@ == page_items(results@, opts@),
            slice.has_previous_page == page_has_previous(results@, opts@),
            slice.has_next_page == page_has_next(results@, opts@),
    {
        let ghost rows = results@;
        let ghost ctx = opts@;
        let ResultSliceOptions { reverse_results, limit, after, before } = opts;
        let (beg_cursor, end_cursor) = if reverse_results {
            (before, after)
        } else {
            (after, before)
        };
        assert(text_of(beg_cursor) == ctx.beg_key());
        assert(text_of(end_cursor) == ctx.end_key());

        let mut results = results;
        let size = results.len();
        let mut has_more_beg = false;
        let mut has_more_end = false;
        if size > 0 {
            has_more_beg = row_is_at(&results[0], &beg_cursor);
            has_more_end = row_is_at(&results[size - 1], &end_cursor);
        }
        assert(has_more_beg == starts_on(rows, ctx.beg_key()));
        assert(has_more_end == ends_on(rows, ctx.end_key()));

        if has_more_end {
            results.pop();
        }
        if has_more_beg && results.len() > 0 {
            results.remove(0);
        }
        assert(results@ =~= retained(rows, ctx.beg_key(), ctx.end_key()));

        let kept = results.len();
        if 0 <= limit && (limit as u64) < (kept as u64) {
            results.truncate(limit as usize);
        }
        assert(results@ =~= truncated(rows, ctx));

        let found: usize = if has_more_beg && has_more_end {
            2
        } else if has_more_beg || has_more_end {
            1
        } else {
            0
        };
        if results.len() + found < size {
            has_more_end = true;
        }
        assert(has_more_end == more_end(rows, ctx));

        if reverse_results {
            ResultSlice {
                results: reversed(results),
                has_previous_page: has_more_end,
                has_next_page: has_more_beg,
            }
        } else {
            ResultSlice { results, has_previous_page: has_more_beg, has_next_page: has_more_end }
        }
    }
}

} // verus!
