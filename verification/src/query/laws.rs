//! What holds of every page: which items of the collection it holds, what its two flags
//! say, and what a walk through all pages gives.
//!
//! The laws of one page are stated for every page of a size that is not negative, as the
//! slicer is told of it; the page of a request is one of them.

use vstd::prelude::*;
use vstd::relations::total_ordering;
use crate::conv::AsMaybeStr;
use crate::query::model::{
    backward_pages, backward_request, canonical, followed, forward_pages, forward_request,
    has_key, insider, key_of_row, matcher, ordered, preceded, reached, row_inside, row_matches,
    rows_for, served_has_next, served_has_previous, served_items, served_len, window,
    KeyOrder,
};
use crate::query::pagination::{PaginationDirection, Request, MAX_LIMIT};
use crate::query::slice::{
    ends_on, more_beg, more_end, page_items, retained, sentinels, starts_on, truncated,
    SliceContext,
};
use crate::query::window::{keeps_stretch, lemma_filter_stretch, lemma_matching_stretch};

verus! {

/// The stretch `lo..hi` of `data` holds the rows within the bounds of `ctx`, the bounds
/// included.
pub open spec fn is_closed_window<T: AsMaybeStr>(
    data: Seq<T>,
    le: KeyOrder,
    ctx: SliceContext,
    table: Seq<char>,
    lo: int,
    hi: int,
) -> bool {
    keeps_stretch(data, matcher::<T>(ctx.range(table), le), lo, hi)
}

/// The item that `after` names is in the collection and within the bounds: it is the
/// first row of the closed window.
pub open spec fn after_found<T: AsMaybeStr>(data: Seq<T>, ctx: SliceContext, lo: int, hi: int) -> bool {
    lo < hi && ctx.after is Some && data[lo].maybe_str() == ctx.after
}

/// The item that `before` names is in the collection and within the bounds: it is the
/// last row of the closed window.
pub open spec fn before_found<T: AsMaybeStr>(data: Seq<T>, ctx: SliceContext, lo: int, hi: int) -> bool {
    lo < hi && ctx.before is Some && data[hi - 1].maybe_str() == ctx.before
}

/// Where the rows strictly between the bounds start.
pub open spec fn open_lo<T: AsMaybeStr>(data: Seq<T>, ctx: SliceContext, lo: int, hi: int) -> int {
    if after_found(data, ctx, lo, hi) {
        lo + 1
    } else {
        lo
    }
}

/// Where the rows strictly between the bounds end.
pub open spec fn open_hi<T: AsMaybeStr>(data: Seq<T>, ctx: SliceContext, lo: int, hi: int) -> int {
    let end = if before_found(data, ctx, lo, hi) {
        hi - 1
    } else {
        hi
    };
    if end < open_lo(data, ctx, lo, hi) {
        open_lo(data, ctx, lo, hi)
    } else {
        end
    }
}

/// Within the closed window, only its first row can be the item that `after` names, and
/// only its last row the item that `before` names.
proof fn lemma_boundaries_at_ends<T: AsMaybeStr>(
    data: Seq<T>,
    le: KeyOrder,
    ctx: SliceContext,
    table: Seq<char>,
    lo: int,
    hi: int,
)
    requires
        total_ordering(le),
        canonical(data, le),
        is_closed_window(data, le, ctx, table, lo, hi),
    ensures
        forall|i: int|
            lo <= i < hi && ctx.after is Some && (#[trigger] data[i]).maybe_str() == ctx.after
                ==> i == lo,
        forall|i: int|
            lo <= i < hi && ctx.before is Some && (#[trigger] data[i]).maybe_str() == ctx.before
                ==> i == hi - 1,
{
    let keep = matcher::<T>(ctx.range(table), le);
    assert forall|i: int|
        lo <= i < hi && ctx.after is Some && (#[trigger] data[i]).maybe_str()
            == ctx.after implies i == lo by {
        if lo < i {
            assert(keep(data[lo]));
            assert(row_matches(data[lo], ctx.range(table), le));
            let after = ctx.after.unwrap();
            assert(le(key_of_row(data[lo]), after));
            assert(le(key_of_row(data[i]), key_of_row(data[lo])));
            assert(key_of_row(data[i]) != key_of_row(data[lo]));
        }
    }
    assert forall|i: int|
        lo <= i < hi && ctx.before is Some && (#[trigger] data[i]).maybe_str()
            == ctx.before implies i == hi - 1 by {
        if i < hi - 1 {
            assert(keep(data[hi - 1]));
            assert(row_matches(data[hi - 1], ctx.range(table), le));
            let before = ctx.before.unwrap();
            assert(le(before, key_of_row(data[hi - 1])));
            assert(le(key_of_row(data[hi - 1]), key_of_row(data[i])));
            assert(key_of_row(data[i]) != key_of_row(data[hi - 1]));
        }
    }
}

/// The rows fetched for a page are the start of its closed window, in the order of the
/// query, as far as the limit of the query reaches.
proof fn lemma_rows_span<T: AsMaybeStr>(
    data: Seq<T>,
    le: KeyOrder,
    ctx: SliceContext,
    table: Seq<char>,
) -> (span: (int, int))
    requires
        total_ordering(le),
        canonical(data, le),
        ctx.limit >= 0,
    ensures
        is_closed_window(data, le, ctx, table, span.0, span.1),
        !ctx.reverse_results ==> rows_for(data, le, ctx, table) == data.subrange(
            span.0,
            if span.0 + ctx.limit + 2 < span.1 {
                span.0 + ctx.limit + 2
            } else {
                span.1
            },
        ),
        ctx.reverse_results ==> rows_for(data, le, ctx, table) == data.subrange(
            if span.0 < span.1 - ctx.limit - 2 {
                span.1 - ctx.limit - 2
            } else {
                span.0
            },
            span.1,
        ).reverse(),
{
    let keep = matcher::<T>(ctx.range(table), le);
    let (lo, hi) = lemma_matching_stretch(data, le, ctx.range(table));
    let plan = ctx.plan(table);
    assert(plan.ascending() == ctx.reverse_results);
    assert(plan.limit == Some(ctx.limit + 2));
    assert(ctx.limit >= 0);
    if ctx.reverse_results {
        let n = data.len() as int;
        let q = data.reverse();
        assert(ordered(data, true) == q);
        assert forall|i: int| 0 <= i < q.len() implies (keep(#[trigger] q[i]) <==> n - hi <= i < n
            - lo) by {
            assert(q[i] == data[n - 1 - i]);
        }
        lemma_filter_stretch(q, keep, n - hi, n - lo);
        let s = if lo < hi - ctx.limit - 2 {
            hi - ctx.limit - 2
        } else {
            lo
        };
        assert(rows_for(data, le, ctx, table) =~= data.subrange(s, hi).reverse());
    } else {
        assert(ordered(data, false) == data);
        let e = if lo + ctx.limit + 2 < hi {
            lo + ctx.limit + 2
        } else {
            hi
        };
        assert(rows_for(data, le, ctx, table) =~= data.subrange(lo, e));
    }
    (lo, hi)
}

/// A page that is counted from the start: the first items strictly between
/// the bounds. There is a page before it exactly if the item that `after` names was
/// found, and one after it exactly if the item that `before` names was found or items
/// between the bounds are left over.
proof fn lemma_forward_page<T: AsMaybeStr>(
    data: Seq<T>,
    le: KeyOrder,
    ctx: SliceContext,
    table: Seq<char>,
) -> (span: (int, int))
    requires
        total_ordering(le),
        canonical(data, le),
        ctx.limit >= 0,
        !ctx.reverse_results,
    ensures
        is_closed_window(data, le, ctx, table, span.0, span.1),
        ({
            let (lo, hi) = span;
            let from = open_lo(data, ctx, lo, hi);
            let to = open_hi(data, ctx, lo, hi);
            &&& served_items(data, le, ctx, table) == data.subrange(
                from,
                from + served_len(ctx, to - from),
            )
            &&& served_has_previous(data, le, ctx, table) == after_found(data, ctx, lo, hi)
            &&& served_has_next(data, le, ctx, table) == (before_found(data, ctx, lo, hi) || to
                - from > ctx.limit)
        }),
{
    let (lo, hi) = lemma_rows_span(data, le, ctx, table);
    lemma_boundaries_at_ends(data, le, ctx, table, lo, hi);
    let limit = ctx.limit;
    let ctx = ctx;
    let rows = rows_for(data, le, ctx, table);
    let e = if lo + limit + 2 < hi {
        lo + limit + 2
    } else {
        hi
    };
    assert(rows == data.subrange(lo, e));
    assert(ctx.beg_key() == ctx.after && ctx.end_key() == ctx.before && ctx.limit == limit);
    let from = open_lo(data, ctx, lo, hi);
    let to = open_hi(data, ctx, lo, hi);
    if lo < hi {
        assert(rows.first() == data[lo]);
        assert(rows.last() == data[e - 1]);
        assert(data[lo].maybe_str() is Some);
        assert(data[e - 1].maybe_str() is Some);
        assert(data[hi - 1].maybe_str() is Some);
    }
    assert(starts_on(rows, ctx.after) == after_found(data, ctx, lo, hi));
    assert(ends_on(rows, ctx.before) == (before_found(data, ctx, lo, hi) && e == hi));
    let kept = retained(rows, ctx.after, ctx.before);
    let a: int = if starts_on(rows, ctx.after) { 1 } else { 0 };
    let b: int = if ends_on(rows, ctx.before) { 1 } else { 0 };
    assert(kept =~= data.subrange(
        lo + a,
        if e - b < lo + a {
            lo + a
        } else {
            e - b
        },
    ));
    assert(truncated(rows, ctx) =~= data.subrange(from, from + served_len(ctx, to - from)));
    assert(sentinels(rows, ctx.after, ctx.before) == a + b);
    (lo, hi)
}

/// The slicer on rows that are a stretch of the collection, fetched in reverse: what
/// is retained is the stretch without its two ends where they are sentinels, and the page
/// is the end of that.
proof fn lemma_slice_reversed<T: AsMaybeStr>(data: Seq<T>, s: int, hi: int, ctx: SliceContext)
    requires
        0 <= s <= hi <= data.len(),
        ctx.reverse_results,
        ctx.limit >= 0,
    ensures
        ({
            let rows = data.subrange(s, hi).reverse();
            let b: int = if starts_on(rows, ctx.beg_key()) { 1 } else { 0 };
            let a: int = if ends_on(rows, ctx.end_key()) { 1 } else { 0 };
            let top = hi - b;
            let bottom = if top < s + a { top } else { s + a };
            let n = if ctx.limit < top - bottom { ctx.limit } else { top - bottom };
            &&& page_items(rows, ctx) == data.subrange(top - n, top)
            &&& more_beg(rows, ctx) == (b == 1)
            &&& more_end(rows, ctx) == (a == 1 || top - bottom > ctx.limit)
        }),
{
    let rows = data.subrange(s, hi).reverse();
    let b: int = if starts_on(rows, ctx.beg_key()) { 1 } else { 0 };
    let a: int = if ends_on(rows, ctx.end_key()) { 1 } else { 0 };
    let top = hi - b;
    let bottom = if top < s + a { top } else { s + a };
    let n = if ctx.limit < top - bottom { ctx.limit } else { top - bottom };
    let kept = retained(rows, ctx.beg_key(), ctx.end_key());
    assert(rows.len() == hi - s);
    assert(kept =~= data.subrange(bottom, top).reverse());
    assert(kept.len() == top - bottom);
    assert(truncated(rows, ctx) =~= data.subrange(top - n, top).reverse());
    assert(truncated(rows, ctx).reverse() =~= data.subrange(top - n, top));
    assert(sentinels(rows, ctx.beg_key(), ctx.end_key()) == a + b);
}

/// A page that is counted from the end: the last items strictly between the
/// bounds. There is a page after it exactly if the item that `before` names was found,
/// and one before it exactly if the item that `after` names was found or items between
/// the bounds are left over.
proof fn lemma_backward_page<T: AsMaybeStr>(
    data: Seq<T>,
    le: KeyOrder,
    ctx: SliceContext,
    table: Seq<char>,
) -> (span: (int, int))
    requires
        total_ordering(le),
        canonical(data, le),
        ctx.limit >= 0,
        ctx.reverse_results,
    ensures
        is_closed_window(data, le, ctx, table, span.0, span.1),
        ({
            let (lo, hi) = span;
            let from = open_lo(data, ctx, lo, hi);
            let to = open_hi(data, ctx, lo, hi);
            &&& served_items(data, le, ctx, table) == data.subrange(
                to - served_len(ctx, to - from),
                to,
            )
            &&& served_has_next(data, le, ctx, table) == before_found(data, ctx, lo, hi)
            &&& served_has_previous(data, le, ctx, table) == (after_found(data, ctx, lo, hi) || to
                - from > ctx.limit)
        }),
{
    let (lo, hi) = lemma_rows_span(data, le, ctx, table);
    lemma_boundaries_at_ends(data, le, ctx, table, lo, hi);
    let limit = ctx.limit;
    let ctx = ctx;
    let rows = rows_for(data, le, ctx, table);
    let s = if lo < hi - limit - 2 {
        hi - limit - 2
    } else {
        lo
    };
    assert(rows == data.subrange(s, hi).reverse());
    assert(ctx.beg_key() == ctx.before && ctx.end_key() == ctx.after && ctx.limit == limit);
    let from = open_lo(data, ctx, lo, hi);
    let to = open_hi(data, ctx, lo, hi);
    if lo < hi {
        assert(rows.first() == data[hi - 1]);
        assert(rows.last() == data[s]);
        assert(data[lo].maybe_str() is Some);
        assert(data[s].maybe_str() is Some);
        assert(data[hi - 1].maybe_str() is Some);
    }
    assert(starts_on(rows, ctx.before) == before_found(data, ctx, lo, hi));
    assert(ends_on(rows, ctx.after) == (after_found(data, ctx, lo, hi) && s == lo));
    lemma_slice_reversed(data, s, hi, ctx);
    (lo, hi)
}

/// The rows strictly between the bounds are the closed window without the boundary
/// items, and a boundary item is found exactly if it is reached.
proof fn lemma_open_window<T: AsMaybeStr>(
    data: Seq<T>,
    le: KeyOrder,
    ctx: SliceContext,
    table: Seq<char>,
    lo: int,
    hi: int,
)
    requires
        total_ordering(le),
        canonical(data, le),
        is_closed_window(data, le, ctx, table, lo, hi),
    ensures
        window(data, le, ctx) == data.subrange(
            open_lo(data, ctx, lo, hi),
            open_hi(data, ctx, lo, hi),
        ),
        after_found(data, ctx, lo, hi) == reached(data, le, ctx, ctx.after),
        before_found(data, ctx, lo, hi) == reached(data, le, ctx, ctx.before),
{
    lemma_boundaries_at_ends(data, le, ctx, table, lo, hi);
    let keep = matcher::<T>(ctx.range(table), le);
    let inside = insider::<T>(le, ctx);
    let from = open_lo(data, ctx, lo, hi);
    let to = open_hi(data, ctx, lo, hi);
    assert forall|i: int| 0 <= i < data.len() implies (inside(#[trigger] data[i]) <==> from <= i
        < to) by {
        let key = key_of_row(data[i]);
        assert(data[i].maybe_str() == Some(key));
        assert(keep(data[i]) == row_matches(data[i], ctx.range(table), le));
        assert(inside(data[i]) == row_inside(data[i], le, ctx));
        assert(row_inside(data[i], le, ctx) == (row_matches(data[i], ctx.range(table), le)
            && ctx.after != Some(key) && ctx.before != Some(key)));
    }
    lemma_filter_stretch(data, inside, from, to);
    if reached(data, le, ctx, ctx.after) {
        let after = ctx.after.unwrap();
        let i = choose|i: int| 0 <= i < data.len() && (#[trigger] data[i]).maybe_str() == Some(after);
        assert(le(after, after));
        assert(row_matches(data[i], ctx.range(table), le));
        assert(keep(data[i]));
    }
    if after_found(data, ctx, lo, hi) {
        assert(keep(data[lo]));
        assert(row_matches(data[lo], ctx.range(table), le));
    }
    if reached(data, le, ctx, ctx.before) {
        let before = ctx.before.unwrap();
        let i = choose|i: int| 0 <= i < data.len() && (#[trigger] data[i]).maybe_str() == Some(before);
        assert(le(before, before));
        assert(row_matches(data[i], ctx.range(table), le));
        assert(keep(data[i]));
    }
    if before_found(data, ctx, lo, hi) {
        assert(keep(data[hi - 1]));
        assert(row_matches(data[hi - 1], ctx.range(table), le));
    }
}

/// Every page holds the items of its window, counted from its side: of the rows strictly
/// between the two boundary keys, the first ones for a page that is counted from the
/// start, the last ones for one that is counted from the end, as many as the page size
/// allows, in canonical order. It holds whether or not the
/// items that the boundary keys name are still in the collection.
///
/// The page before it exists exactly if the item that `after` names is reached, and the
/// page after it exactly if the item that `before` names is reached; on the side that
/// the page is not counted from, also if the window holds more than the page.
pub proof fn lemma_page_served<T: AsMaybeStr>(
    data: Seq<T>,
    le: KeyOrder,
    ctx: SliceContext,
    table: Seq<char>,
)
    requires
        total_ordering(le),
        canonical(data, le),
        ctx.limit >= 0,
    ensures
        ({
            let inside = window(data, le, ctx);
            let n = served_len(ctx, inside.len() as int);
            let more = inside.len() > ctx.limit;
            &&& !ctx.reverse_results ==> {
                &&& served_items(data, le, ctx, table) == inside.subrange(0, n)
                &&& served_has_previous(data, le, ctx, table) == reached(data, le, ctx, ctx.after)
                &&& served_has_next(data, le, ctx, table) == (reached(
                    data,
                    le,
                    ctx,
                    ctx.before,
                ) || more)
            }
            &&& ctx.reverse_results ==> {
                &&& served_items(data, le, ctx, table) == inside.subrange(
                    inside.len() - n,
                    inside.len() as int,
                )
                &&& served_has_previous(data, le, ctx, table) == (reached(
                    data,
                    le,
                    ctx,
                    ctx.after,
                ) || more)
                &&& served_has_next(data, le, ctx, table) == reached(data, le, ctx, ctx.before)
            }
        }),
{
    let inside = window(data, le, ctx);
    if ctx.reverse_results {
        let (lo, hi) = lemma_backward_page(data, le, ctx, table);
        lemma_open_window(data, le, ctx, table, lo, hi);
        let from = open_lo(data, ctx, lo, hi);
        let to = open_hi(data, ctx, lo, hi);
        let n = served_len(ctx, to - from);
        assert(inside.subrange(inside.len() - n, inside.len() as int) =~= data.subrange(
            to - n,
            to,
        ));
    } else {
        let (lo, hi) = lemma_forward_page(data, le, ctx, table);
        lemma_open_window(data, le, ctx, table, lo, hi);
        let from = open_lo(data, ctx, lo, hi);
        let to = open_hi(data, ctx, lo, hi);
        let n = served_len(ctx, to - from);
        assert(inside.subrange(0, n) =~= data.subrange(from, from + n));
    }
}

/// In a canonical collection an item comes before the one at `p` exactly if `p` is not
/// the first place, and one comes after it exactly if `p` is not the last.
proof fn lemma_neighbours<T: AsMaybeStr>(data: Seq<T>, le: KeyOrder, p: int)
    requires
        total_ordering(le),
        canonical(data, le),
        0 <= p < data.len(),
    ensures
        preceded(data, le, data[p]) == (p > 0),
        followed(data, le, data[p]) == (p < data.len() - 1),
{
    let key = key_of_row(data[p]);
    if p > 0 {
        assert(le(key, key_of_row(data[0])) && key_of_row(data[0]) != key);
    }
    if p < data.len() - 1 {
        let last = data.len() - 1;
        assert(le(key_of_row(data[last]), key) && key_of_row(data[last]) != key);
    }
    if preceded(data, le, data[p]) {
        let i = choose|i: int|
            0 <= i < data.len() && le(key, key_of_row(#[trigger] data[i])) && key_of_row(data[i])
                != key;
        if p < i {
            assert(le(key_of_row(data[i]), key));
        }
        assert(i < p);
    }
    if followed(data, le, data[p]) {
        let i = choose|i: int|
            0 <= i < data.len() && le(key_of_row(#[trigger] data[i]), key) && key_of_row(data[i])
                != key;
        if i < p {
            assert(le(key, key_of_row(data[i])));
        }
        assert(p < i);
    }
}

/// Where the closed window of a page lies when the page is not empty: it starts at
/// the start of the collection if `after` is not given and at the item that `after`
/// names if that is in the collection, and likewise at its end.
proof fn lemma_window_ends<T: AsMaybeStr>(
    data: Seq<T>,
    le: KeyOrder,
    ctx: SliceContext,
    table: Seq<char>,
    lo: int,
    hi: int,
)
    requires
        total_ordering(le),
        canonical(data, le),
        is_closed_window(data, le, ctx, table, lo, hi),
        open_lo(data, ctx, lo, hi) < open_hi(data, ctx, lo, hi),
        ctx.after matches Some(after) ==> has_key(data, after),
        ctx.before matches Some(before) ==> has_key(data, before),
    ensures
        ctx.after is None ==> lo == 0,
        ctx.after is Some ==> after_found(data, ctx, lo, hi),
        ctx.before is None ==> hi == data.len(),
        ctx.before is Some ==> before_found(data, ctx, lo, hi),
{
    lemma_boundaries_at_ends(data, le, ctx, table, lo, hi);
    lemma_open_window(data, le, ctx, table, lo, hi);
    let keep = matcher::<T>(ctx.range(table), le);
    let from = open_lo(data, ctx, lo, hi);
    let inside = insider::<T>(le, ctx);
    let row = data[from];
    let key = key_of_row(row);
    assert(keep(row));
    assert(row_matches(row, ctx.range(table), le));
    assert(window(data, le, ctx)[0] == row);
    assert(data.subrange(from, open_hi(data, ctx, lo, hi))[0] == row);
    if ctx.after is Some && ctx.before is Some {
        let after = ctx.after.unwrap();
        let before = ctx.before.unwrap();
        assert(le(before, key) && le(key, after));
        assert(le(before, after));
    }
    if ctx.after is None {
        if lo > 0 {
            assert(keep(data[lo]));
            assert(row_matches(data[lo], ctx.range(table), le));
            assert(le(key_of_row(data[lo]), key_of_row(data[0])));
            assert(row_matches(data[0], ctx.range(table), le));
            assert(keep(data[0]));
        }
    } else {
        assert(reached(data, le, ctx, ctx.after)) by {
            let after = ctx.after.unwrap();
            assert(le(after, after));
        }
    }
    if ctx.before is None {
        if hi < data.len() {
            let last = data.len() - 1;
            assert(keep(data[hi - 1]));
            assert(row_matches(data[hi - 1], ctx.range(table), le));
            assert(le(key_of_row(data[last]), key_of_row(data[hi - 1])));
            assert(row_matches(data[last], ctx.range(table), le));
            assert(keep(data[last]));
        }
    } else {
        assert(reached(data, le, ctx, ctx.before)) by {
            let before = ctx.before.unwrap();
            assert(le(before, before));
        }
    }
}

/// The two flags of a page say what lies beyond it: `hasPreviousPage` holds exactly if an
/// item of the collection comes before the first item of the page, and `hasNextPage`
/// exactly if one comes after its last item. This is so for every page that holds an
/// item, of whatever size and from whichever side it is counted, provided the items
/// that its boundary keys name are in the collection; of a boundary item that is gone
/// the flag on its side says nothing.
pub proof fn lemma_boundary_flags<T: AsMaybeStr>(
    data: Seq<T>,
    le: KeyOrder,
    ctx: SliceContext,
    table: Seq<char>,
)
    requires
        total_ordering(le),
        canonical(data, le),
        ctx.limit >= 0,
        ctx.after matches Some(after) ==> has_key(data, after),
        ctx.before matches Some(before) ==> has_key(data, before),
        served_items(data, le, ctx, table).len() > 0,
    ensures
        served_has_previous(data, le, ctx, table) == preceded(
            data,
            le,
            served_items(data, le, ctx, table).first(),
        ),
        served_has_next(data, le, ctx, table) == followed(
            data,
            le,
            served_items(data, le, ctx, table).last(),
        ),
{
    let items = served_items(data, le, ctx, table);
    if ctx.reverse_results {
        let (lo, hi) = lemma_backward_page(data, le, ctx, table);
        let from = open_lo(data, ctx, lo, hi);
        let to = open_hi(data, ctx, lo, hi);
        let n = served_len(ctx, to - from);
        assert(items == data.subrange(to - n, to));
        lemma_window_ends(data, le, ctx, table, lo, hi);
        assert(items.first() == data[to - n]);
        assert(items.last() == data[to - 1]);
        lemma_neighbours(data, le, to - n);
        lemma_neighbours(data, le, to - 1);
    } else {
        let (lo, hi) = lemma_forward_page(data, le, ctx, table);
        let from = open_lo(data, ctx, lo, hi);
        let to = open_hi(data, ctx, lo, hi);
        let n = served_len(ctx, to - from);
        assert(items == data.subrange(from, from + n));
        lemma_window_ends(data, le, ctx, table, lo, hi);
        assert(items.first() == data[from]);
        assert(items.last() == data[from + n - 1]);
        lemma_neighbours(data, le, from);
        lemma_neighbours(data, le, from + n - 1);
    }
}

/// A boundary item that is gone from the collection is tolerated: the page is still the
/// start, or the end, of the rows strictly between the boundary keys. Only the flag on
/// the side of the missing item is affected: the item is not found, so it alone shows no
/// further page there.
pub proof fn lemma_deleted_boundary_tolerated<T: AsMaybeStr>(
    data: Seq<T>,
    le: KeyOrder,
    ctx: SliceContext,
    table: Seq<char>,
)
    requires
        total_ordering(le),
        canonical(data, le),
        ctx.limit >= 0,
    ensures
        ({
            let inside = window(data, le, ctx);
            let n = served_len(ctx, inside.len() as int);
            served_items(data, le, ctx, table) == if ctx.reverse_results {
                inside.subrange(inside.len() - n, inside.len() as int)
            } else {
                inside.subrange(0, n)
            }
        }),
        ctx.after matches Some(after) && !has_key(data, after) && !ctx.reverse_results
            ==> !served_has_previous(data, le, ctx, table),
        ctx.before matches Some(before) && !has_key(data, before) && ctx.reverse_results
            ==> !served_has_next(data, le, ctx, table),
{
    lemma_page_served(data, le, ctx, table);
}

/// The boundary key that stands for the place `j` of a walk forward: none at the start,
/// and else the key of the item before the place.
pub open spec fn after_at<T: AsMaybeStr>(data: Seq<T>, j: int) -> Option<Seq<char>> {
    if j <= 0 {
        None
    } else {
        data[j - 1].maybe_str()
    }
}

/// The boundary key that stands for the place `j` of a walk backward: none at the end,
/// and else the key of the item at the place.
pub open spec fn before_at<T: AsMaybeStr>(data: Seq<T>, j: int) -> Option<Seq<char>> {
    if j >= data.len() {
        None
    } else {
        data[j].maybe_str()
    }
}

/// The page after the place `j`: the items from `j` on, as many as the page size allows,
/// and another page follows exactly if items are left.
proof fn lemma_forward_step<T: AsMaybeStr>(
    data: Seq<T>,
    le: KeyOrder,
    table: Seq<char>,
    size: i64,
    j: int,
)
    requires
        total_ordering(le),
        canonical(data, le),
        size >= 1,
        0 <= j <= data.len(),
    ensures
        ({
            let ctx = forward_request(size, after_at(data, j)).slice_context();
            let n = served_len(ctx, data.len() - j);
            &&& ctx.limit >= 1
            &&& served_items(data, le, ctx, table) == data.subrange(j, j + n)
            &&& served_has_next(data, le, ctx, table) == (data.len() - j > ctx.limit)
        }),
{
    let ctx = forward_request(size, after_at(data, j)).slice_context();
    let keep = matcher::<T>(ctx.range(table), le);
    let (lo, hi) = lemma_forward_page(data, le, ctx, table);
    let len = data.len() as int;
    if j == 0 {
        assert(ctx.range(table) is None);
        if len > 0 {
            assert(keep(data[0]));
            assert(keep(data[len - 1]));
        }
    } else {
        let after = key_of_row(data[j - 1]);
        assert(ctx.after == Some(after));
        assert(le(after, after));
        assert(row_matches(data[j - 1], ctx.range(table), le));
        assert(keep(data[j - 1]));
        assert(row_matches(data[len - 1], ctx.range(table), le));
        assert(keep(data[len - 1]));
        if lo < j - 1 {
            assert(keep(data[lo]));
            assert(row_matches(data[lo], ctx.range(table), le));
            assert(le(key_of_row(data[lo]), after));
            assert(le(after, key_of_row(data[lo])));
        }
        assert(lo == j - 1);
        assert(after_found(data, ctx, lo, hi));
    }
    assert(open_lo(data, ctx, lo, hi) == j);
    assert(open_hi(data, ctx, lo, hi) == len);
}

/// The page before the place `j`: the items up to `j`, as many as the page size allows,
/// and another page comes before it exactly if items are left.
proof fn lemma_backward_step<T: AsMaybeStr>(
    data: Seq<T>,
    le: KeyOrder,
    table: Seq<char>,
    size: i64,
    j: int,
)
    requires
        total_ordering(le),
        canonical(data, le),
        size >= 1,
        0 <= j <= data.len(),
    ensures
        ({
            let ctx = backward_request(size, before_at(data, j)).slice_context();
            let n = served_len(ctx, j);
            &&& ctx.limit >= 1
            &&& served_items(data, le, ctx, table) == data.subrange(j - n, j)
            &&& served_has_previous(data, le, ctx, table) == (j > ctx.limit)
        }),
{
    let ctx = backward_request(size, before_at(data, j)).slice_context();
    let keep = matcher::<T>(ctx.range(table), le);
    let (lo, hi) = lemma_backward_page(data, le, ctx, table);
    let len = data.len() as int;
    if j == len {
        assert(ctx.range(table) is None);
        if len > 0 {
            assert(keep(data[0]));
            assert(keep(data[len - 1]));
        }
    } else {
        let before = key_of_row(data[j]);
        assert(ctx.before == Some(before));
        assert(le(before, before));
        assert(row_matches(data[j], ctx.range(table), le));
        assert(keep(data[j]));
        assert(row_matches(data[0], ctx.range(table), le));
        assert(keep(data[0]));
        if j < hi - 1 {
            assert(keep(data[hi - 1]));
            assert(row_matches(data[hi - 1], ctx.range(table), le));
            assert(le(before, key_of_row(data[hi - 1])));
            assert(le(key_of_row(data[hi - 1]), before));
        }
        assert(hi == j + 1);
        assert(before_found(data, ctx, lo, hi));
    }
    assert(open_lo(data, ctx, lo, hi) == 0);
    assert(open_hi(data, ctx, lo, hi) == j);
}

/// A walk forward from the place `j` gives the collection from `j` on.
proof fn lemma_forward_walk_from<T: AsMaybeStr>(
    data: Seq<T>,
    le: KeyOrder,
    table: Seq<char>,
    size: i64,
    j: int,
    rounds: nat,
)
    requires
        total_ordering(le),
        canonical(data, le),
        size >= 1,
        0 <= j <= data.len(),
        rounds > data.len() - j,
    ensures
        forward_pages(data, le, table, size, after_at(data, j), rounds) == data.subrange(
            j,
            data.len() as int,
        ),
    decreases rounds,
{
    let len = data.len() as int;
    let ctx = forward_request(size, after_at(data, j)).slice_context();
    let items = served_items(data, le, ctx, table);
    lemma_forward_step(data, le, table, size, j);
    let n = served_len(ctx, len - j);
    if items.len() == 0 || !served_has_next(data, le, ctx, table) {
        assert(items =~= data.subrange(j, len));
    } else {
        assert(n == ctx.limit);
        assert(items.last() == data[j + n - 1]);
        assert(items.last().maybe_str() == after_at(data, j + n));
        lemma_forward_walk_from(data, le, table, size, j + n, (rounds - 1) as nat);
        assert(items + data.subrange(j + n, len) =~= data.subrange(j, len));
    }
}

/// A walk backward from the place `j` gives the collection up to `j`.
proof fn lemma_backward_walk_from<T: AsMaybeStr>(
    data: Seq<T>,
    le: KeyOrder,
    table: Seq<char>,
    size: i64,
    j: int,
    rounds: nat,
)
    requires
        total_ordering(le),
        canonical(data, le),
        size >= 1,
        0 <= j <= data.len(),
        rounds > j,
    ensures
        backward_pages(data, le, table, size, before_at(data, j), rounds) == data.subrange(0, j),
    decreases rounds,
{
    let ctx = backward_request(size, before_at(data, j)).slice_context();
    let items = served_items(data, le, ctx, table);
    lemma_backward_step(data, le, table, size, j);
    let n = served_len(ctx, j);
    if items.len() == 0 || !served_has_previous(data, le, ctx, table) {
        assert(items =~= data.subrange(0, j));
    } else {
        assert(n == ctx.limit);
        assert(items.first() == data[j - n]);
        assert(items.first().maybe_str() == before_at(data, j - n));
        lemma_backward_walk_from(data, le, table, size, j - n, (rounds - 1) as nat);
        assert(data.subrange(0, j - n) + items =~= data.subrange(0, j));
    }
}

/// A walk forward through a collection in pages of any size from one up, each page
/// asked for after the last item of the one before, gives every item of the collection
/// once, in canonical order. One request more than the collection has items is always
/// enough.
pub proof fn lemma_forward_walk_complete<T: AsMaybeStr>(
    data: Seq<T>,
    le: KeyOrder,
    table: Seq<char>,
    size: i64,
    rounds: nat,
)
    requires
        total_ordering(le),
        canonical(data, le),
        size >= 1,
        rounds > data.len(),
    ensures
        forward_pages(data, le, table, size, None, rounds) == data,
{
    lemma_forward_walk_from(data, le, table, size, 0, rounds);
    assert(data.subrange(0, data.len() as int) =~= data);
}

/// A walk backward through a collection in pages of any size from one up, each page
/// asked for before the first item of the one before, the pages joined in the reverse
/// of the order they are fetched in, gives every item of the collection once, in
/// canonical order.
pub proof fn lemma_backward_walk_complete<T: AsMaybeStr>(
    data: Seq<T>,
    le: KeyOrder,
    table: Seq<char>,
    size: i64,
    rounds: nat,
)
    requires
        total_ordering(le),
        canonical(data, le),
        size >= 1,
        rounds > data.len(),
    ensures
        backward_pages(data, le, table, size, None, rounds) == data,
{
    lemma_backward_walk_from(data, le, table, size, data.len() as int, rounds);
    assert(data.subrange(0, data.len() as int) =~= data);
}

/// The page of a request that asks for a size that is not negative, or for none, has a
/// size from zero to the largest: the laws of a page hold of it.
pub proof fn lemma_page_size_in_range(req: Request)
    requires
        req.direction matches Some(direction) ==> direction.count() >= 0,
    ensures
        0 <= req.slice_context().limit <= MAX_LIMIT,
        req.direction is None ==> req.slice_context().limit == MAX_LIMIT,
        req.direction matches Some(direction) ==> (direction.count() <= MAX_LIMIT
            ==> req.slice_context().limit == direction.count()),
{
}

/// A page size above the largest is served as the largest: the plan of the request, and
/// with it the rows that are fetched and the page that is cut from them, is the same.
pub proof fn lemma_page_size_clamped(req: Request, table: Seq<char>, size: i64)
    requires
        size >= MAX_LIMIT,
    ensures
        (Request { direction: Some(PaginationDirection::First(size)), ..req }).plan(table) == (
        Request { direction: Some(PaginationDirection::First(MAX_LIMIT)), ..req }).plan(table),
        (Request { direction: Some(PaginationDirection::Last(size)), ..req }).plan(table) == (
        Request { direction: Some(PaginationDirection::Last(MAX_LIMIT)), ..req }).plan(table),
{
}

} // verus!
