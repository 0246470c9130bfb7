//! The collection as the engine sees it: what a range query on a uniquely keyed collection
//! answers, and the page that is served from the answer.
//!
//! Nothing here runs. The order of the keys is left open: whatever total order the
//! collection sorts and compares its keys by, it is the `le` of these definitions.
//!
//! A page is described by what the slicer is told of it: the side it is counted from, its
//! size and its two boundary keys. For a request that is [`Request::slice_context`]; the
//! definitions are made for every such description, whatever its size.

use vstd::prelude::*;
use crate::conv::AsMaybeStr;
use crate::query::pagination::{PaginationDirection, Request};
use crate::query::plan::{Bound, Operator, QueryPlan, Range, SRQL_ORDER_ASC};
use crate::query::slice::{page_has_next, page_has_previous, page_items, SliceContext};

verus! {

/// An order on keys: `le(a, b)` says that `a` is at most `b`.
pub type KeyOrder = spec_fn(Seq<char>, Seq<char>) -> bool;

/// The key of a row that has one.
pub open spec fn key_of_row<T: AsMaybeStr>(row: T) -> Seq<char> {
    row.maybe_str().unwrap()
}

/// `data` is a collection in canonical order: every row has a key, and the keys fall
/// strictly from each row to the next, so that no key occurs twice.
pub open spec fn canonical<T: AsMaybeStr>(data: Seq<T>, le: KeyOrder) -> bool {
    &&& forall|i: int| 0 <= i < data.len() ==> (#[trigger] data[i]).maybe_str() is Some
    &&& forall|i: int, j: int|
        0 <= i < j < data.len() ==> {
            &&& le(key_of_row(data[j]), key_of_row(data[i]))
            &&& key_of_row(#[trigger] data[j]) != key_of_row(#[trigger] data[i])
        }
}

/// `key` is the key of a row of `data`.
pub open spec fn has_key<T: AsMaybeStr>(data: Seq<T>, key: Seq<char>) -> bool {
    exists|i: int| 0 <= i < data.len() && (#[trigger] data[i]).maybe_str() == Some(key)
}

impl Bound {
    /// The bound holds of `key`.
    pub open spec fn admits(self, key: Seq<char>, le: KeyOrder) -> bool {
        match self.op {
            Operator::LessThanOrEqual => le(key, self.key),
            Operator::MoreThanOrEqual => le(self.key, key),
        }
    }
}

impl Range {
    /// The condition holds of `key`.
    pub open spec fn admits(self, key: Seq<char>, le: KeyOrder) -> bool {
        match self {
            Range::Single(bound) => bound.admits(key, le),
            Range::And(upper, lower) => upper.admits(key, le) && lower.admits(key, le),
        }
    }
}

/// `row` has a key, and the condition of the query, where it has one, holds of it.
pub open spec fn row_matches<T: AsMaybeStr>(row: T, cond: Option<Range>, le: KeyOrder) -> bool {
    &&& row.maybe_str() is Some
    &&& cond matches Some(range) ==> range.admits(key_of_row(row), le)
}

/// [`row_matches`] as a predicate on rows.
pub open spec fn matcher<T: AsMaybeStr>(cond: Option<Range>, le: KeyOrder) -> spec_fn(T) -> bool {
    |row: T| row_matches(row, cond, le)
}

impl QueryPlan {
    /// The plan asks for ascending order.
    pub open spec fn ascending(self) -> bool {
        self.order matches Some(sort) && sort.direction == SRQL_ORDER_ASC
    }
}

/// The collection in the order that the plan asks for.
pub open spec fn ordered<T>(data: Seq<T>, ascending: bool) -> Seq<T> {
    if ascending {
        data.reverse()
    } else {
        data
    }
}

/// The first `limit` of `rows`, and all of them where there are no more or no limit is
/// set.
pub open spec fn limited<T>(rows: Seq<T>, limit: Option<int>) -> Seq<T> {
    match limit {
        Some(n) => if 0 <= n < rows.len() {
            rows.take(n)
        } else if n < 0 {
            Seq::empty()
        } else {
            rows
        },
        None => rows,
    }
}

/// What the collection `data` answers to `plan`: the rows that match the condition, in
/// the order asked for, up to the limit.
pub open spec fn fetch<T: AsMaybeStr>(data: Seq<T>, le: KeyOrder, plan: QueryPlan) -> Seq<T> {
    limited(ordered(data, plan.ascending()).filter(matcher(plan.cond, le)), plan.limit)
}

/// The rows that are fetched for the page `ctx` on the collection `data`, stored as
/// `table`.
pub open spec fn rows_for<T: AsMaybeStr>(
    data: Seq<T>,
    le: KeyOrder,
    ctx: SliceContext,
    table: Seq<char>,
) -> Seq<T> {
    fetch(data, le, ctx.plan(table))
}

/// The items of the page `ctx`, as it is served.
pub open spec fn served_items<T: AsMaybeStr>(
    data: Seq<T>,
    le: KeyOrder,
    ctx: SliceContext,
    table: Seq<char>,
) -> Seq<T> {
    page_items(rows_for(data, le, ctx, table), ctx)
}

/// The `hasPreviousPage` flag of the page `ctx`, as it is served.
pub open spec fn served_has_previous<T: AsMaybeStr>(
    data: Seq<T>,
    le: KeyOrder,
    ctx: SliceContext,
    table: Seq<char>,
) -> bool {
    page_has_previous(rows_for(data, le, ctx, table), ctx)
}

/// The `hasNextPage` flag of the page `ctx`, as it is served.
pub open spec fn served_has_next<T: AsMaybeStr>(
    data: Seq<T>,
    le: KeyOrder,
    ctx: SliceContext,
    table: Seq<char>,
) -> bool {
    page_has_next(rows_for(data, le, ctx, table), ctx)
}

/// `key` lies strictly between the two boundary keys of `ctx`, as far as they are given:
/// strictly below `after` and strictly above `before`.
pub open spec fn strictly_inside(le: KeyOrder, ctx: SliceContext, key: Seq<char>) -> bool {
    &&& ctx.after matches Some(after) ==> le(key, after) && key != after
    &&& ctx.before matches Some(before) ==> le(before, key) && key != before
}

/// `row` has a key that lies strictly between the two boundary keys of `ctx`.
pub open spec fn row_inside<T: AsMaybeStr>(row: T, le: KeyOrder, ctx: SliceContext) -> bool {
    row.maybe_str() is Some && strictly_inside(le, ctx, key_of_row(row))
}

/// [`row_inside`] as a predicate on rows.
pub open spec fn insider<T: AsMaybeStr>(le: KeyOrder, ctx: SliceContext) -> spec_fn(T) -> bool {
    |row: T| row_inside(row, le, ctx)
}

/// The window of the page `ctx`: the rows of `data` whose keys lie strictly between the two
/// boundary keys, in canonical order.
pub open spec fn window<T: AsMaybeStr>(data: Seq<T>, le: KeyOrder, ctx: SliceContext) -> Seq<T> {
    data.filter(insider::<T>(le, ctx))
}

/// The boundary `key` of the page `ctx` names an item that its query reaches: an item of
/// the collection that is not beyond the other boundary.
pub open spec fn reached<T: AsMaybeStr>(
    data: Seq<T>,
    le: KeyOrder,
    ctx: SliceContext,
    key: Option<Seq<char>>,
) -> bool {
    &&& key matches Some(key)
    &&& has_key(data, key)
    &&& ctx.after matches Some(after) ==> le(key, after)
    &&& ctx.before matches Some(before) ==> le(before, key)
}

/// How many items the page `ctx` holds where `inside` items lie in its window.
pub open spec fn served_len(ctx: SliceContext, inside: int) -> int {
    if ctx.limit < inside {
        ctx.limit
    } else {
        inside
    }
}

/// The request for the `size` items after `after`, with no other bound.
pub open spec fn forward_request(size: i64, after: Option<Seq<char>>) -> Request {
    Request { direction: Some(PaginationDirection::First(size)), after, before: None }
}

/// The request for the `size` items before `before`, with no other bound.
pub open spec fn backward_request(size: i64, before: Option<Seq<char>>) -> Request {
    Request { direction: Some(PaginationDirection::Last(size)), after: None, before }
}

/// A walk forward through the collection in pages of `size`: the page after `after`,
/// then the page after its last item, and so on while a page says that another follows,
/// for `rounds` requests at most. The pages are joined in the order they are fetched in.
pub open spec fn forward_pages<T: AsMaybeStr>(
    data: Seq<T>,
    le: KeyOrder,
    table: Seq<char>,
    size: i64,
    after: Option<Seq<char>>,
    rounds: nat,
) -> Seq<T>
    decreases rounds,
{
    if rounds == 0 {
        Seq::empty()
    } else {
        let ctx = forward_request(size, after).slice_context();
        let items = served_items(data, le, ctx, table);
        if items.len() == 0 || !served_has_next(data, le, ctx, table) {
            items
        } else {
            items + forward_pages(
                data,
                le,
                table,
                size,
                items.last().maybe_str(),
                (rounds - 1) as nat,
            )
        }
    }
}

/// A walk backward through the collection in pages of `size`: the page before `before`,
/// then the page before its first item, and so on while a page says that another comes
/// before it, for `rounds` requests at most. The pages are joined in the reverse of the
/// order they are fetched in.
pub open spec fn backward_pages<T: AsMaybeStr>(
    data: Seq<T>,
    le: KeyOrder,
    table: Seq<char>,
    size: i64,
    before: Option<Seq<char>>,
    rounds: nat,
) -> Seq<T>
    decreases rounds,
{
    if rounds == 0 {
        Seq::empty()
    } else {
        let ctx = backward_request(size, before).slice_context();
        let items = served_items(data, le, ctx, table);
        if items.len() == 0 || !served_has_previous(data, le, ctx, table) {
            items
        } else {
            backward_pages(
                data,
                le,
                table,
                size,
                items.first().maybe_str(),
                (rounds - 1) as nat,
            ) + items
        }
    }
}

/// An item of `data` comes before `row` in canonical order.
pub open spec fn preceded<T: AsMaybeStr>(data: Seq<T>, le: KeyOrder, row: T) -> bool {
    exists|i: int|
        0 <= i < data.len() && le(key_of_row(row), key_of_row(#[trigger] data[i])) && key_of_row(
            data[i],
        ) != key_of_row(row)
}

/// An item of `data` comes after `row` in canonical order.
pub open spec fn followed<T: AsMaybeStr>(data: Seq<T>, le: KeyOrder, row: T) -> bool {
    exists|i: int|
        0 <= i < data.len() && le(key_of_row(#[trigger] data[i]), key_of_row(row)) && key_of_row(
            data[i],
        ) != key_of_row(row)
}

} // verus!
