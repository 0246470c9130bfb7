//! The query planner: from a validated request to the one range query that serves it.
//!
//! The collection is kept in descending order of its key. A page that is counted from the
//! end of the window is fetched in ascending order and turned round by the slicer.

use vstd::prelude::*;
use vstd::std_specs::convert::FromSpecImpl;
use crate::query::pagination::{PaginationDirection, PaginationInput, Request, MAX_LIMIT, PAGE_EXTRA};
use crate::query::slice::{ResultSliceOptions, SliceContext};

verus! {

pub const SRQL_ORDER_ASC: bool = true;

pub const SRQL_ORDER_DESC: bool = false;

/// How a key is held against a bound.
#[derive(Debug, Clone, Copy, PartialEq, Eq, Hash, Structural)]
pub enum Operator {
    LessThanOrEqual,
    MoreThanOrEqual,
}

/// One bound on the key field: `field op table:key`.
#[derive(Debug, Clone, PartialEq, Eq, Hash)]
pub struct Comparison {
    pub field: String,
    pub op: Operator,
    pub table: String,
    pub key: String,
}

/// The range condition of a query: one bound, or both.
#[derive(Debug, Clone, PartialEq, Eq, Hash)]
pub enum Cond {
    Single(Comparison),
    And(Comparison, Comparison),
}

/// The order in which a query returns its rows.
#[derive(Debug, Clone, PartialEq, Eq, Hash)]
pub struct Order {
    pub field: String,
    /// [`SRQL_ORDER_ASC`] or [`SRQL_ORDER_DESC`].
    pub direction: bool,
}

/// The plan of a page: what to ask of the collection, and how to cut the page out of the
/// answer.
#[derive(Debug, Clone, PartialEq, Eq, Hash)]
pub struct PaginationOptions {
    pub cond: Option<Cond>,
    pub order: Option<Order>,
    pub limit: Option<i64>,
    pub result_slice_opts: ResultSliceOptions,
}

/// [`Comparison`] as a mathematical value.
pub struct Bound {
    pub field: Seq<char>,
    pub op: Operator,
    pub table: Seq<char>,
    pub key: Seq<char>,
}

/// [`Cond`] as a mathematical value.
pub enum Range {
    Single(Bound),
    And(Bound, Bound),
}

/// [`Order`] as a mathematical value.
pub struct Sort {
    pub field: Seq<char>,
    pub direction: bool,
}

/// [`PaginationOptions`] as a mathematical value.
pub struct QueryPlan {
    pub cond: Option<Range>,
    pub order: Option<Sort>,
    pub limit: Option<int>,
    pub slice: SliceContext,
}

impl View for Comparison {
    type V = Bound;

    open spec fn view(&self) -> Bound {
        Bound { field: self.field@, op: self.op, table: self.table@, key: self.key@ }
    }
}

impl View for Cond {
    type V = Range;

    open spec fn view(&self) -> Range {
        match self {
            Cond::Single(bound) => Range::Single(bound@),
            Cond::And(upper, lower) => Range::And(upper@, lower@),
        }
    }
}

impl View for Order {
    type V = Sort;

    open spec fn view(&self) -> Sort {
        Sort { field: self.field@, direction: self.direction }
    }
}

impl View for PaginationOptions {
    type V = QueryPlan;

    open spec fn view(&self) -> QueryPlan {
        QueryPlan {
            cond: match self.cond {
                Some(cond) => Some(cond@),
                None => None,
            },
            order: match self.order {
                Some(order) => Some(order@),
                None => None,
            },
            limit: match self.limit {
                Some(limit) => Some(limit as int),
                None => None,
            },
            slice: self.result_slice_opts@,
        }
    }
}

/// The bound that keeps the keys at or below `after`: in descending order, the items from
/// `after` on.
pub open spec fn after_bound(table: Seq<char>, after: Seq<char>) -> Bound {
    Bound { field: "id"@, op: Operator::LessThanOrEqual, table, key: after }
}

/// The bound that keeps the keys at or above `before`: in descending order, the items up
/// to `before`.
pub open spec fn before_bound(table: Seq<char>, before: Seq<char>) -> Bound {
    Bound { field: "id"@, op: Operator::MoreThanOrEqual, table, key: before }
}

impl Request {
    /// The page size: what was asked for, and never more than [`MAX_LIMIT`]; the whole of
    /// [`MAX_LIMIT`] where nothing was asked for.
    pub open spec fn item_limit(self) -> int {
        match self.direction {
            Some(direction) => if direction.count() < MAX_LIMIT {
                direction.count()
            } else {
                MAX_LIMIT as int
            },
            None => MAX_LIMIT as int,
        }
    }

    /// The page is counted from the end of the window.
    pub open spec fn backward(self) -> bool {
        self.direction matches Some(PaginationDirection::Last(_))
    }

    /// How the slicer is to treat the rows fetched for this request.
    pub open spec fn slice_context(self) -> SliceContext {
        SliceContext {
            reverse_results: self.backward(),
            limit: self.item_limit(),
            after: self.after,
            before: self.before,
        }
    }

    /// The plan of the request on the collection `table`.
    pub open spec fn plan(self, table: Seq<char>) -> QueryPlan {
        self.slice_context().plan(table)
    }
}

impl SliceContext {
    /// The range that the two boundary keys leave.
    pub open spec fn range(self, table: Seq<char>) -> Option<Range> {
        match (self.after, self.before) {
            (Some(after), Some(before)) => Some(
                Range::And(after_bound(table, after), before_bound(table, before)),
            ),
            (Some(after), None) => Some(Range::Single(after_bound(table, after))),
            (None, Some(before)) => Some(Range::Single(before_bound(table, before))),
            (None, None) => None,
        }
    }

    /// The plan that fetches the rows of a page on the collection `table`: the rows within
    /// the range, the boundary items included; in canonical order, or in its reverse for
    /// a page that is counted from the end; and [`PAGE_EXTRA`] rows more than the page
    /// holds.
    pub open spec fn plan(self, table: Seq<char>) -> QueryPlan {
        QueryPlan {
            cond: self.range(table),
            order: Some(
                Sort {
                    field: "id"@,
                    direction: if self.reverse_results {
                        SRQL_ORDER_ASC
                    } else {
                        SRQL_ORDER_DESC
                    },
                },
            ),
            limit: Some(self.limit + PAGE_EXTRA),
            slice: self,
        }
    }
}

/// The request that asks for nothing: the first page, of the largest size.
pub open spec fn whole_request() -> Request {
    Request { direction: None, after: None, before: None }
}

/// The plan of a list request on the collection `table`. Where no pagination was asked
/// for, it is the plan of [`whole_request`].
pub open spec fn list_plan(pagination: Option<Request>, table: Seq<char>) -> QueryPlan {
    match pagination {
        Some(request) => request.plan(table),
        None => whole_request().plan(table),
    }
}

/// The validated request of an optional input.
pub open spec fn request_of(pagination: Option<PaginationInput>) -> Option<Request> {
    match pagination {
        Some(input) => Some(input@),
        None => None,
    }
}

/// The options that hold nothing: no condition, no order, no limit, and a page of no
/// items. They are a blank to fill in; no request is planned so.
pub open spec fn blank_plan() -> QueryPlan {
    QueryPlan {
        cond: None,
        order: None,
        limit: None,
        slice: SliceContext { reverse_results: false, limit: 0, after: None, before: None },
    }
}

impl Default for PaginationOptions {
    fn default() -> (opts: Self)
        ensures
            opts@ == blank_plan(),
    {
        PaginationOptions {
            cond: None,
            order: None,
            limit: None,
            result_slice_opts: ResultSliceOptions::default(),
        }
    }
}

/// What the conversion gives is stated by its own `ensures`, over views: it builds the
/// names of fields.
impl<'a> FromSpecImpl<(PaginationInput, &'a str)> for PaginationOptions {
    open spec fn obeys_from_spec() -> bool {
        false
    }

    open spec fn from_spec(request: (PaginationInput, &'a str)) -> Self {
        arbitrary()
    }
}

impl<'a> From<(PaginationInput, &'a str)> for PaginationOptions {
    /// Plans the page that `request.0` asks for on the collection named by `request.1`.
    fn from(request: (PaginationInput, &'a str)) -> (opts: Self)
        ensures
            opts@ == request.0@.plan(request.1@),
    {
        let (input, table_name) = request;
        let ghost req = input@;
        let PaginationInput { direction, after, before } = input;

        // The cursors give the two bounds of the range, and the keys for the slicer.
        let (after_expr, after) = match after {
            Some(cursor) => {
                let key = cursor.0;
                (
                    Some(
                        Comparison {
                            field: "id".to_owned(),
                            op: Operator::LessThanOrEqual,
                            table: table_name.to_owned(),
                            key: key.clone(),
                        },
                    ),
                    Some(key),
                )
            },
            None => (None, None),
        };
        let (before_expr, before) = match before {
            Some(cursor) => {
                let key = cursor.0;
                (
                    Some(
                        Comparison {
                            field: "id".to_owned(),
                            op: Operator::MoreThanOrEqual,
                            table: table_name.to_owned(),
                            key: key.clone(),
                        },
                    ),
                    Some(key),
                )
            },
            None => (None, None),
        };

        // A page never holds more than the largest size, whatever was asked for.
        let asked = match &direction {
            Some(direction) => direction.limit(),
            None => MAX_LIMIT,
        };
        let limit = if asked < MAX_LIMIT {
            asked
        } else {
            MAX_LIMIT
        };
        let reverse_results = match direction {
            Some(PaginationDirection::Last(_)) => true,
            _ => false,
        };
        assert(limit == req.item_limit());
        assert(reverse_results == req.backward());

        let cond = match (after_expr, before_expr) {
            (Some(after), Some(before)) => Some(Cond::And(after, before)),
            (Some(after), None) => Some(Cond::Single(after)),
            (None, Some(before)) => Some(Cond::Single(before)),
            (None, None) => None,
        };
        let opts = PaginationOptions {
            cond,
            // The order is that of the collection, but for a page counted from the end:
            // the slicer turns that one round.
            order: Some(
                Order {
                    field: "id".to_owned(),
                    direction: if reverse_results {
                        SRQL_ORDER_ASC
                    } else {
                        SRQL_ORDER_DESC
                    },
                },
            ),
            // One row more on each side: a row found there is the boundary item or an
            // item beyond the page, and either shows that there is another page.
            limit: Some(limit + PAGE_EXTRA),
            result_slice_opts: ResultSliceOptions { reverse_results, limit, after, before },
        };
        assert(opts@.cond == req.slice_context().range(table_name@));
        opts
    }
}

/// What the conversion gives is stated by its own `ensures`, over views: it builds the
/// names of fields.
impl<'a> FromSpecImpl<(Option<PaginationInput>, &'a str)> for PaginationOptions {
    open spec fn obeys_from_spec() -> bool {
        false
    }

    open spec fn from_spec(request: (Option<PaginationInput>, &'a str)) -> Self {
        arbitrary()
    }
}

impl<'a> From<(Option<PaginationInput>, &'a str)> for PaginationOptions {
    /// Plans the page of `request.0` where there is one, and the first page of the largest
    /// size where there is none.
    fn from(request: (Option<PaginationInput>, &'a str)) -> (opts: Self)
        ensures
            opts@ == list_plan(request_of(request.0), request.1@),
    {
        let (pagination, table_name) = request;
        match pagination {
            Some(pagination) => PaginationOptions::from((pagination, table_name)),
            None => PaginationOptions::from((PaginationInput::new(), table_name)),
        }
    }
}

} // verus!
