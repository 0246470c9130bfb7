//! The list requests of the two paginated collections: what is asked of the collection,
//! and what is made of its answer.

use vstd::prelude::*;
use crate::conv::{AsMaybeStr, ToGqlId};
use crate::query::connection::{edges_of, paginate, Connection};
use crate::query::pagination::PaginationInput;
use crate::query::plan::{list_plan, request_of, PaginationOptions};
use crate::query::slice::{page_has_next, page_has_previous, page_items, ResultSliceOptions};

verus! {

/// The name that the boards are stored under.
pub const BOARD_TABLE_NAME: &'static str = "board";

/// The name that the posts are stored under.
pub const POST_TABLE_NAME: &'static str = "post";

/// A request for a page of boards.
#[derive(Debug, Clone, PartialEq, Eq)]
pub struct BoardListRequest {
    pub pagination: Option<PaginationInput>,
}

/// A request for a page of posts.
#[derive(Debug, Clone, PartialEq, Eq)]
pub struct PostListRequest {
    pub pagination: Option<PaginationInput>,
}

impl BoardListRequest {
    pub fn new() -> (request: Self)
        ensures
            request.pagination is None,
    {
        BoardListRequest { pagination: None }
    }

    pub fn with_pagination(self, args: PaginationInput) -> (request: Self)
        ensures
            request.pagination == Some(args),
    {
        BoardListRequest { pagination: Some(args) }
    }

    /// What to ask of the collection of boards.
    pub fn plan(self) -> (opts: PaginationOptions)
        ensures
            opts@ == list_plan(request_of(self.pagination), BOARD_TABLE_NAME@),
    {
        PaginationOptions::from((self.pagination, BOARD_TABLE_NAME))
    }

    /// The page, from the rows that the collection answered with.
    pub fn connection<T: AsMaybeStr + ToGqlId>(rows: Vec<T>, opts: ResultSliceOptions) -> (connection:
        Connection<T>)
        ensures
            edges_of(connection.edges@, page_items(rows@, opts@)),
            connection.has_previous_page == page_has_previous(rows@, opts@),
            connection.has_next_page == page_has_next(rows@, opts@),
    {
        paginate(rows, opts)
    }
}

impl PostListRequest {
    pub fn new() -> (request: Self)
        ensures
            request.pagination is None,
    {
        PostListRequest { pagination: None }
    }

    pub fn with_pagination(self, args: PaginationInput) -> (request: Self)
        ensures
            request.pagination == Some(args),
    {
        PostListRequest { pagination: Some(args) }
    }

    /// What to ask of the collection of posts.
    pub fn plan(self) -> (opts: PaginationOptions)
        ensures
            opts@ == list_plan(request_of(self.pagination), POST_TABLE_NAME@),
    {
        PaginationOptions::from((self.pagination, POST_TABLE_NAME))
    }

    /// The page, from the rows that the collection answered with.
    pub fn connection<T: AsMaybeStr + ToGqlId>(rows: Vec<T>, opts: ResultSliceOptions) -> (connection:
        Connection<T>)
        ensures
            edges_of(connection.edges@, page_items(rows@, opts@)),
            connection.has_previous_page == page_has_previous(rows@, opts@),
            connection.has_next_page == page_has_next(rows@, opts@),
    {
        paginate(rows, opts)
    }
}

} // verus!
