//! The connection assembler: each item of a page with the cursor of its position.

use vstd::prelude::*;
use crate::conv::{AsMaybeStr, ToGqlId};
use crate::query::cursor::{cursor_key, cursor_text, OpaqueCursor};
use crate::query::slice::{
    page_has_next, page_has_previous, page_items, reversed, ResultSlice, ResultSliceOptions,
};

verus! {

/// An item of a page, and the cursor that a later request resumes at it with.
#[derive(Debug, Clone, PartialEq, Eq)]
pub struct Edge<T> {
    pub cursor: String,
    pub node: T,
}

/// A page as a client receives it.
#[derive(Debug, Clone, PartialEq, Eq)]
pub struct Connection<T> {
    pub edges: Vec<Edge<T>>,
    pub has_previous_page: bool,
    pub has_next_page: bool,
}

/// `edges` are `items` in the same order, each with the cursor of its own identifier.
pub open spec fn edges_of<T: ToGqlId>(edges: Seq<Edge<T>>, items: Seq<T>) -> bool {
    &&& edges.len() == items.len()
    &&& forall|i: int|
        0 <= i < items.len() ==> {
            &&& (#[trigger] edges[i]).node == items[i]
            &&& edges[i].cursor@ == cursor_text(items[i].gql_id())
            &&& cursor_key(edges[i].cursor@) == Some(items[i].gql_id())
        }
}

impl<T: ToGqlId> Connection<T> {
    /// Packages a page: the items in the order of the page, each with its cursor, and
    /// the two flags as they are.
    pub fn new(slice: ResultSlice<T>) -> (connection: Self)
        ensures
            edges_of(connection.edges@, slice.results@),
            connection.has_previous_page == slice.has_previous_page,
            connection.has_next_page == slice.has_next_page,
    {
        let ResultSlice { results, has_previous_page, has_next_page } = slice;
        let ghost items = results@;
        let mut rest = reversed(results);
        let mut edges: Vec<Edge<T>> = Vec::new();
        while rest.len() > 0
            invariant
                rest@.len() + edges@.len() == items.len(),
                rest@ == items.reverse().take(rest@.len() as int),
                edges_of(edges@, items.take(edges@.len() as int)),
            decreases rest@.len(),
        {
            let ghost done = edges@;
            let node = rest.pop();
            if let Some(node) = node {
                assert(node == items[done.len() as int]);
                let cursor = OpaqueCursor(node.to_gql_id()).encode_cursor();
                edges.push(Edge { cursor, node });
                assert forall|i: int| 0 <= i < edges@.len() implies {
                    &&& (#[trigger] edges@[i]).node == items[i]
                    &&& edges@[i].cursor@ == cursor_text(items[i].gql_id())
                    &&& cursor_key(edges@[i].cursor@) == Some(items[i].gql_id())
                } by {
                    if i < done.len() {
                        assert(edges@[i] == done[i]);
                        assert(items.take(done.len() as int)[i] == items[i]);
                    }
                }
            }
        }
        assert(items.take(edges@.len() as int) =~= items);
        Connection { edges, has_previous_page, has_next_page }
    }
}

/// The page of one request, from the rows that were fetched for it: the slicer, then the
/// assembler.
pub fn paginate<T: AsMaybeStr + ToGqlId>(rows: Vec<T>, opts: ResultSliceOptions) -> (connection:
    Connection<T>)
    ensures
        edges_of(connection.edges@, page_items(rows@, opts@)),
        connection.has_previous_page == page_has_previous(rows@, opts@),
        connection.has_next_page == page_has_next(rows@, opts@),
{
    Connection::new(ResultSlice::new(rows, opts))
}

} // verus!
