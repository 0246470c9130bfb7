//! A walk through a collection page by page: which page to ask for next, and what a page
//! that came back adds.

use vstd::prelude::*;
use crate::query::connection::{Connection, Edge};
use crate::query::slice::reversed;

verus! {

/// Where a walk stands.
#[derive(Debug, Clone, PartialEq, Eq)]
pub enum PaginatorState {
    /// No page was asked for yet.
    Initial,
    /// The next page is the one at this cursor.
    Next(String),
    /// There is no further page.
    Done,
}

/// A walk through the pages of a collection, forward from its start or backward from its
/// end.
#[derive(Debug, Clone, PartialEq, Eq)]
pub struct Paginator {
    pub state: PaginatorState,
    pub reversed: bool,
}

/// The nodes of `edges`, in the same order.
pub open spec fn nodes_of<T>(edges: Seq<Edge<T>>) -> Seq<T> {
    edges.map_values(|edge: Edge<T>| edge.node)
}

/// The state after a page of a walk forward: done where the page is empty or the last,
/// and else at the cursor of its last item.
pub open spec fn state_after_forward<T>(connection: Connection<T>, state: PaginatorState)
    -> bool {
    if connection.edges@.len() == 0 || !connection.has_next_page {
        state is Done
    } else {
        state matches PaginatorState::Next(cursor) && cursor@ == connection.edges@.last().cursor@
    }
}

/// The state after a page of a walk backward: done where the page is empty or the first,
/// and else at the cursor of its first item.
pub open spec fn state_after_backward<T>(connection: Connection<T>, state: PaginatorState)
    -> bool {
    if connection.edges@.len() == 0 || !connection.has_previous_page {
        state is Done
    } else {
        state matches PaginatorState::Next(cursor) && cursor@ == connection.edges@.first().cursor@
    }
}

/// The nodes of the edges, in the same order.
fn into_nodes<T>(edges: Vec<Edge<T>>) -> (nodes: Vec<T>)
    ensures
        nodes@ == nodes_of(edges@),
{
    let ghost all = edges@;
    let mut rest = reversed(edges);
    let mut nodes: Vec<T> = Vec::new();
    while rest.len() > 0
        invariant
            rest@.len() + nodes@.len() == all.len(),
            rest@ == all.reverse().take(rest@.len() as int),
            nodes@ == nodes_of(all.take(nodes@.len() as int)),
        decreases rest@.len(),
    {
        let ghost done = nodes@.len() as int;
        let edge = rest.pop();
        if let Some(edge) = edge {
            assert(edge == all[done]);
            nodes.push(edge.node);
            assert(nodes@ =~= nodes_of(all.take(done + 1)));
        }
    }
    assert(all.take(nodes@.len() as int) =~= all);
    nodes
}

/// What a page adds to a walk forward, and where the walk stands after it. An empty page
/// adds nothing and ends the walk.
pub fn extract_forward_page<T>(connection: Connection<T>) -> (res: (
    Option<Vec<T>>,
    PaginatorState,
))
    ensures
        match res.0 {
            Some(items) => connection.edges@.len() > 0 && items@ == nodes_of(connection.edges@),
            None => connection.edges@.len() == 0,
        },
        state_after_forward(connection, res.1),
{
    let Connection { edges, has_previous_page: _, has_next_page } = connection;
    let count = edges.len();
    if count == 0 {
        return (None, PaginatorState::Done);
    }
    let state = if has_next_page {
        PaginatorState::Next(edges[count - 1].cursor.clone())
    } else {
        PaginatorState::Done
    };
    (Some(into_nodes(edges)), state)
}

/// What a page adds to a walk backward, and where the walk stands after it. An empty page
/// adds nothing and ends the walk.
pub fn extract_backward_page<T>(connection: Connection<T>) -> (res: (
    Option<Vec<T>>,
    PaginatorState,
))
    ensures
        match res.0 {
            Some(items) => connection.edges@.len() > 0 && items@ == nodes_of(connection.edges@),
            None => connection.edges@.len() == 0,
        },
        state_after_backward(connection, res.1),
{
    let Connection { edges, has_previous_page, has_next_page: _ } = connection;
    if edges.len() == 0 {
        return (None, PaginatorState::Done);
    }
    let state = if has_previous_page {
        PaginatorState::Next(edges[0].cursor.clone())
    } else {
        PaginatorState::Done
    };
    (Some(into_nodes(edges)), state)
}

impl Paginator {
    /// A walk forward that has not begun.
    pub fn new() -> (walk: Self)
        ensures
            walk == (Paginator { state: PaginatorState::Initial, reversed: false }),
    {
        Paginator { state: PaginatorState::Initial, reversed: false }
    }

    /// The same walk, backward.
    #[must_use]
    pub fn reversed(self) -> (walk: Self)
        ensures
            walk == (Paginator { reversed: true, ..self }),
    {
        let mut walk = self;
        walk.reversed = true;
        walk
    }

    /// The page to ask for next: none where the walk is done, the first one where it has
    /// not begun, and else the one at the cursor that the last page left. The walk
    /// counts as done until the page is handed to [`Self::accept`].
    pub fn request(&mut self) -> (cursor: Option<Option<String>>)
        ensures
            final(self).state is Done,
            final(self).reversed == old(self).reversed,
            cursor == match old(self).state {
                PaginatorState::Initial => Some(None::<String>),
                PaginatorState::Next(cursor) => Some(Some(cursor)),
                PaginatorState::Done => None,
            },
    {
        let mut state = PaginatorState::Done;
        std::mem::swap(&mut state, &mut self.state);
        match state {
            PaginatorState::Initial => Some(None),
            PaginatorState::Next(cursor) => Some(Some(cursor)),
            PaginatorState::Done => None,
        }
    }

    /// Takes the page that was asked for: hands out its items, and moves the walk on.
    pub fn accept<T>(&mut self, connection: Connection<T>) -> (items: Option<Vec<T>>)
        ensures
            final(self).reversed == old(self).reversed,
            match items {
                Some(items) => connection.edges@.len() > 0 && items@ == nodes_of(
                    connection.edges@,
                ),
                None => connection.edges@.len() == 0,
            },
            if old(self).reversed {
                state_after_backward(connection, final(self).state)
            } else {
                state_after_forward(connection, final(self).state)
            },
    {
        let (items, state) = if self.reversed {
            extract_backward_page(connection)
        } else {
            extract_forward_page(connection)
        };
        self.state = state;
        items
    }
}

} // verus!
