//! The three kinds of node, each a node told apart by its type.

use vstd::prelude::*;
use vstd::std_specs::convert::FromSpecImpl;
use crate::graph::Node;

verus! {

#[derive(Debug, Clone)]
pub struct Post(pub Node);

#[derive(Debug, Clone)]
pub struct Board(pub Node);

#[derive(Debug, Clone)]
pub struct Collection(pub Node);

impl FromSpecImpl<Node> for Post {
    open spec fn obeys_from_spec() -> bool {
        true
    }

    open spec fn from_spec(node: Node) -> Self {
        Post(node)
    }
}

impl From<Node> for Post {
    fn from(node: Node) -> (post: Self) {
        Post(node)
    }
}

impl FromSpecImpl<Node> for Board {
    open spec fn obeys_from_spec() -> bool {
        true
    }

    open spec fn from_spec(node: Node) -> Self {
        Board(node)
    }
}

impl From<Node> for Board {
    fn from(node: Node) -> (board: Self) {
        Board(node)
    }
}

impl FromSpecImpl<Node> for Collection {
    open spec fn obeys_from_spec() -> bool {
        true
    }

    open spec fn from_spec(node: Node) -> Self {
        Collection(node)
    }
}

impl From<Node> for Collection {
    fn from(node: Node) -> (collection: Self) {
        Collection(node)
    }
}

impl Post {
    pub fn node(&self) -> (node: &Node)
        ensures
            *node == self.0,
    {
        &self.0
    }
}

impl Board {
    pub fn node(&self) -> (node: &Node)
        ensures
            *node == self.0,
    {
        &self.0
    }
}

impl Collection {
    pub fn node(&self) -> (node: &Node)
        ensures
            *node == self.0,
    {
        &self.0
    }
}

} // verus!
