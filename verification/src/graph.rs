//! A node of the content graph: a post, a board or a collection, with its tags and with
//! the edges that lead to it and from it, counted by kind.

use std::collections::HashMap;
use vstd::prelude::*;
use crate::conv::str_eq;

verus! {

broadcast use vstd::std_specs::hash::group_hash_axioms;

#[derive(Debug, Clone, Copy, PartialEq, Eq, Hash, Structural)]
pub enum Kind {
    Post,
    Board,
    Collection,
}

#[derive(Debug, Clone, Copy, PartialEq, Eq, Hash, Structural)]
pub enum Attachment {
    Image,
    Audio,
    LiveAudio,
    Video,
    LiveVideo,
    File,
}

/// A kind of edge. The kinds are not named yet: one is told from another by its number.
#[derive(Debug, Clone, Copy, PartialEq, Eq, Hash, Structural)]
pub enum Edge {
    Numbered(u64),
}

impl Edge {
    /// The number of the kind.
    pub open spec fn code(self) -> u64 {
        match self {
            Edge::Numbered(n) => n,
        }
    }

    pub fn number(&self) -> (n: u64)
        ensures
            n == self.code(),
    {
        match self {
            Edge::Numbered(n) => *n,
        }
    }
}

#[derive(Debug, Clone)]
pub struct Node {
    id: String,
    account_id: String,
    text_short: Option<String>,
    text_long: Option<String>,
    attachments: Vec<Attachment>,
    label: Option<String>,
    /// The tags, none of them twice.
    tags: Vec<String>,
    /// How many edges of each kind lead to the node; a kind with none has no entry.
    edge_in: HashMap<u64, u64>,
    /// How many edges of each kind lead from the node; a kind with none has no entry.
    edge_out: HashMap<u64, u64>,
}

/// The texts of `tags`, as a set.
pub open spec fn texts(tags: Seq<String>) -> Set<Seq<char>> {
    Set::new(|text: Seq<char>| exists|i: int| 0 <= i < tags.len() && (#[trigger] tags[i])@ == text)
}

/// No text occurs twice in `tags`.
pub open spec fn distinct(tags: Seq<String>) -> bool {
    forall|i: int, j: int|
        0 <= i < j < tags.len() ==> (#[trigger] tags[i])@ != (#[trigger] tags[j])@
}

/// How many edges `edges` counts of the kind `edge`.
pub open spec fn counted(edges: Map<u64, u64>, edge: Edge) -> u64 {
    if edges.contains_key(edge.code()) {
        edges[edge.code()]
    } else {
        0
    }
}

/// `edges` with one edge more of the kind `edge`.
pub open spec fn with_edge(edges: Map<u64, u64>, edge: Edge) -> Map<u64, u64> {
    edges.insert(edge.code(), (counted(edges, edge) + 1) as u64)
}

/// `edges` with one edge less of the kind `edge`, where it counts any.
pub open spec fn without_edge(edges: Map<u64, u64>, edge: Edge) -> Map<u64, u64> {
    if counted(edges, edge) == 0 {
        edges
    } else if counted(edges, edge) == 1 {
        edges.remove(edge.code())
    } else {
        edges.insert(edge.code(), (counted(edges, edge) - 1) as u64)
    }
}

/// The place of `tag` among `tags`, if it is there.
fn find_tag(tags: &Vec<String>, tag: &str) -> (place: Option<usize>)
    ensures
        match place {
            Some(i) => i < tags.len() && tags[i as int]@ == tag@,
            None => !texts(tags@).contains(tag@),
        },
{
    let mut i: usize = 0;
    while i < tags.len()
        invariant
            i <= tags.len(),
            forall|j: int| 0 <= j < i ==> (#[trigger] tags[j])@ != tag@,
        decreases tags.len() - i,
    {
        if str_eq(tags[i].as_str(), tag) {
            return Some(i);
        }
        i += 1;
    }
    None
}

/// How many edges of the kind `edge` are counted in `edges`.
fn count_edges(edges: &HashMap<u64, u64>, edge: &Edge) -> (n: u64)
    ensures
        n == counted(edges@, *edge),
{
    let key = edge.number();
    match edges.get(&key) {
        Some(n) => *n,
        None => 0,
    }
}

/// Counts one edge more of the kind `edge`.
fn add_edge(edges: &mut HashMap<u64, u64>, edge: Edge)
    requires
        counted(old(edges)@, edge) < u64::MAX,
    ensures
        final(edges)@ == with_edge(old(edges)@, edge),
{
    let n = count_edges(edges, &edge);
    edges.insert(edge.number(), n + 1);
}

/// Counts one edge less of the kind `edge`. A kind that no edge is left of loses its
/// entry.
fn remove_edge(edges: &mut HashMap<u64, u64>, edge: &Edge)
    ensures
        final(edges)@ == without_edge(old(edges)@, *edge),
{
    let key = edge.number();
    let n = count_edges(edges, edge);
    if n == 0 {
    } else if n == 1 {
        edges.remove(&key);
    } else {
        edges.insert(key, n - 1);
    }
}

impl Node {
    /// A node with no text, no attachment, no tag and no edge.
    pub fn new(id: String, account_id: String) -> (node: Self)
        ensures
            node.wf(),
            node.id_text() == id@,
            node.account_text() == account_id@,
            node.attached() == Seq::<Attachment>::empty(),
            node.tag_set() == Set::<Seq<char>>::empty(),
            node.edges_in() == Map::<u64, u64>::empty(),
            node.edges_out() == Map::<u64, u64>::empty(),
    {
        let node = Node {
            id,
            account_id,
            text_short: None,
            text_long: None,
            attachments: Vec::new(),
            label: None,
            tags: Vec::new(),
            edge_in: HashMap::new(),
            edge_out: HashMap::new(),
        };
        assert(texts(node.tags@) =~= Set::<Seq<char>>::empty());
        node
    }

    /// No tag is held twice, and an edge kind that has an entry has an edge.
    pub closed spec fn wf(&self) -> bool {
        &&& distinct(self.tags@)
        &&& forall|k: u64| #[trigger] self.edge_in@.contains_key(k) ==> self.edge_in@[k] >= 1
        &&& forall|k: u64| #[trigger] self.edge_out@.contains_key(k) ==> self.edge_out@[k] >= 1
    }

    pub closed spec fn id_text(&self) -> Seq<char> {
        self.id@
    }

    pub closed spec fn account_text(&self) -> Seq<char> {
        self.account_id@
    }

    pub closed spec fn attached(&self) -> Seq<Attachment> {
        self.attachments@
    }

    /// The tags of the node.
    pub closed spec fn tag_set(&self) -> Set<Seq<char>> {
        texts(self.tags@)
    }

    /// The tags of the node in the order they are held in.
    pub closed spec fn tag_list(&self) -> Seq<String> {
        self.tags@
    }

    /// How many edges of each kind lead to the node.
    pub closed spec fn edges_in(&self) -> Map<u64, u64> {
        self.edge_in@
    }

    /// How many edges of each kind lead from the node.
    pub closed spec fn edges_out(&self) -> Map<u64, u64> {
        self.edge_out@
    }

    /// What no change of tags and edges touches is the same in `self` and `other`.
    pub closed spec fn same_content(&self, other: &Node) -> bool {
        &&& self.id == other.id
        &&& self.account_id == other.account_id
        &&& self.text_short == other.text_short
        &&& self.text_long == other.text_long
        &&& self.attachments == other.attachments
        &&& self.label == other.label
    }

    pub fn id(&self) -> (id: &str)
        ensures
            id@ == self.id_text(),
    {
        self.id.as_str()
    }

    pub fn account_id(&self) -> (id: &str)
        ensures
            id@ == self.account_text(),
    {
        self.account_id.as_str()
    }

    pub fn attachments(&self) -> (attachments: &[Attachment])
        ensures
            attachments@ == self.attached(),
    {
        self.attachments.as_slice()
    }

    /// The tags, in the order they were added in.
    pub fn tags(&self) -> (tags: &[String])
        ensures
            tags@ == self.tag_list(),
            texts(tags@) == self.tag_set(),
    {
        self.tags.as_slice()
    }

    pub fn has_tag(&self, tag: &str) -> (has: bool)
        ensures
            has == self.tag_set().contains(tag@),
    {
        find_tag(&self.tags, tag).is_some()
    }

    /// Adds a tag. A tag that the node has already stays as it is.
    pub fn add_tag(&mut self, tag: &str)
        requires
            old(self).wf(),
        ensures
            final(self).wf(),
            final(self).tag_set() == old(self).tag_set().insert(tag@),
            final(self).same_content(old(self)),
            final(self).edges_in() == old(self).edges_in(),
            final(self).edges_out() == old(self).edges_out(),
    {
        if find_tag(&self.tags, tag).is_none() {
            let ghost before = self.tags@;
            self.tags.push(tag.to_owned());
            assert forall|text: Seq<char>|
                texts(self.tags@).contains(text) <==> texts(before).insert(tag@).contains(
                    text,
                ) by {
                if texts(self.tags@).contains(text) {
                    let i = choose|i: int| 0 <= i < self.tags@.len() && (#[trigger] self.tags@[i])@ == text;
                    if i < before.len() {
                        assert(before[i]@ == text);
                    }
                }
                if texts(before).contains(text) {
                    let i = choose|i: int| 0 <= i < before.len() && (#[trigger] before[i])@ == text;
                    assert(self.tags@[i]@ == text);
                }
                if text == tag@ {
                    assert(self.tags@[before.len() as int]@ == text);
                }
            }
            assert(texts(self.tags@) =~= texts(before).insert(tag@));
        } else {
            assert(texts(self.tags@).insert(tag@) =~= texts(self.tags@));
        }
    }

    /// Removes a tag, where the node has it.
    pub fn remove_tag(&mut self, tag: &str)
        requires
            old(self).wf(),
        ensures
            final(self).wf(),
            final(self).tag_set() == old(self).tag_set().remove(tag@),
            final(self).same_content(old(self)),
            final(self).edges_in() == old(self).edges_in(),
            final(self).edges_out() == old(self).edges_out(),
    {
        match find_tag(&self.tags, tag) {
            Some(place) => {
                let ghost before = self.tags@;
                self.tags.remove(place);
                assert forall|text: Seq<char>|
                    texts(self.tags@).contains(text) <==> texts(before).remove(tag@).contains(
                        text,
                    ) by {
                    if texts(self.tags@).contains(text) {
                        let i = choose|i: int| 0 <= i < self.tags@.len() && (#[trigger] self.tags@[i])@ == text;
                        if i < place {
                            assert(before[i]@ == text);
                        } else {
                            assert(before[i + 1]@ == text);
                        }
                    }
                    if texts(before).contains(text) && text != tag@ {
                        let i = choose|i: int| 0 <= i < before.len() && (#[trigger] before[i])@ == text;
                        if i < place {
                            assert(self.tags@[i]@ == text);
                        } else {
                            assert(self.tags@[i - 1]@ == text);
                        }
                    }
                }
                assert(texts(self.tags@) =~= texts(before).remove(tag@));
                assert forall|i: int, j: int| 0 <= i < j < self.tags@.len() implies (
                #[trigger] self.tags@[i])@ != (#[trigger] self.tags@[j])@ by {
                    let a = if i < place { i } else { i + 1 };
                    let b = if j < place { j } else { j + 1 };
                    assert(before[a]@ != before[b]@);
                }
            },
            None => {
                assert(texts(self.tags@).remove(tag@) =~= texts(self.tags@));
            },
        }
    }

    pub fn count_edges_in(&self, edge: &Edge) -> (n: u64)
        ensures
            n == counted(self.edges_in(), *edge),
    {
        count_edges(&self.edge_in, edge)
    }

    pub fn count_edge_in(&self, edge: &Edge) -> (n: u64)
        ensures
            n == counted(self.edges_in(), *edge),
    {
        count_edges(&self.edge_in, edge)
    }

    /// Counts one edge more of the kind `edge` that leads to the node.
    pub fn add_edge_in(&mut self, edge: Edge)
        requires
            old(self).wf(),
            counted(old(self).edges_in(), edge) < u64::MAX,
        ensures
            final(self).wf(),
            final(self).edges_in() == with_edge(old(self).edges_in(), edge),
            final(self).edges_out() == old(self).edges_out(),
            final(self).tag_set() == old(self).tag_set(),
            final(self).same_content(old(self)),
    {
        add_edge(&mut self.edge_in, edge);
    }

    /// Counts one edge less of the kind `edge` that leads to the node, where it counts
    /// any.
    pub fn remove_edge_in(&mut self, edge: &Edge)
        requires
            old(self).wf(),
        ensures
            final(self).wf(),
            final(self).edges_in() == without_edge(old(self).edges_in(), *edge),
            final(self).edges_out() == old(self).edges_out(),
            final(self).tag_set() == old(self).tag_set(),
            final(self).same_content(old(self)),
    {
        remove_edge(&mut self.edge_in, edge);
    }

    pub fn count_edge_out(&self, edge: &Edge) -> (n: u64)
        ensures
            n == counted(self.edges_out(), *edge),
    {
        count_edges(&self.edge_out, edge)
    }

    /// Counts one edge more of the kind `edge` that leads from the node.
    pub fn add_edge_out(&mut self, edge: Edge)
        requires
            old(self).wf(),
            counted(old(self).edges_out(), edge) < u64::MAX,
        ensures
            final(self).wf(),
            final(self).edges_out() == with_edge(old(self).edges_out(), edge),
            final(self).edges_in() == old(self).edges_in(),
            final(self).tag_set() == old(self).tag_set(),
            final(self).same_content(old(self)),
    {
        add_edge(&mut self.edge_out, edge);
    }

    /// Counts one edge less of the kind `edge` that leads from the node, where it counts
    /// any.
    pub fn remove_edge_out(&mut self, edge: &Edge)
        requires
            old(self).wf(),
        ensures
            final(self).wf(),
            final(self).edges_out() == without_edge(old(self).edges_out(), *edge),
            final(self).edges_in() == old(self).edges_in(),
            final(self).tag_set() == old(self).tag_set(),
            final(self).same_content(old(self)),
    {
        remove_edge(&mut self.edge_out, edge);
    }
}

} // verus!
