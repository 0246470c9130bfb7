use plazer_service::container::Container;
use plazer_service::data::{Board, Collection, Post};
use plazer_service::graph::{Attachment, Edge, Kind, Node};

fn node() -> Node {
    Node::new("n1".to_string(), "acc".to_string())
}

#[test]
fn test_node_new() {
    let node = node();
    assert_eq!(node.id(), "n1");
    assert_eq!(node.account_id(), "acc");
    assert_eq!(node.attachments(), &[] as &[Attachment]);
    assert_eq!(node.tags(), &[] as &[String]);
    assert!(!node.has_tag("a"));
    assert_eq!(node.count_edges_in(&Edge::Numbered(1)), 0);
    assert_eq!(node.count_edge_out(&Edge::Numbered(1)), 0);
}

#[test]
fn test_node_tags_are_a_set() {
    let mut node = node();
    node.add_tag("a");
    node.add_tag("b");
    node.add_tag("a");
    assert!(node.has_tag("a"));
    assert!(node.has_tag("b"));
    assert!(!node.has_tag("c"));
    assert_eq!(node.tags(), &["a".to_string(), "b".to_string()]);
    node.remove_tag("a");
    assert!(!node.has_tag("a"));
    assert!(node.has_tag("b"));
    node.remove_tag("a");
    node.remove_tag("missing");
    assert_eq!(node.tags(), &["b".to_string()]);
    node.remove_tag("b");
    assert_eq!(node.tags(), &[] as &[String]);
}

#[test]
fn test_node_edges_are_counted_by_kind() {
    let mut node = node();
    let follows = Edge::Numbered(1);
    let likes = Edge::Numbered(2);
    node.add_edge_in(follows);
    node.add_edge_in(follows);
    node.add_edge_in(likes);
    node.add_edge_out(likes);
    assert_eq!(node.count_edges_in(&follows), 2);
    assert_eq!(node.count_edge_in(&follows), 2);
    assert_eq!(node.count_edges_in(&likes), 1);
    assert_eq!(node.count_edge_out(&likes), 1);
    assert_eq!(node.count_edge_out(&follows), 0);
    node.remove_edge_in(&follows);
    assert_eq!(node.count_edges_in(&follows), 1);
    node.remove_edge_in(&follows);
    assert_eq!(node.count_edges_in(&follows), 0);
    node.remove_edge_in(&follows);
    assert_eq!(node.count_edges_in(&follows), 0);
    assert_eq!(node.count_edges_in(&likes), 1);
    node.remove_edge_out(&likes);
    node.remove_edge_out(&likes);
    assert_eq!(node.count_edge_out(&likes), 0);
    assert_eq!(node.id(), "n1");
}

#[test]
fn test_edge_number() {
    assert_eq!(Edge::Numbered(7).number(), 7);
    assert_ne!(Edge::Numbered(7), Edge::Numbered(8));
    assert_ne!(Kind::Post, Kind::Board);
    assert_eq!(Kind::Collection, Kind::Collection);
    assert_ne!(Attachment::Audio, Attachment::LiveAudio);
}

#[test]
fn test_node_kinds_wrap_a_node() {
    let post = Post::from(node());
    assert_eq!(post.node().id(), "n1");
    let board = Board::from(node());
    assert_eq!(board.node().account_id(), "acc");
    let mut tagged = node();
    tagged.add_tag("t");
    let collection = Collection::from(tagged);
    assert!(collection.node().has_tag("t"));
    assert!(collection.0.has_tag("t"));
}

#[test]
fn test_container_keeps_value_with_data() {
    let mut container = Container::new(vec![1_u8, 2, 3], 6_u32);
    assert_eq!(*container.get(), 6);
    assert_eq!(container.replace(7), 6);
    assert_eq!(*container.get(), 7);
    assert_eq!(container.into_value(), 7);
    let container = Container::from(("raw".to_string(), 'x'));
    assert_eq!(*container.get(), 'x');
}
