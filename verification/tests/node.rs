use lise::node::{Attachment, Node};

fn names(root: &Node) -> Vec<String> {
    let mut out = Vec::new();
    let mut it = root.iter();
    while let Some(node) = it.next() {
        out.push(node.name.clone());
    }
    out
}

#[test]
fn single_node_yields_itself() {
    let root = Node::new("Root", None);
    assert_eq!(names(&root), vec!["Root"]);
}

#[test]
fn children_iterate_in_insertion_order() {
    let mut root = Node::new("Root", None);
    root.add_child(Node::new("C1", None));
    root.add_child(Node::new("C2", None));
    root.add_child(Node::new("C3", None));
    assert_eq!(names(&root), vec!["Root", "C1", "C2", "C3"]);
}

#[test]
fn traversal_is_depth_first() {
    let mut a = Node::new("A", None);
    a.add_child(Node::new("A1", None));
    a.add_child(Node::new("A2", None));
    let mut root = Node::new("Root", None);
    root.add_child(a);
    root.add_child(Node::new("B", None));
    assert_eq!(names(&root), vec!["Root", "A", "A1", "A2", "B"]);
}

#[test]
fn deep_tree_children_before_siblings() {
    let mut grand = Node::new("Grand", None);
    grand.add_child(Node::new("Leaf", None));
    let mut mid = Node::new("Mid", None);
    mid.add_child(grand);
    mid.add_child(Node::new("MidKid", None));
    let mut root = Node::new("Root", None);
    root.add_child(mid);
    root.add_child(Node::new("Tail", None));
    assert_eq!(names(&root), vec!["Root", "Mid", "Grand", "Leaf", "MidKid", "Tail"]);
}

struct Counter {
    ticks: u32,
}

impl Attachment for Counter {
    fn tick(&mut self) {
        self.ticks += 1;
    }

    fn draw(&self) {}

    fn on_entered_tree(&self) {}

    fn on_left_tree(&self) {}
}

#[test]
fn node_carries_an_attachment() {
    let root = Node::new("Root", Some(Box::new(Counter { ticks: 0 })));
    assert_eq!(names(&root), vec!["Root"]);
}
