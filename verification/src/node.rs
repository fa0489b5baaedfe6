//! A scene tree. Each node owns its first child and its next sibling, so a
//! tree is a chain of siblings each heading its own chain of children, and a
//! traversal visits nodes depth first: a node, then its children in
//! insertion order (each with its own subtree), then its next sibling.

use vstd::prelude::*;

verus! {

/// Behaviour hung onto a node; the engine's user implements it.
pub trait Attachment {
    fn tick(&mut self);

    fn draw(&self);

    fn on_entered_tree(&self);

    fn on_left_tree(&self);
}

pub struct Node {
    pub name: String,
    first_child: Option<Box<Node>>,
    next_sibling: Option<Box<Node>>,
    attachment: Option<Box<dyn Attachment>>,
}

impl Node {
    pub closed spec fn name_view(&self) -> Seq<char> {
        self.name@
    }

    /// The node has no sibling of its own: it is the root of a subtree.
    pub closed spec fn is_subtree_root(&self) -> bool {
        self.next_sibling is None
    }

    /// Depth-first order over the node, its descendants, and the siblings
    /// that follow it (each with their own descendants).
    pub closed spec fn chain_names(&self) -> Seq<Seq<char>>
        decreases self,
    {
        seq![self.name@] + (match self.first_child {
            Some(c) => c.chain_names(),
            None => Seq::empty(),
        }) + (match self.next_sibling {
            Some(s) => s.chain_names(),
            None => Seq::empty(),
        })
    }

    /// Depth-first order over the node and its descendants alone.
    pub open spec fn subtree_names(&self) -> Seq<Seq<char>> {
        seq![self.name_view()] + self.children_names()
    }

    /// Depth-first order over the node's children and their descendants.
    pub closed spec fn children_names(&self) -> Seq<Seq<char>> {
        match self.first_child {
            Some(c) => c.chain_names(),
            None => Seq::empty(),
        }
    }

    pub fn new(name: &str, attachment: Option<Box<dyn Attachment>>) -> (r: Self)
        ensures
            r.name_view() == name@,
            r.is_subtree_root(),
            r.subtree_names() == seq![name@],
            r.chain_names() == seq![name@],
    {
        let r = Node {
            name: name.to_string(),
            first_child: None,
            next_sibling: None,
            attachment,
        };
        proof {
            assert(r.chain_names() =~= seq![name@]);
            assert(r.subtree_names() =~= seq![name@]);
        }
        r
    }

    /// Appends `child` after the node's existing children: the child's
    /// subtree comes last in the node's depth-first order.
    pub fn add_child(&mut self, child: Node)
        ensures
            final(self).name_view() == old(self).name_view(),
            final(self).is_subtree_root() == old(self).is_subtree_root(),
            final(self).subtree_names() == old(self).subtree_names() + child.chain_names(),
    {
        let fc = self.first_child.take();
        match fc {
            None => {
                self.first_child = Some(Box::new(child));
            },
            Some(b) => {
                self.first_child = Some(Box::new(sib_append(*b, child)));
            },
        }
        proof {
            assert(self.subtree_names() =~= old(self).subtree_names() + child.chain_names());
        }
    }

    pub fn iter<'a>(&'a self) -> (r: NodeIterator<'a>)
        ensures
            r.remaining() == self.chain_names(),
    {
        NodeIterator::new(self)
    }
}

/// Appends `c` at the end of `n`'s sibling chain.
fn sib_append(n: Node, c: Node) -> (r: Node)
    ensures
        r.chain_names() == n.chain_names() + c.chain_names(),
    decreases n,
{
    let Node { name, first_child, next_sibling, attachment } = n;
    match next_sibling {
        None => {
            let r = Node { name, first_child, next_sibling: Some(Box::new(c)), attachment };
            proof {
                assert(r.chain_names() =~= n.chain_names() + c.chain_names());
            }
            r
        },
        Some(b) => {
            let appended = sib_append(*b, c);
            let r = Node {
                name,
                first_child,
                next_sibling: Some(Box::new(appended)),
                attachment,
            };
            proof {
                assert(r.chain_names() =~= n.chain_names() + c.chain_names());
            }
            r
        },
    }
}

/// The names still to be yielded: the chains of the stacked nodes, top of
/// the stack first.
spec fn stack_names(s: Seq<&Node>) -> Seq<Seq<char>>
    decreases s.len(),
{
    if s.len() == 0 {
        Seq::empty()
    } else {
        s.last().chain_names() + stack_names(s.drop_last())
    }
}

proof fn lemma_stack_names_push(s: Seq<&Node>, x: &Node)
    ensures
        stack_names(s.push(x)) == x.chain_names() + stack_names(s),
{
    assert(s.push(x).drop_last() =~= s);
    assert(s.push(x).last() == x);
    assert(stack_names(s.push(x)) == x.chain_names() + stack_names(s));
}

/// A depth-first traversal with an explicit worklist.
pub struct NodeIterator<'a> {
    stack: Vec<&'a Node>,
}

impl<'a> NodeIterator<'a> {
    pub closed spec fn remaining(&self) -> Seq<Seq<char>> {
        stack_names(self.stack@)
    }

    pub fn new(root: &'a Node) -> (r: Self)
        ensures
            r.remaining() == root.chain_names(),
    {
        let mut stack: Vec<&'a Node> = Vec::new();
        stack.push(root);
        let r = NodeIterator { stack };
        proof {
            lemma_stack_names_push(Seq::empty(), root);
            assert(stack_names(Seq::<&Node>::empty()) == Seq::<Seq<char>>::empty());
            assert(r.remaining() =~= root.chain_names());
        }
        r
    }

    /// Yields the next node in depth-first order, children before siblings.
    pub fn next(&mut self) -> (r: Option<&'a Node>)
        ensures
            match r {
                Some(node) => {
                    &&& old(self).remaining().len() > 0
                    &&& node.name_view() == old(self).remaining()[0]
                    &&& final(self).remaining() == old(self).remaining().drop_first()
                },
                None => {
                    &&& old(self).remaining().len() == 0
                    &&& final(self).remaining() == old(self).remaining()
                },
            },
    {
        let top = self.stack.pop();
        match top {
            None => None,
            Some(node) => {
                let ghost rest = self.stack@;
                proof {
                    assert(old(self).stack@ =~= rest.push(node));
                    lemma_stack_names_push(rest, node);
                    assert(old(self).remaining() == node.chain_names() + stack_names(rest));
                }
                match &node.next_sibling {
                    Some(sib) => {
                        let ghost before = self.stack@;
                        self.stack.push(&**sib);
                        proof {
                            lemma_stack_names_push(before, &**sib);
                        }
                    },
                    None => {},
                }
                match &node.first_child {
                    Some(child) => {
                        let ghost before = self.stack@;
                        self.stack.push(&**child);
                        proof {
                            lemma_stack_names_push(before, &**child);
                        }
                    },
                    None => {},
                }
                proof {
                    assert(self.remaining() =~= old(self).remaining().drop_first());
                }
                Some(node)
            },
        }
    }
}

} // verus!
