//! The writer's end of a pipe: the staged batch and the private tail through
//! which the writer extends it.

use vstd::prelude::*;
use vstd::std_specs::convert::FromSpecImpl;
use crate::node::{Link, Node};

verus! {

/// A link that refers to a node without owning the chain behind it.
///
/// The writer keeps one to the last node it appended. It is only meaningful
/// while the writer still holds the batch which that node belongs to.
#[derive(Clone, Copy)]
pub struct Rawlink {
    p: Option<usize>,
}

impl Rawlink {
    /// The slot referred to, if any.
    pub closed spec fn slot(&self) -> Link {
        self.p
    }

    /// A link that refers to nothing.
    pub fn none() -> (link: Rawlink)
        ensures
            link.slot() is None,
    {
        Rawlink { p: None }
    }

    /// A link that refers to the node in slot `n`.
    pub fn some(n: usize) -> (link: Rawlink)
        ensures
            link.slot() == Some(n),
    {
        Rawlink { p: Some(n) }
    }

    /// The slot referred to, if any.
    pub fn resolve(&self) -> (slot: Link)
        ensures
            slot == self.slot(),
    {
        self.p
    }
}

impl From<Link> for Rawlink {
    /// A link that refers to whatever `node` links to.
    fn from(node: Link) -> (link: Rawlink)
        ensures
            link.slot() == node,
    {
        match node {
            None => Rawlink::none(),
            Some(slot) => Rawlink::some(slot),
        }
    }
}

impl FromSpecImpl<Link> for Rawlink {
    open spec fn obeys_from_spec() -> bool {
        true
    }

    closed spec fn from_spec(node: Link) -> Rawlink {
        Rawlink { p: node }
    }
}

/// The batch that the writer has staged, with the link to its last node.
///
/// `head` is the staging slot: whoever empties it owns the chain that
/// started there. `tail` is the writer's alone.
pub struct WriterList {
    /// The first node of the staged batch, or `None` if nothing is staged.
    pub head: Link,
    /// The node appended last.
    pub tail: Rawlink,
}

impl WriterList {
    /// A list with nothing staged.
    pub fn new() -> (list: WriterList)
        ensures
            list.head is None,
            list.tail.slot() is None,
    {
        WriterList { head: None, tail: Rawlink::none() }
    }

    /// Empties the staging slot and returns what was in it: the first node
    /// of the staged batch, or `None`. The tail is left as it is.
    pub fn take(&mut self) -> (batch: Link)
        ensures
            batch == old(self).head,
            final(self).head is None,
            final(self).tail == old(self).tail,
    {
        self.head.take()
    }

    /// Appends the node in slot `node` to the staged batch.
    ///
    /// With nothing staged the node becomes the start of a new batch.
    /// Otherwise it is linked behind the tail, which has to be the last node
    /// of the staged batch. Either way the node is the tail afterwards.
    pub fn push_back<T>(&mut self, nodes: &mut Vec<Node<T>>, node: usize)
        requires
            node < old(nodes).len(),
            old(nodes)[node as int].next is None,
            old(self).head is Some ==> (old(self).tail.slot() matches Some(last)
                && last < old(nodes).len() && old(nodes)[last as int].next is None),
        ensures
            final(self).tail.slot() == Some(node),
            final(self).head == if old(self).head is Some { old(self).head } else { Some(node) },
            final(nodes)@ == match old(self).head {
                Some(_) => {
                    let last = old(self).tail.slot().unwrap() as int;
                    old(nodes)@.update(
                        last,
                        Node { value: old(nodes)[last].value, next: Some(node) },
                    )
                },
                None => old(nodes)@,
            },
    {
        let batch = self.take();
        if batch.is_none() {
            self.push_front_node(nodes, node);
        } else {
            let last = self.tail.resolve().unwrap();
            nodes[last].set_next(node);
            self.tail = Rawlink::some(node);
            self.head = batch;
        }
    }

    /// Puts the node in slot `node`, which must not be linked to anything
    /// yet, in front of the staged batch. With nothing staged the node is
    /// the tail as well.
    pub fn push_front_node<T>(&mut self, nodes: &mut Vec<Node<T>>, node: usize)
        requires
            node < old(nodes).len(),
            old(nodes)[node as int].next is None,
        ensures
            final(self).head == Some(node),
            final(self).tail.slot() == if old(self).head is Some {
                old(self).tail.slot()
            } else {
                Some(node)
            },
            final(nodes)@ == match old(self).head {
                Some(first) => old(nodes)@.update(
                    node as int,
                    Node { value: old(nodes)[node as int].value, next: Some(first) },
                ),
                None => old(nodes)@,
            },
    {
        match self.head {
            None => {
                self.head = Some(node);
                self.tail = Rawlink::from(self.head);
            },
            Some(first) => {
                nodes[node].set_next(first);
                self.head = Some(node);
            },
        }
    }
}

} // verus!
