//! The reader's end of a pipe: the batch that is currently exposed to it.

use vstd::prelude::*;
use crate::node::{Link, Node};

verus! {

/// The head of the chain of nodes that the reader may consume without
/// touching the writer's staging slot.
///
/// The list itself only records where the chain starts; the nodes live in
/// the node store of the pipe that owns the list.
pub struct ReaderList {
    head: Link,
}

impl ReaderList {
    /// The link to the first visible node.
    pub closed spec fn head(&self) -> Link {
        self.head
    }

    /// A list with nothing visible.
    pub fn new() -> (list: ReaderList)
        ensures
            list.head() is None,
    {
        ReaderList { head: None }
    }

    /// Whether nothing is visible to the reader.
    pub fn is_empty(&self) -> (empty: bool)
        ensures
            empty == (self.head() is None),
    {
        self.get_head().is_none()
    }

    /// Exposes the chain that starts at `head`, but only if nothing is
    /// visible yet. Returns whether the chain was taken over; if it was not,
    /// the list is unchanged and the caller keeps the chain.
    pub fn set_head_if_empty(&mut self, head: Link) -> (taken: bool)
        ensures
            taken == (old(self).head() is None),
            final(self).head() == if taken { head } else { old(self).head() },
            !taken ==> *final(self) == *old(self),
    {
        if self.is_empty() {
            self.set_head(head);
            true
        } else {
            false
        }
    }

    /// Makes the chain that starts at `head` the visible one.
    pub fn set_head(&mut self, head: Link)
        ensures
            final(self).head() == head,
    {
        self.head = head;
    }

    /// Detaches the first visible node and returns its slot, advancing the
    /// list to the node that follows it in `nodes`. Returns `None`, and
    /// changes nothing, if no node is visible.
    pub fn pop_front<T>(&mut self, nodes: &Vec<Node<T>>) -> (front: Link)
        requires
            old(self).head() matches Some(slot) ==> slot < nodes.len(),
        ensures
            front == old(self).head(),
            final(self).head() == match front {
                Some(slot) => nodes[slot as int].next,
                None => None,
            },
            front is None ==> *final(self) == *old(self),
    {
        let front = self.get_head();
        match front {
            None => None,
            Some(slot) => {
                self.set_head(nodes[slot].next);
                front
            },
        }
    }

    fn get_head(&self) -> (head: Link)
        ensures
            head == self.head(),
    {
        self.head
    }
}

} // verus!
