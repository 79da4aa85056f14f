//! The nodes that make up the batches of a pipe, and what it means for a
//! run of them to form a chain.
//!
//! Nodes live in a store (a vector) and refer to each other by slot, so a
//! link is a plain index and handing a whole chain from one owner to another
//! is a matter of handing over the index of its first node.

use vstd::prelude::*;

verus! {

/// A link to a node: the slot that the node occupies in the node store,
/// or `None` where a chain ends.
pub type Link = Option<usize>;

/// One link of a chain: a slot for a single payload and the link to the
/// node that follows it.
pub struct Node<T> {
    /// The payload, until it has been consumed.
    pub value: Option<T>,
    /// The following node, or `None` if this node is the last of its chain.
    pub next: Link,
}

impl<T> Node<T> {
    /// Wraps `v` in a node that is not linked to any other.
    pub fn new(v: T) -> (node: Node<T>)
        ensures
            node.value == Some(v),
            node.next is None,
    {
        Node { value: Some(v), next: None }
    }

    /// Links this node to the node in slot `next`.
    ///
    /// The node must be the last of its chain: overwriting a link would
    /// detach whatever followed it.
    pub fn set_next(&mut self, next: usize)
        requires
            old(self).next is None,
        ensures
            final(self).next == Some(next),
            final(self).value == old(self).value,
    {
        self.next = Some(next);
    }
}

/// The link to the `k`-th node of `chain`, or `None` if the chain has no
/// such node.
pub open spec fn link_at(chain: Seq<usize>, k: int) -> Link {
    if 0 <= k < chain.len() {
        Some(chain[k])
    } else {
        None
    }
}

/// `chain` lists, in order, the slots of the nodes that are reached from
/// `head` by following `next` links until they run out.
pub open spec fn is_chain<T>(nodes: Seq<Node<T>>, head: Link, chain: Seq<usize>) -> bool {
    &&& head == link_at(chain, 0)
    &&& forall|k: int| 0 <= k < chain.len() ==> #[trigger] chain[k] < nodes.len()
    &&& forall|k: int|
        0 <= k < chain.len() ==> (#[trigger] nodes[chain[k] as int]).next == link_at(chain, k + 1)
}

/// Every node of `chain` still holds its payload.
pub open spec fn filled<T>(nodes: Seq<Node<T>>, chain: Seq<usize>) -> bool {
    forall|k: int| 0 <= k < chain.len() ==> (#[trigger] nodes[chain[k] as int]).value is Some
}

/// No node of `chain` holds a payload.
pub open spec fn drained<T>(nodes: Seq<Node<T>>, chain: Seq<usize>) -> bool {
    forall|k: int| 0 <= k < chain.len() ==> (#[trigger] nodes[chain[k] as int]).value is None
}

/// The payloads held by the nodes of `chain`, in chain order.
pub open spec fn payloads<T>(nodes: Seq<Node<T>>, chain: Seq<usize>) -> Seq<T> {
    Seq::new(chain.len(), |k: int| nodes[chain[k] as int].value.unwrap())
}

/// Slot `slot` does not occur in `chain`.
pub open spec fn absent(chain: Seq<usize>, slot: usize) -> bool {
    forall|k: int| 0 <= k < chain.len() ==> #[trigger] chain[k] != slot
}

/// No slot occurs in both `a` and `b`.
pub open spec fn disjoint(a: Seq<usize>, b: Seq<usize>) -> bool {
    forall|i: int, j: int| 0 <= i < a.len() && 0 <= j < b.len() ==> #[trigger] a[i] != #[trigger] b[j]
}

} // verus!
