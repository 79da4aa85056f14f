use spsc_pipe::node::{Link, Node};
use spsc_pipe::reader_list::ReaderList;
use spsc_pipe::writer_list::{Rawlink, WriterList};

fn store(values: &[u32]) -> Vec<Node<u32>> {
    let mut nodes = Vec::new();
    for v in values {
        nodes.push(Node::new(*v));
    }
    nodes
}

fn chain_of(nodes: &Vec<Node<u32>>, head: Link) -> Vec<u32> {
    let mut out = Vec::new();
    let mut cur = head;
    while let Some(slot) = cur {
        out.push(nodes[slot].value.unwrap());
        cur = nodes[slot].next;
    }
    out
}

#[test]
fn new_node_holds_its_value_and_no_link() {
    let node = Node::new(41u32);
    assert_eq!(Some(41), node.value);
    assert_eq!(None, node.next);
}

#[test]
fn set_next_links_and_keeps_the_value() {
    let mut node = Node::new('x');
    node.set_next(3);
    assert_eq!(Some(3), node.next);
    assert_eq!(Some('x'), node.value);
}

#[test]
fn rawlink_none_resolves_to_nothing() {
    assert_eq!(None, Rawlink::none().resolve());
}

#[test]
fn rawlink_some_resolves_to_its_slot() {
    assert_eq!(Some(12), Rawlink::some(12).resolve());
    assert_eq!(Some(0), Rawlink::some(0).resolve());
}

#[test]
fn rawlink_from_link() {
    assert_eq!(None, Rawlink::from(None).resolve());
    assert_eq!(Some(5), Rawlink::from(Some(5)).resolve());
    let copy = Rawlink::some(9);
    let other = copy;
    assert_eq!(copy.resolve(), other.resolve());
}

#[test]
fn new_reader_list_is_empty() {
    let list = ReaderList::new();
    assert!(list.is_empty());
}

#[test]
fn set_head_replaces_the_visible_chain() {
    let mut list = ReaderList::new();
    list.set_head(Some(2));
    assert!(!list.is_empty());
    list.set_head(None);
    assert!(list.is_empty());
}

#[test]
fn set_head_if_empty_takes_only_when_empty() {
    let nodes = store(&[10, 20]);
    let mut list = ReaderList::new();
    assert!(list.set_head_if_empty(Some(1)));
    assert!(!list.is_empty());
    assert!(!list.set_head_if_empty(Some(0)));
    // The first chain is still the visible one.
    assert_eq!(Some(1), list.pop_front(&nodes));
    assert!(list.is_empty());
}

#[test]
fn set_head_if_empty_with_an_empty_chain() {
    let mut list = ReaderList::new();
    assert!(list.set_head_if_empty(None));
    assert!(list.is_empty());
    assert!(list.set_head_if_empty(Some(4)));
    assert!(!list.is_empty());
}

#[test]
fn pop_front_walks_the_chain() {
    let mut nodes = store(&[10, 20, 30]);
    // Chain 2 -> 0 -> 1.
    nodes[2].set_next(0);
    nodes[0].set_next(1);
    let mut list = ReaderList::new();
    list.set_head(Some(2));
    assert_eq!(Some(2), list.pop_front(&nodes));
    assert_eq!(Some(0), list.pop_front(&nodes));
    assert_eq!(Some(1), list.pop_front(&nodes));
    assert_eq!(None, list.pop_front(&nodes));
    assert_eq!(None, list.pop_front(&nodes));
    assert!(list.is_empty());
}

#[test]
fn new_writer_list_has_nothing_staged() {
    let list = WriterList::new();
    assert_eq!(None, list.head);
    assert_eq!(None, list.tail.resolve());
}

#[test]
fn push_back_builds_a_batch_in_order() {
    let mut nodes = store(&[7, 8, 9]);
    let mut list = WriterList::new();
    list.push_back(&mut nodes, 1);
    assert_eq!(Some(1), list.head);
    assert_eq!(Some(1), list.tail.resolve());
    list.push_back(&mut nodes, 2);
    assert_eq!(Some(1), list.head);
    assert_eq!(Some(2), list.tail.resolve());
    list.push_back(&mut nodes, 0);
    assert_eq!(Some(1), list.head);
    assert_eq!(Some(0), list.tail.resolve());
    assert_eq!(vec![8, 9, 7], chain_of(&nodes, list.head));
}

#[test]
fn take_empties_the_staging_slot_and_keeps_the_tail() {
    let mut nodes = store(&[7, 8]);
    let mut list = WriterList::new();
    assert_eq!(None, list.take());
    list.push_back(&mut nodes, 0);
    list.push_back(&mut nodes, 1);
    assert_eq!(Some(0), list.take());
    assert_eq!(None, list.head);
    assert_eq!(Some(1), list.tail.resolve());
    assert_eq!(None, list.take());
}

#[test]
fn push_back_after_take_starts_a_new_batch() {
    let mut nodes = store(&[7, 8, 9]);
    let mut list = WriterList::new();
    list.push_back(&mut nodes, 0);
    list.push_back(&mut nodes, 1);
    let first = list.take();
    list.push_back(&mut nodes, 2);
    assert_eq!(Some(2), list.head);
    assert_eq!(Some(2), list.tail.resolve());
    // The batch taken before is not extended by the later write.
    assert_eq!(vec![7, 8], chain_of(&nodes, first));
    assert_eq!(vec![9], chain_of(&nodes, list.head));
}

#[test]
fn push_front_node_on_an_empty_list_sets_head_and_tail() {
    let mut nodes = store(&[7]);
    let mut list = WriterList::new();
    list.push_front_node(&mut nodes, 0);
    assert_eq!(Some(0), list.head);
    assert_eq!(Some(0), list.tail.resolve());
    assert_eq!(None, nodes[0].next);
}

#[test]
fn push_front_node_goes_before_the_staged_batch() {
    let mut nodes = store(&[7, 8, 9]);
    let mut list = WriterList::new();
    list.push_back(&mut nodes, 0);
    list.push_back(&mut nodes, 1);
    list.push_front_node(&mut nodes, 2);
    assert_eq!(Some(2), list.head);
    assert_eq!(Some(1), list.tail.resolve());
    assert_eq!(vec![9, 7, 8], chain_of(&nodes, list.head));
}
