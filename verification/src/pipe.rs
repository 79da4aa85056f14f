//! The pipe: a FIFO queue that hands values from one writer to one reader in
//! batches of linked nodes.
//!
//! The writer never waits for the reader and the reader never waits for the
//! writer: a write always succeeds, and a read that finds nothing says so at
//! once. Each operation takes the pipe by `&mut` and is carried out as a
//! whole.

use vstd::prelude::*;
use crate::model::{Phase, PipeState};
use crate::node::{absent, disjoint, drained, filled, is_chain, link_at, payloads, Link, Node};
use crate::reader_list::ReaderList;
use crate::writer_list::WriterList;

verus! {

/// What the two capabilities of a pipe speak of.
pub trait PipeModel<T> {
    /// Whether the pipe's internal structure is intact.
    spec fn wf(&self) -> bool;

    /// Everything written and not yet read, oldest first.
    spec fn queue(&self) -> Seq<T>;

    /// Whether the writer has been marked finished.
    spec fn finished(&self) -> bool;
}

/// The capability to put values into a pipe.
pub trait PipeWriter<T>: PipeModel<T> {
    /// Appends `elt` to the queue. Not allowed once the writer is finished.
    fn write(&mut self, elt: T)
        requires
            old(self).wf(),
            !old(self).finished(),
        ensures
            final(self).wf(),
            final(self).queue() == old(self).queue().push(elt),
            final(self).finished() == old(self).finished(),
    ;
}

/// The capability to take values out of a pipe.
pub trait PipeReader<T>: PipeModel<T> {
    /// Removes and returns the oldest value of the queue, or returns `None`
    /// at once if the queue is empty.
    fn read(&mut self) -> (value: Option<T>)
        requires
            old(self).wf(),
        ensures
            final(self).wf(),
            final(self).finished() == old(self).finished(),
            old(self).queue().len() == 0 ==> value is None && final(self).queue() == old(self).queue(),
            old(self).queue().len() > 0 ==> value == Some(old(self).queue()[0])
                && final(self).queue() == old(self).queue().skip(1),
    ;
}

/// A single-writer, single-reader FIFO queue.
///
/// Values travel in nodes. The writer appends nodes to a staged batch and
/// hands the batch over whole whenever the reader has nothing left; a reader
/// that runs dry steals whatever is staged. Consumed nodes go to a spare
/// chain and are used again by later writes.
pub struct Pipe<T> {
    nodes: Vec<Node<T>>,
    spare: Link,
    writer: WriterList,
    writer_finished: bool,
    reader: ReaderList,
    visible: Ghost<Seq<usize>>,
    pending: Ghost<Seq<usize>>,
    spares: Ghost<Seq<usize>>,
}

impl<T> View for Pipe<T> {
    type V = PipeState<T>;

    closed spec fn view(&self) -> PipeState<T> {
        PipeState {
            visible: payloads(self.nodes@, self.visible@),
            pending: payloads(self.nodes@, self.pending@),
            spare: self.spares@.len(),
            finished: self.writer_finished,
        }
    }
}

impl<T> Pipe<T> {
    /// The three chains are what the links say they are, share no node, and
    /// hold payloads exactly where they should.
    spec fn linked(&self) -> bool {
        &&& is_chain(self.nodes@, self.reader.head(), self.visible@)
        &&& is_chain(self.nodes@, self.writer.head, self.pending@)
        &&& is_chain(self.nodes@, self.spare, self.spares@)
        &&& self.pending@.len() > 0 ==> self.writer.tail.slot() == Some(self.pending@.last())
        &&& self.visible@.no_duplicates()
        &&& self.pending@.no_duplicates()
        &&& self.spares@.no_duplicates()
        &&& disjoint(self.visible@, self.pending@)
        &&& disjoint(self.visible@, self.spares@)
        &&& disjoint(self.pending@, self.spares@)
        &&& filled(self.nodes@, self.visible@)
        &&& filled(self.nodes@, self.pending@)
        &&& drained(self.nodes@, self.spares@)
    }

    /// The chains are in order and every node but `slot` is on one of them.
    spec fn holding(&self, slot: usize) -> bool {
        &&& self.linked()
        &&& slot < self.nodes@.len()
        &&& absent(self.visible@, slot)
        &&& absent(self.pending@, slot)
        &&& absent(self.spares@, slot)
        &&& self.visible@.len() + self.pending@.len() + self.spares@.len() + 1 == self.nodes@.len()
    }

    /// Whether the pipe's internal structure is intact: every node is on
    /// exactly one of the visible, the staged and the spare chain, the
    /// writer's tail is the last staged node, and a node holds a payload
    /// if and only if it is visible or staged.
    pub closed spec fn wf(&self) -> bool {
        &&& self.linked()
        &&& self.visible@.len() + self.pending@.len() + self.spares@.len() == self.nodes@.len()
    }

    /// An empty pipe, ready for writing and reading.
    pub fn new() -> (pipe: Pipe<T>)
        ensures
            pipe.wf(),
            pipe@ == PipeState::<T>::empty(),
    {
        let pipe = Pipe {
            nodes: Vec::new(),
            spare: None,
            writer: WriterList::new(),
            writer_finished: false,
            reader: ReaderList::new(),
            visible: Ghost(Seq::empty()),
            pending: Ghost(Seq::empty()),
            spares: Ghost(Seq::empty()),
        };
        assert(pipe@.visible =~= Seq::empty());
        assert(pipe@.pending =~= Seq::empty());
        pipe
    }

    /// Stores `elt` in a node that is on no chain, reusing a spare node if
    /// there is one, and returns the node's slot.
    fn acquire(&mut self, elt: T) -> (slot: usize)
        requires
            old(self).wf(),
        ensures
            final(self).holding(slot),
            final(self).nodes[slot as int].value == Some(elt),
            final(self).nodes[slot as int].next is None,
            final(self).visible == old(self).visible,
            final(self).pending == old(self).pending,
            final(self).reader == old(self).reader,
            final(self).writer == old(self).writer,
            final(self)@.visible == old(self)@.visible,
            final(self)@.pending == old(self)@.pending,
            final(self)@.finished == old(self)@.finished,
            final(self)@.spare == if old(self)@.spare > 0 { old(self)@.spare - 1 } else { 0 },
    {
        match self.spare {
            Some(slot) => {
                self.spare = self.nodes[slot].next;
                self.nodes[slot] = Node::new(elt);
                self.spares = Ghost(self.spares@.skip(1));
                slot
            },
            None => {
                self.nodes.push(Node::new(elt));
                self.nodes.len() - 1
            },
        }
    }

    /// Puts the node in `slot`, which is on no chain and holds no payload,
    /// on the spare chain.
    fn release(&mut self, slot: usize)
        requires
            old(self).holding(slot),
            old(self).nodes[slot as int].value is None,
        ensures
            final(self).wf(),
            final(self).visible == old(self).visible,
            final(self).pending == old(self).pending,
            final(self).reader == old(self).reader,
            final(self).writer == old(self).writer,
            final(self)@.visible == old(self)@.visible,
            final(self)@.pending == old(self)@.pending,
            final(self)@.finished == old(self)@.finished,
            final(self)@.spare == old(self)@.spare + 1,
    {
        self.nodes[slot].next = self.spare;
        self.spare = Some(slot);
        self.spares = Ghost(seq![slot] + self.spares@);
    }

    /// Walks the visible batch from its head to its end and moves the
    /// payload of every node on it to the end of `out`. Links are left as
    /// they are, and so are the nodes that are not on the batch.
    fn unload(&mut self, out: &mut Vec<T>)
        requires
            is_chain(old(self).nodes@, old(self).reader.head(), old(self).visible@),
            filled(old(self).nodes@, old(self).visible@),
            old(self).visible@.no_duplicates(),
        ensures
            final(out)@ == old(out)@ + payloads(old(self).nodes@, old(self).visible@),
            final(self).reader.head() is None,
            final(self).writer == old(self).writer,
            final(self).pending == old(self).pending,
            final(self).nodes@.len() == old(self).nodes@.len(),
            forall|i: int|
                0 <= i < final(self).nodes@.len() ==> (#[trigger] final(self).nodes@[i]).next == old(
                    self,
                ).nodes@[i].next,
            forall|i: int|
                0 <= i < final(self).nodes@.len() && absent(old(self).visible@, i as usize)
                    ==> #[trigger] final(self).nodes@[i] == old(self).nodes@[i],
    {
        let ghost chain = self.visible@;
        let ghost before = self.nodes@;
        let ghost mut done: int = 0;
        while !self.reader.is_empty()
            invariant
                0 <= done <= chain.len(),
                chain.no_duplicates(),
                is_chain(before, old(self).reader.head(), chain),
                filled(before, chain),
                self.reader.head() == link_at(chain, done),
                self.writer == old(self).writer,
                self.pending == old(self).pending,
                self.nodes@.len() == before.len(),
                forall|i: int|
                    0 <= i < before.len() ==> (#[trigger] self.nodes@[i]).next == before[i].next,
                forall|i: int|
                    0 <= i < before.len() && (forall|k: int| 0 <= k < done ==> chain[k] != i)
                        ==> #[trigger] self.nodes@[i] == before[i],
                out@ == old(out)@ + payloads(before, chain).take(done),
            decreases chain.len() - done,
        {
            let slot = self.reader.pop_front(&self.nodes).unwrap();
            let payload = self.nodes[slot].value.take().unwrap();
            out.push(payload);
            proof {
                done = done + 1;
            }
        }
    }

    /// Takes the pipe apart and returns the values that were still
    /// queued, oldest first.
    ///
    /// Both batches are walked from their heads, the visible one and then
    /// the staged one, and every node on them gives up its payload. The
    /// nodes go with the pipe.
    pub fn into_vec(self) -> (rest: Vec<T>)
        requires
            self.wf(),
        ensures
            rest@ == self@.queue(),
    {
        let mut pipe = self;
        let mut rest = Vec::new();
        pipe.unload(&mut rest);
        let staged = pipe.writer.take();
        pipe.reader.set_head(staged);
        pipe.visible = pipe.pending;
        pipe.unload(&mut rest);
        rest
    }

    /// The number of nodes that the pipe has allocated. It grows by one with
    /// a write that finds no spare node, and not otherwise.
    pub fn node_count(&self) -> (count: usize)
        requires
            self.wf(),
        ensures
            count == self@.nodes(),
    {
        self.nodes.len()
    }

    /// The phase that the pipe is in.
    pub fn phase(&self) -> (phase: Phase)
        requires
            self.wf(),
        ensures
            phase == self@.phase(),
    {
        if self.writer_finished {
            Phase::Finished
        } else if !self.reader.is_empty() {
            Phase::ReaderHasData
        } else if self.writer.head.is_some() {
            Phase::WriterStaged
        } else {
            Phase::Empty
        }
    }

    /// Marks the writer finished: from now on nothing may be written.
    /// What is in the queue stays there for the reader.
    pub fn finish(&mut self)
        requires
            old(self).wf(),
        ensures
            final(self).wf(),
            final(self)@ == old(self)@.finish(),
    {
        self.writer_finished = true;
    }

    /// Whether the writer has been marked finished.
    pub fn is_finished(&self) -> (finished: bool)
        ensures
            finished == self@.finished,
    {
        self.writer_finished
    }
}

impl<T> Default for Pipe<T> {
    /// An empty pipe.
    fn default() -> (pipe: Pipe<T>)
        ensures
            pipe.wf(),
            pipe@ == PipeState::<T>::empty(),
    {
        Pipe::new()
    }
}

impl<T> PipeModel<T> for Pipe<T> {
    open spec fn wf(&self) -> bool {
        Pipe::wf(self)
    }

    open spec fn queue(&self) -> Seq<T> {
        self@.queue()
    }

    open spec fn finished(&self) -> bool {
        self@.finished
    }
}

impl<T> PipeWriter<T> for Pipe<T> {
    /// Appends `elt` to the queue.
    ///
    /// The value is put in a node at the end of the staged batch. If the
    /// reader has nothing visible, the whole staged batch, the new node
    /// included, is handed over to it.
    ///
    /// Writing to a finished pipe is a fault of the caller. Verified callers
    /// are held to the precondition; any other caller that violates it is
    /// stopped by an assertion at run time, before the pipe is touched.
    fn write(&mut self, elt: T)
        ensures
            final(self)@ == old(self)@.write(elt),
    {
        vstd::pervasive::runtime_assert(!self.writer_finished);
        let node = self.acquire(elt);
        self.writer.push_back(&mut self.nodes, node);
        self.pending = Ghost(self.pending@.push(node));
        proof {
            assert(self@.visible =~= old(self)@.visible);
            assert(self@.pending =~= old(self)@.pending.push(elt));
        }
        if self.reader.set_head_if_empty(self.writer.head) {
            self.writer.take();
            self.visible = self.pending;
            self.pending = Ghost(Seq::empty());
            proof {
                assert(self@.pending =~= Seq::empty());
            }
        }
    }
}

impl<T> PipeReader<T> for Pipe<T> {
    /// Removes and returns the oldest value of the queue, or returns `None`
    /// if the queue is empty, in which case the pipe is left untouched.
    ///
    /// The value comes from the first visible node. With nothing visible
    /// the staged batch is stolen from the writer and becomes the visible
    /// one. The consumed node goes to the spare chain.
    fn read(&mut self) -> (value: Option<T>)
        ensures
            value == old(self)@.front(),
            final(self)@ == old(self)@.after_read(),
            old(self)@.queue().len() == 0 ==> *final(self) == *old(self),
    {
        let mut front = self.reader.pop_front(&self.nodes);
        if front.is_none() {
            let batch = self.writer.take();
            if batch.is_none() {
                return None;
            }
            self.reader.set_head(batch);
            self.visible = self.pending;
            self.pending = Ghost(Seq::empty());
            front = self.reader.pop_front(&self.nodes);
        }
        let slot = front.unwrap();
        let ghost chain = self.visible@;
        let ghost stolen = old(self).visible@.len() == 0;
        self.visible = Ghost(chain.skip(1));
        let value = self.nodes[slot].value.take();
        proof {
            assert(self@.visible =~= payloads(old(self).nodes@, chain).skip(1));
            assert(self@.pending =~= if stolen { Seq::empty() } else { old(self)@.pending });
        }
        self.release(slot);
        value
    }
}

} // verus!
