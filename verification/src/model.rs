//! The abstract state of a pipe, and how writing and reading change it.

use vstd::prelude::*;

verus! {

/// Where a pipe stands in its life.
#[derive(Clone, Copy, Debug, PartialEq, Eq, Structural)]
pub enum Phase {
    /// Nothing is visible to the reader and nothing is staged.
    Empty,
    /// The reader has a batch to consume.
    ReaderHasData,
    /// Nothing is visible to the reader, but the writer has staged a batch,
    /// which the next read will steal.
    WriterStaged,
    /// The writer is finished. Reads go on until the pipe is drained.
    Finished,
}

/// What a pipe holds, seen from outside: the payloads on either side of the
/// hand-off boundary and whether the writer is done.
pub struct PipeState<T> {
    /// The payloads of the batch exposed to the reader, oldest first.
    pub visible: Seq<T>,
    /// The payloads that the writer has staged and not handed over, oldest
    /// first. All of them are younger than any visible payload.
    pub pending: Seq<T>,
    /// The number of nodes whose payload has been consumed and which wait
    /// to carry another.
    pub spare: nat,
    /// Whether the writer has declared that it will write no more.
    pub finished: bool,
}

impl<T> PipeState<T> {
    /// The state of a fresh pipe.
    pub open spec fn empty() -> PipeState<T> {
        PipeState { visible: Seq::empty(), pending: Seq::empty(), spare: 0, finished: false }
    }

    /// Everything written and not yet read, oldest first.
    pub open spec fn queue(self) -> Seq<T> {
        self.visible + self.pending
    }

    /// The phase that a pipe in this state is in.
    pub open spec fn phase(self) -> Phase {
        if self.finished {
            Phase::Finished
        } else if self.visible.len() > 0 {
            Phase::ReaderHasData
        } else if self.pending.len() > 0 {
            Phase::WriterStaged
        } else {
            Phase::Empty
        }
    }

    /// The number of nodes that the pipe has allocated: one for each queued
    /// value, and the spare ones.
    pub open spec fn nodes(self) -> nat {
        self.visible.len() + self.pending.len() + self.spare
    }

    /// The state after `v` has been written.
    ///
    /// The payload goes into a spare node if there is one, else into a new
    /// one, and joins the staged batch. If the reader has nothing visible,
    /// the whole batch is handed over at once.
    pub open spec fn write(self, v: T) -> PipeState<T> {
        let spare = if self.spare > 0 {
            (self.spare - 1) as nat
        } else {
            0
        };
        if self.visible.len() == 0 {
            PipeState {
                visible: self.pending.push(v),
                pending: Seq::empty(),
                spare,
                finished: self.finished,
            }
        } else {
            PipeState {
                visible: self.visible,
                pending: self.pending.push(v),
                spare,
                finished: self.finished,
            }
        }
    }

    /// What a read returns: the oldest payload, or `None` if there is none.
    pub open spec fn front(self) -> Option<T> {
        if self.queue().len() > 0 {
            Some(self.queue()[0])
        } else {
            None
        }
    }

    /// The state after a read.
    ///
    /// The read consumes the first visible payload. With nothing visible it
    /// steals the staged batch, consumes its first payload and keeps the
    /// rest visible. The node that carried the payload becomes a spare one.
    /// With nothing staged either, nothing changes.
    pub open spec fn after_read(self) -> PipeState<T> {
        if self.visible.len() > 0 {
            PipeState {
                visible: self.visible.skip(1),
                pending: self.pending,
                spare: self.spare + 1,
                finished: self.finished,
            }
        } else if self.pending.len() > 0 {
            PipeState {
                visible: self.pending.skip(1),
                pending: Seq::empty(),
                spare: self.spare + 1,
                finished: self.finished,
            }
        } else {
            self
        }
    }

    /// The state after the writer has been marked finished.
    pub open spec fn finish(self) -> PipeState<T> {
        PipeState { visible: self.visible, pending: self.pending, spare: self.spare, finished: true }
    }
}

} // verus!
