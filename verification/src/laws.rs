//! What holds of every use of a pipe.
//!
//! A pipe is written and read through `&mut`, so an operation of the writer
//! and one of the reader never overlap: however the calls of the two parties
//! are interleaved, the pipe sees a sequence of whole operations. The laws
//! here hold of every such sequence. They are stated over [`PipeState`], the
//! view in which the contracts of the pipe's operations are written, so
//! each of them holds of every pipe.

use vstd::prelude::*;
use crate::model::{Phase, PipeState};

verus! {

/// One operation on a pipe.
pub enum Op<T> {
    /// The writer writes a value.
    Write(T),
    /// The reader reads.
    Read,
    /// The writer is marked finished.
    Finish,
}

/// Whether `op` may be carried out in state `s`: everything may, except a
/// write once the writer is finished.
pub open spec fn allowed<T>(s: PipeState<T>, op: Op<T>) -> bool {
    op is Write ==> !s.finished
}

/// The state that `op` leaves behind when carried out in state `s`.
pub open spec fn step<T>(s: PipeState<T>, op: Op<T>) -> PipeState<T> {
    match op {
        Op::Write(v) => s.write(v),
        Op::Read => s.after_read(),
        Op::Finish => s.finish(),
    }
}

/// What `op` puts into the pipe: its value if it is a write, else nothing.
pub open spec fn offered<T>(op: Op<T>) -> Seq<T> {
    match op {
        Op::Write(v) => seq![v],
        _ => Seq::empty(),
    }
}

/// What `op` hands to the reader when carried out in state `s`: the value
/// returned if it is a read that finds one, else nothing.
pub open spec fn yielded<T>(s: PipeState<T>, op: Op<T>) -> Seq<T> {
    match op {
        Op::Read => match s.front() {
            Some(v) => seq![v],
            None => Seq::empty(),
        },
        _ => Seq::empty(),
    }
}

/// The state after `ops` have been carried out in order, starting in `s`.
pub open spec fn run<T>(s: PipeState<T>, ops: Seq<Op<T>>) -> PipeState<T>
    decreases ops.len(),
{
    if ops.len() == 0 {
        s
    } else {
        step(run(s, ops.drop_last()), ops.last())
    }
}

/// Whether each of `ops` is allowed in the state in which it is carried
/// out, starting in `s`.
pub open spec fn admissible<T>(s: PipeState<T>, ops: Seq<Op<T>>) -> bool
    decreases ops.len(),
{
    ops.len() == 0 || (admissible(s, ops.drop_last()) && allowed(
        run(s, ops.drop_last()),
        ops.last(),
    ))
}

/// The values written by `ops`, in the order of writing.
pub open spec fn written<T>(ops: Seq<Op<T>>) -> Seq<T>
    decreases ops.len(),
{
    if ops.len() == 0 {
        Seq::empty()
    } else {
        written(ops.drop_last()) + offered(ops.last())
    }
}

/// The values returned by the reads among `ops`, in the order of reading,
/// when `ops` are carried out starting in `s`.
pub open spec fn received<T>(s: PipeState<T>, ops: Seq<Op<T>>) -> Seq<T>
    decreases ops.len(),
{
    if ops.len() == 0 {
        Seq::empty()
    } else {
        received(s, ops.drop_last()) + yielded(run(s, ops.drop_last()), ops.last())
    }
}

/// The greatest length that the queue has at any moment while `ops` are
/// carried out, starting in `s`.
pub open spec fn peak<T>(s: PipeState<T>, ops: Seq<Op<T>>) -> nat
    decreases ops.len(),
{
    if ops.len() == 0 {
        s.queue().len()
    } else {
        let before = peak(s, ops.drop_last());
        let now = run(s, ops).queue().len();
        if now > before {
            now
        } else {
            before
        }
    }
}

/// Writing each of `values` in order.
pub open spec fn writes<T>(values: Seq<T>) -> Seq<Op<T>> {
    Seq::new(values.len(), |i: int| Op::Write(values[i]))
}

/// Reading `n` times.
pub open spec fn reads<T>(n: nat) -> Seq<Op<T>> {
    Seq::new(n, |i: int| Op::Read)
}

/// A write appends to the queue, leaves the reader with something visible,
/// and allocates a node only if none is spare.
pub proof fn lemma_write_appends<T>(s: PipeState<T>, v: T)
    ensures
        s.write(v).queue() == s.queue().push(v),
        s.write(v).finished == s.finished,
        s.write(v).visible.len() > 0,
        s.write(v).nodes() == if s.spare > 0 { s.nodes() } else { s.nodes() + 1 },
{
}

/// A read returns the head of the queue and removes it, keeping the node;
/// on an empty queue it returns nothing and changes nothing.
pub proof fn lemma_read_pops<T>(s: PipeState<T>)
    ensures
        s.after_read().finished == s.finished,
        s.after_read().nodes() == s.nodes(),
        s.queue().len() == 0 ==> s.front() is None && s.after_read() == s,
        s.queue().len() > 0 ==> s.front() == Some(s.queue()[0]) && s.after_read().queue()
            == s.queue().skip(1),
        s.visible.len() == 0 ==> s.after_read().pending.len() == 0,
{
}

/// How the operations move a pipe between its phases.
///
/// A write always leaves the reader with data. A read leaves the reader
/// with data or the pipe empty, and never leaves a batch staged that it
/// could have stolen. Finishing is final: neither reads nor further marks
/// lead out of it.
pub proof fn lemma_phase_transitions<T>(s: PipeState<T>, v: T)
    ensures
        PipeState::<T>::empty().phase() == Phase::Empty,
        !s.finished ==> s.write(v).phase() == Phase::ReaderHasData,
        s.phase() == Phase::Empty ==> s.after_read().phase() == Phase::Empty,
        s.phase() == Phase::WriterStaged ==> s.after_read().visible == s.pending.skip(1)
            && s.after_read().pending.len() == 0,
        s.phase() == Phase::ReaderHasData ==> s.after_read().visible == s.visible.skip(1)
            && s.after_read().pending == s.pending,
        s.after_read().phase() == Phase::WriterStaged ==> s.phase() == Phase::ReaderHasData
            && s.visible.len() == 1,
        s.finish().phase() == Phase::Finished,
        s.phase() == Phase::Finished ==> s.after_read().phase() == Phase::Finished
            && s.finish().phase() == Phase::Finished,
{
}

/// Carrying out `a` and then `b` is carrying out `a + b`.
pub proof fn lemma_run_concat<T>(s: PipeState<T>, a: Seq<Op<T>>, b: Seq<Op<T>>)
    ensures
        run(s, a + b) == run(run(s, a), b),
        received(s, a + b) == received(s, a) + received(run(s, a), b),
        written(a + b) == written(a) + written(b),
        admissible(s, a + b) == (admissible(s, a) && admissible(run(s, a), b)),
    decreases b.len(),
{
    if b.len() > 0 {
        lemma_run_concat(s, a, b.drop_last());
        assert((a + b).drop_last() =~= a + b.drop_last());
    }
}

/// Nothing is lost, made up, repeated or reordered: whatever the
/// operations and however those of the writer and those of the reader are
/// interleaved, the values read so far, followed by the values still
/// queued, are the values that were queued at the start followed by the
/// values written since, in the order of writing.
pub proof fn lemma_interleaving_preserves_order<T>(s: PipeState<T>, ops: Seq<Op<T>>)
    ensures
        received(s, ops) + run(s, ops).queue() == s.queue() + written(ops),
    decreases ops.len(),
{
    if ops.len() > 0 {
        let before = ops.drop_last();
        let mid = run(s, before);
        lemma_interleaving_preserves_order(s, before);
        match ops.last() {
            Op::Write(v) => {
                lemma_write_appends(mid, v);
            },
            Op::Read => {
                lemma_read_pops(mid);
            },
            Op::Finish => {},
        }
        assert(s.queue() + written(ops) =~= (s.queue() + written(before)) + offered(ops.last()));
    }
}

/// On a pipe that starts out empty, what the reader has received at any
/// moment is a prefix of what the writer has written up to that moment:
/// every value read was written before, and the reader gets the values in
/// the order of writing, each once.
pub proof fn lemma_received_is_prefix_of_written<T>(ops: Seq<Op<T>>)
    ensures
        received(PipeState::<T>::empty(), ops).is_prefix_of(written(ops)),
{
    let s = PipeState::<T>::empty();
    lemma_interleaving_preserves_order(s, ops);
}

/// Each written value is returned once: whatever has been done to a pipe
/// that started out empty, a reader that goes on to read until the queue is
/// empty has received exactly what was written, in the order of writing.
pub proof fn lemma_every_written_value_arrives<T>(ops: Seq<Op<T>>)
    ensures
        received(
            PipeState::<T>::empty(),
            ops + reads(run(PipeState::<T>::empty(), ops).queue().len()),
        ) == written(ops),
{
    let s = PipeState::<T>::empty();
    let mid = run(s, ops);
    let left = mid.queue().len();
    lemma_interleaving_preserves_order(s, ops);
    lemma_run_concat(s, ops, reads(left));
    lemma_run_reads(mid, left);
}

/// Writes alone only extend the queue: after writing `values` to a pipe
/// whose writer is not finished, the queue is what it was, followed by
/// `values`.
pub proof fn lemma_run_writes<T>(s: PipeState<T>, values: Seq<T>)
    requires
        !s.finished,
    ensures
        admissible(s, writes(values)),
        run(s, writes(values)).queue() == s.queue() + values,
        !run(s, writes(values)).finished,
        written(writes(values)) == values,
        received(s, writes(values)).len() == 0,
    decreases values.len(),
{
    let ops = writes(values);
    if values.len() > 0 {
        lemma_run_writes(s, values.drop_last());
        assert(ops.drop_last() =~= writes(values.drop_last()));
        lemma_write_appends(run(s, ops.drop_last()), values.last());
    }
}

/// Reads alone take the queue apart from its head: `n` reads, with at least
/// `n` values queued, return the first `n` values of the queue in order and
/// leave the rest.
pub proof fn lemma_run_reads<T>(s: PipeState<T>, n: nat)
    requires
        n <= s.queue().len(),
    ensures
        received(s, reads(n)) == s.queue().subrange(0, n as int),
        run(s, reads(n)).queue() == s.queue().skip(n as int),
        run(s, reads(n)).finished == s.finished,
    decreases n,
{
    if n > 0 {
        let m = (n - 1) as nat;
        lemma_run_reads(s, m);
        assert(reads::<T>(n).drop_last() =~= reads::<T>(m));
        lemma_read_pops(run(s, reads::<T>(m)));
    }
}

/// After `values` have been written to an empty pipe and `i` of them read
/// back, the reader has received the first `i` values and the rest is
/// queued.
pub proof fn lemma_written_then_read<T>(values: Seq<T>, i: nat)
    requires
        i <= values.len(),
    ensures
        admissible(PipeState::<T>::empty(), writes(values) + reads(i)),
        received(PipeState::<T>::empty(), writes(values) + reads(i)) == values.subrange(
            0,
            i as int,
        ),
        run(PipeState::<T>::empty(), writes(values) + reads(i)).queue() == values.skip(i as int),
{
    let s = PipeState::<T>::empty();
    let filled = run(s, writes(values));
    lemma_run_writes(s, values);
    lemma_run_concat(s, writes(values), reads(i));
    lemma_run_reads(filled, i);
    lemma_reads_admissible(filled, i);
}

/// Reads are always allowed.
pub proof fn lemma_reads_admissible<T>(s: PipeState<T>, n: nat)
    ensures
        admissible(s, reads(n)),
    decreases n,
{
    if n > 0 {
        let m = (n - 1) as nat;
        lemma_reads_admissible(s, m);
        assert(reads::<T>(n).drop_last() =~= reads::<T>(m));
    }
}

/// First in, first out: when `values` are written to an empty pipe with no
/// read in between, the reads that follow return exactly `values`, one
/// after the other in the order of writing, and leave the pipe empty.
pub proof fn lemma_fifo<T>(values: Seq<T>)
    ensures
        received(PipeState::<T>::empty(), writes(values) + reads(values.len())) == values,
        run(PipeState::<T>::empty(), writes(values) + reads(values.len())).queue().len() == 0,
        forall|i: nat|
            i < values.len() ==> (#[trigger] run(
                PipeState::<T>::empty(),
                writes(values) + reads(i),
            )).front() == Some(values[i as int]),
{
    let s = PipeState::<T>::empty();
    lemma_written_then_read(values, values.len());
    assert forall|i: nat| i < values.len() implies (#[trigger] run(
        s,
        writes(values) + reads(i),
    )).front() == Some(values[i as int]) by {
        lemma_written_then_read(values, i);
        lemma_read_pops(run(s, writes(values) + reads(i)));
    }
}

/// Consumed nodes are used again: a pipe allocates a node only when more
/// values are queued than ever before. So a pipe that started out empty
/// holds as many nodes as the most values that were ever queued at once,
/// however long it is in use.
pub proof fn lemma_nodes_follow_peak<T>(s: PipeState<T>, ops: Seq<Op<T>>)
    ensures
        run(s, ops).nodes() == if peak(s, ops) > s.nodes() { peak(s, ops) } else { s.nodes() },
        run(PipeState::<T>::empty(), ops).nodes() == peak(PipeState::<T>::empty(), ops),
    decreases ops.len(),
{
    let fresh = PipeState::<T>::empty();
    if ops.len() > 0 {
        let before = ops.drop_last();
        lemma_nodes_follow_peak(s, before);
        lemma_nodes_follow_peak(fresh, before);
        match ops.last() {
            Op::Write(v) => {
                lemma_write_appends(run(s, before), v);
                lemma_write_appends(run(fresh, before), v);
            },
            Op::Read => {
                lemma_read_pops(run(s, before));
                lemma_read_pops(run(fresh, before));
            },
            Op::Finish => {},
        }
    }
}

/// A read on a fresh pipe finds nothing.
pub proof fn lemma_fresh_pipe_reads_empty<T>()
    ensures
        PipeState::<T>::empty().front() is None,
        PipeState::<T>::empty().after_read() == PipeState::<T>::empty(),
{
}

/// Draining is idempotent: once the queue is empty, any number of further
/// reads return nothing and leave the state as it is.
pub proof fn lemma_drained_stays_drained<T>(s: PipeState<T>, n: nat)
    requires
        s.queue().len() == 0,
    ensures
        run(s, reads(n)) == s,
        received(s, reads(n)).len() == 0,
    decreases n,
{
    if n > 0 {
        let m = (n - 1) as nat;
        lemma_drained_stays_drained(s, m);
        assert(reads::<T>(n).drop_last() =~= reads::<T>(m));
    }
}

/// Once the writer is finished no write is allowed, whatever is done in
/// between: the mark is never cleared.
pub proof fn lemma_finished_rejects_writes<T>(s: PipeState<T>, ops: Seq<Op<T>>, v: T)
    ensures
        run(s.finish(), ops).finished,
        !allowed(run(s.finish(), ops), Op::Write(v)),
    decreases ops.len(),
{
    if ops.len() > 0 {
        lemma_finished_rejects_writes(s, ops.drop_last(), v);
    }
}

} // verus!
