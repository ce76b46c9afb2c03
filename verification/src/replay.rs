//! What a run of drains adds up to.
//!
//! A run of ticks is a sequence of read attempts. The laws here say that the
//! sink ends up holding exactly the bytes that the successful reads
//! delivered, in the order of the reads, however the shell's output was cut
//! into reads and however many idle or failed attempts lay in between.

use crate::drain::{sink_after, ReadOutcome};
use vstd::prelude::*;

verus! {

/// One read attempt as a drain sees it: the scratch buffer after the read and
/// the classified outcome.
pub struct ReadStep {
    pub scratch: Seq<u8>,
    pub outcome: ReadOutcome,
}

/// The bytes that one read attempt delivered.
pub open spec fn step_bytes(step: ReadStep) -> Seq<u8> {
    sink_after(Seq::<u8>::empty(), step.scratch, step.outcome)
}

/// The sink after the read attempts `steps` were drained into `sink`, one
/// after the other.
pub open spec fn replay(sink: Seq<u8>, steps: Seq<ReadStep>) -> Seq<u8>
    decreases steps.len(),
{
    if steps.len() == 0 {
        sink
    } else {
        sink_after(replay(sink, steps.drop_last()), steps.last().scratch, steps.last().outcome)
    }
}

/// All the bytes that the read attempts `steps` delivered, in order.
pub open spec fn delivered(steps: Seq<ReadStep>) -> Seq<u8>
    decreases steps.len(),
{
    if steps.len() == 0 {
        Seq::<u8>::empty()
    } else {
        delivered(steps.drop_last()) + step_bytes(steps.last())
    }
}

/// The read attempts by which a reader that takes at most `size` bytes at a
/// time consumes `stream`: each takes as much of what is still pending as
/// fits.
pub open spec fn chunked(stream: Seq<u8>, size: usize) -> Seq<ReadStep>
    decreases stream.len(),
{
    if size == 0 || stream.len() == 0 {
        Seq::<ReadStep>::empty()
    } else if stream.len() <= size {
        seq![ReadStep { scratch: stream, outcome: ReadOutcome::Data(stream.len() as usize) }]
    } else {
        seq![
            ReadStep { scratch: stream.take(size as int), outcome: ReadOutcome::Data(size) },
        ] + chunked(stream.skip(size as int), size)
    }
}

/// Draining a run of read attempts appends exactly what they delivered: the
/// earlier content stays in front, nothing is lost, doubled or reordered, and
/// attempts that would have blocked or that failed add nothing.
pub proof fn lemma_replay_appends_delivered(sink: Seq<u8>, steps: Seq<ReadStep>)
    ensures
        replay(sink, steps) == sink + delivered(steps),
    decreases steps.len(),
{
    if steps.len() == 0 {
        assert(sink + delivered(steps) =~= sink);
    } else {
        lemma_replay_appends_delivered(sink, steps.drop_last());
        let before = replay(sink, steps.drop_last());
        let last = steps.last();
        assert(sink_after(before, last.scratch, last.outcome) =~= before + step_bytes(last));
        assert(sink + delivered(steps.drop_last()) + step_bytes(last) =~= sink + delivered(
            steps,
        ));
    }
}

/// What two runs deliver one after the other is what the first delivers
/// followed by what the second delivers.
pub proof fn lemma_delivered_concat(first: Seq<ReadStep>, second: Seq<ReadStep>)
    ensures
        delivered(first + second) == delivered(first) + delivered(second),
    decreases second.len(),
{
    if second.len() == 0 {
        assert(first + second =~= first);
        assert(delivered(first) + delivered(second) =~= delivered(first));
    } else {
        lemma_delivered_concat(first, second.drop_last());
        assert((first + second).drop_last() =~= first + second.drop_last());
        assert((first + second).last() == second.last());
        assert(delivered(first) + delivered(second.drop_last()) + step_bytes(second.last())
            =~= delivered(first) + delivered(second));
    }
}

/// A run of one read attempt delivers what that attempt delivered.
pub proof fn lemma_delivered_single(step: ReadStep)
    ensures
        delivered(seq![step]) == step_bytes(step),
{
    assert(seq![step].drop_last() =~= Seq::<ReadStep>::empty());
    assert(delivered(seq![step].drop_last()) =~= Seq::<u8>::empty());
    assert(delivered(seq![step]) =~= step_bytes(step));
}

/// Reading a stream in pieces of at most `size` bytes delivers the stream.
pub proof fn lemma_chunked_delivers_stream(stream: Seq<u8>, size: usize)
    requires
        size > 0,
    ensures
        delivered(chunked(stream, size)) == stream,
    decreases stream.len(),
{
    if stream.len() == 0 {
        assert(delivered(chunked(stream, size)) =~= stream);
    } else if stream.len() <= size {
        let only = ReadStep { scratch: stream, outcome: ReadOutcome::Data(stream.len() as usize) };
        lemma_delivered_single(only);
        assert(step_bytes(only) =~= stream);
    } else {
        let head = ReadStep { scratch: stream.take(size as int), outcome: ReadOutcome::Data(size) };
        let rest = stream.skip(size as int);
        lemma_chunked_delivers_stream(rest, size);
        lemma_delivered_concat(seq![head], chunked(rest, size));
        lemma_delivered_single(head);
        assert(step_bytes(head) =~= stream.take(size as int));
        assert(stream.take(size as int) + rest =~= stream);
    }
}

/// Ordering: when the shell's output `stream` reaches the drain in reads of at
/// most `size` bytes, the sink grows by exactly `stream`, also where the
/// stream is longer than one read.
pub proof fn lemma_chunked_drain_reconstructs_stream(sink: Seq<u8>, stream: Seq<u8>, size: usize)
    requires
        size > 0,
    ensures
        replay(sink, chunked(stream, size)) == sink + stream,
{
    lemma_replay_appends_delivered(sink, chunked(stream, size));
    lemma_chunked_delivers_stream(stream, size);
}

} // verus!
