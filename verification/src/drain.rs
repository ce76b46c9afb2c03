//! The per-tick drain: one bounded read from the pseudo-terminal is either
//! appended to the sink, passed over because nothing was pending, or reported.

use crate::errno::{display_errno, errno_display, errno_would_block, is_would_block};
use crate::sink::ByteSink;
use vstd::prelude::*;
use vstd::slice::slice_subrange;

verus! {

/// The most bytes a single read asks of the pseudo-terminal.
pub const CHUNK_SIZE: usize = 4096;

/// What one read attempt on the master side came back with.
#[derive(Clone, Copy, Debug, PartialEq, Eq, Structural)]
pub enum ReadOutcome {
    /// The read succeeded and filled the first `n` bytes of the scratch
    /// buffer; `n` may be zero.
    Data(usize),
    /// Nothing was pending: the read would have had to wait.
    WouldBlock,
    /// The read failed with the given raw error number.
    Failed(i32),
}

/// What one drain did with a read attempt.
#[derive(Clone, Copy, Debug, PartialEq, Eq, Structural)]
pub enum DrainReport {
    /// That many bytes were appended to the sink.
    Appended(usize),
    /// Nothing was pending; the sink was left alone.
    Idle,
    /// The read failed with the given raw error number; the sink was left
    /// alone, and the failure deserves a diagnostic.
    ReadError(i32),
}

/// How a raw read result is classified: success carries its byte count, the
/// would-block error is told apart from every other error.
pub open spec fn classify_spec(read: Result<usize, i32>) -> ReadOutcome {
    match read {
        Ok(n) => ReadOutcome::Data(n),
        Err(code) => if errno_would_block(code) {
            ReadOutcome::WouldBlock
        } else {
            ReadOutcome::Failed(code)
        },
    }
}

/// The sink after a read attempt: a successful read of `n` bytes adds the
/// first `n` bytes of the scratch buffer, anything else adds nothing.
pub open spec fn sink_after(sink: Seq<u8>, scratch: Seq<u8>, outcome: ReadOutcome) -> Seq<u8> {
    match outcome {
        ReadOutcome::Data(n) => sink + scratch.take(n as int),
        ReadOutcome::WouldBlock => sink,
        ReadOutcome::Failed(_) => sink,
    }
}

/// The report that belongs to a read attempt.
pub open spec fn report_of(outcome: ReadOutcome) -> DrainReport {
    match outcome {
        ReadOutcome::Data(n) => DrainReport::Appended(n),
        ReadOutcome::WouldBlock => DrainReport::Idle,
        ReadOutcome::Failed(code) => DrainReport::ReadError(code),
    }
}

/// The text of the diagnostic for a read that failed with `code`.
pub open spec fn failure_message_spec(code: i32) -> Seq<char> {
    "Failed to read : "@ + errno_display(code)
}

/// A zeroed scratch buffer of `CHUNK_SIZE` bytes for one read.
pub fn scratch_buffer() -> (buf: Vec<u8>)
    ensures
        buf@ == Seq::new(CHUNK_SIZE as nat, |i: int| 0u8),
{
    let mut buf: Vec<u8> = Vec::new();
    while buf.len() < CHUNK_SIZE
        invariant
            buf@.len() <= CHUNK_SIZE,
            forall|i: int| 0 <= i < buf@.len() ==> buf@[i] == 0u8,
        decreases CHUNK_SIZE - buf@.len(),
    {
        buf.push(0u8);
    }
    assert(buf@ =~= Seq::new(CHUNK_SIZE as nat, |i: int| 0u8));
    buf
}

/// Classifies the raw result of a read: the byte count on success, or the raw
/// error number on failure.
pub fn classify(read: Result<usize, i32>) -> (outcome: ReadOutcome)
    ensures
        outcome == classify_spec(read),
{
    match read {
        Ok(n) => ReadOutcome::Data(n),
        Err(code) => if is_would_block(code) {
            ReadOutcome::WouldBlock
        } else {
            ReadOutcome::Failed(code)
        },
    }
}

/// Applies a classified read attempt to the sink.
///
/// A successful read appends exactly the bytes it delivered, in order. A
/// would-block and a failure leave the sink as it was; the failure is handed
/// back in the report so that the caller can log it and go on ticking.
pub fn apply_read(
    sink: &mut ByteSink,
    scratch: &[u8],
    outcome: ReadOutcome,
) -> (report: DrainReport)
    requires
        outcome matches ReadOutcome::Data(n) ==> n <= scratch@.len(),
    ensures
        final(sink)@ == sink_after(old(sink)@, scratch@, outcome),
        report == report_of(outcome),
        old(sink)@.is_prefix_of(final(sink)@),
        !(outcome is Data) ==> final(sink)@ == old(sink)@,
{
    match outcome {
        ReadOutcome::Data(n) => {
            let delivered = slice_subrange(scratch, 0, n);
            sink.append(delivered);
            DrainReport::Appended(n)
        },
        ReadOutcome::WouldBlock => DrainReport::Idle,
        ReadOutcome::Failed(code) => DrainReport::ReadError(code),
    }
}

/// One drain: takes the raw result of a read of at most `scratch.len()` bytes
/// into `scratch` and brings the sink up to date.
pub fn drain_once(
    sink: &mut ByteSink,
    scratch: &[u8],
    read: Result<usize, i32>,
) -> (report: DrainReport)
    requires
        read matches Ok(n) ==> n <= scratch@.len(),
    ensures
        final(sink)@ == sink_after(old(sink)@, scratch@, classify_spec(read)),
        report == report_of(classify_spec(read)),
        old(sink)@.is_prefix_of(final(sink)@),
        read is Err ==> final(sink)@ == old(sink)@,
{
    let outcome = classify(read);
    apply_read(sink, scratch, outcome)
}

/// Trusted: `String::push_str` appends `string` to the end of `s`.
pub assume_specification[ String::push_str ](s: &mut String, string: &str)
    ensures
        final(s)@ == old(s)@ + string@,
;

/// The diagnostic line for a read that failed with the raw error number
/// `code`.
pub fn failure_message(code: i32) -> (message: String)
    ensures
        message@ == failure_message_spec(code),
{
    let mut message = "Failed to read : ".to_owned();
    let detail = display_errno(code);
    message.push_str(detail.as_str());
    message
}

} // verus!
