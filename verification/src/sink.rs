//! The byte sink: everything the shell has written so far, in order.

use crate::text::{complete_prefix, complete_prefix_len};
use vstd::prelude::*;
use vstd::slice::slice_subrange;

verus! {

/// An append-only buffer of raw output bytes.
///
/// The sink only ever grows at its end: bytes that were appended stay where
/// they are, and nothing is dropped, reordered or rewritten.
pub struct ByteSink {
    bytes: Vec<u8>,
}

impl View for ByteSink {
    type V = Seq<u8>;

    closed spec fn view(&self) -> Seq<u8> {
        self.bytes@
    }
}

impl ByteSink {
    /// A sink that holds nothing yet.
    pub fn new() -> (sink: Self)
        ensures
            sink@ == Seq::<u8>::empty(),
    {
        ByteSink { bytes: Vec::new() }
    }

    /// Appends `chunk` behind everything the sink already holds.
    pub fn append(&mut self, chunk: &[u8])
        ensures
            final(self)@ == old(self)@ + chunk@,
    {
        self.bytes.extend_from_slice(chunk);
        assert(self.bytes@ =~= old(self).bytes@ + chunk@);
    }

    /// The number of bytes accumulated so far.
    pub fn len(&self) -> (n: usize)
        ensures
            n == self@.len(),
    {
        self.bytes.len()
    }

    /// Whether nothing has been accumulated yet.
    pub fn is_empty(&self) -> (b: bool)
        ensures
            b == (self@.len() == 0),
    {
        self.bytes.len() == 0
    }

    /// The full accumulated output, oldest byte first.
    pub fn current_bytes(&self) -> (bytes: &[u8])
        ensures
            bytes@ == self@,
    {
        self.bytes.as_slice()
    }

    /// The accumulated output that may be shown as text now: everything but
    /// a multi-byte sequence at the very end whose remaining bytes have not
    /// arrived yet.
    pub fn complete_bytes(&self) -> (bytes: &[u8])
        ensures
            bytes@ == self@.take(complete_prefix(self@)),
    {
        let all = self.bytes.as_slice();
        let cut = complete_prefix_len(all);
        slice_subrange(all, 0, cut)
    }

    /// The bytes that are held back: the unfinished sequence at the very
    /// end, at most three bytes, and nothing where the output is complete.
    pub fn pending_bytes(&self) -> (bytes: &[u8])
        ensures
            bytes@ == self@.skip(complete_prefix(self@)),
            bytes@.len() <= 3,
    {
        let all = self.bytes.as_slice();
        let cut = complete_prefix_len(all);
        slice_subrange(all, cut, all.len())
    }
}

} // verus!
