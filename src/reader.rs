//! The blocking face of the decorator: a reader that hashes what it passes on.

use vstd::prelude::*;
use vstd::slice::slice_subrange;
use digest::Digest;
use std::io::Read;
use std::sync::mpsc::Receiver;
use crate::outside::read_from;
use crate::tap::{data_step, failure_step, fresh_view, HashTap, TapView};

verus! {

/// Wraps a reader so that every byte read through it is fed into a hasher of
/// type `H`; the end of the stream, or its failure, is announced on the
/// channel whose receiving end `new` hands out.
pub struct HashingReader<R, H> {
    reader: R,
    tap: HashTap<H>,
}

impl<R, H> View for HashingReader<R, H> {
    type V = TapView;

    closed spec fn view(&self) -> TapView {
        self.tap@
    }
}

impl<R, H> HashingReader<R, H> {
    /// The wrapped reader.
    pub closed spec fn inner(&self) -> R {
        self.reader
    }
}

impl<R, H: Digest> HashingReader<R, H> {
    /// Wraps `reader`; the receiver gets `Some(digest)` at the end of the
    /// stream, or `None` if reading it fails.
    pub fn new(reader: R) -> (r: (Self, Receiver<Option<Vec<u8>>>))
        ensures
            r.0@ == fresh_view(),
            r.0.inner() == reader,
    {
        let (tap, rx) = HashTap::<H>::new();
        (HashingReader { reader, tap }, rx)
    }
}

impl<R: Read, H: Digest> HashingReader<R, H> {
    /// Reads from the wrapped reader into `buf`, the buffer handed on as it
    /// came, and accounts for the outcome with [`HashTap::account_read`],
    /// whose contract says what is reported for each outcome.
    pub fn read_through(&mut self, buf: &mut [u8]) -> (r: Result<usize, std::io::Error>)
        ensures
            final(buf)@.len() == old(buf)@.len(),
            match r {
                Ok(n) => n <= old(buf)@.len()
                    && data_step(old(self)@, final(buf)@.subrange(0, n as int), final(self)@, true),
                Err(_) => data_step(old(self)@, Seq::empty(), final(self)@, false)
                    || failure_step(old(self)@, final(self)@),
            },
    {
        let res = read_from(&mut self.reader, buf);
        self.tap.account_read(res, buf)
    }
}

impl<R: Read, H: Digest> Read for HashingReader<R, H> {
    fn read(&mut self, buf: &mut [u8]) -> Result<usize, std::io::Error> {
        self.read_through(buf)
    }
}

} // verus!
