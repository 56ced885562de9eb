//! The digest accumulator and its completion channel, shared by every read
//! model: each adapter reports what a read produced, or that it failed.

use vstd::prelude::*;
use vstd::slice::slice_subrange;
use digest::Digest;
use std::sync::mpsc::Receiver;
use crate::error::channel_error;
use crate::outside::{feed, finish, new_hasher, open_channel, other_error, post, Hasher, Outbox};

verus! {

/// One message offered on the completion channel.
pub struct Signal {
    /// `Some(s)`: the digest of the bytes `s`; `None`: the stream failed.
    pub digest_of: Option<Seq<u8>>,
    /// Whether the receiving end took the message.
    pub delivered: bool,
}

/// The abstract state of a [`HashTap`].
pub struct TapView {
    /// The bytes handed to the hasher since it was last fresh, in order.
    pub absorbed: Seq<u8>,
    /// Every message offered on the channel, oldest first.
    pub signals: Seq<Signal>,
    /// Whether the current session has ended (by end of stream or failure).
    pub terminal: bool,
}

/// The state of a tap that has seen nothing.
pub open spec fn fresh_view() -> TapView {
    TapView { absorbed: Seq::empty(), signals: Seq::empty(), terminal: false }
}

/// `post` follows `pre` after a read that succeeded having produced
/// `produced` (nothing at end of stream) and was reported to the caller as a
/// success exactly when `ok`.
pub open spec fn data_step(pre: TapView, produced: Seq<u8>, post: TapView, ok: bool) -> bool {
    if produced.len() > 0 {
        ok && post == TapView {
            absorbed: pre.absorbed + produced,
            signals: pre.signals,
            terminal: false,
        }
    } else if pre.terminal {
        ok && post == pre
    } else {
        post == TapView {
            absorbed: Seq::empty(),
            signals: pre.signals.push(Signal { digest_of: Some(pre.absorbed), delivered: ok }),
            terminal: true,
        }
    }
}

/// `post` follows `pre` after a read of the wrapped stream failed: unless
/// the session had already ended, it ends, the hasher is abandoned for a
/// fresh one, and one failure notice is offered.
pub open spec fn failure_step(pre: TapView, post: TapView) -> bool {
    if pre.terminal {
        post == pre
    } else {
        &&& post.absorbed == Seq::<u8>::empty()
        &&& post.terminal
        &&& post.signals.len() == pre.signals.len() + 1
        &&& post.signals.drop_last() == pre.signals
        &&& post.signals.last().digest_of is None
    }
}

/// Whether, after a failure, the stream's own error is the one to report:
/// the session had ended before, or the failure notice was delivered.
pub open spec fn failure_passed_on(pre: TapView, post: TapView) -> bool {
    pre.terminal || post.signals.last().delivered
}

/// A hasher fed with every byte that a stream produces, and the sending end
/// of the channel on which the end of each session is announced.
pub struct HashTap<H> {
    hasher: Hasher<H>,
    outbox: Outbox,
    terminal: bool,
}

impl<H> View for HashTap<H> {
    type V = TapView;

    closed spec fn view(&self) -> TapView {
        TapView { absorbed: self.hasher.fed(), signals: self.outbox.log(), terminal: self.terminal }
    }
}

impl<H: Digest> HashTap<H> {
    /// A tap with a fresh hasher, and the receiving end of its channel.
    pub fn new() -> (r: (Self, Receiver<Option<Vec<u8>>>))
        ensures
            r.0@ == fresh_view(),
    {
        let (outbox, rx) = open_channel();
        let tap = HashTap { hasher: new_hasher::<H>(), outbox, terminal: false };
        (tap, rx)
    }

    /// Ends the session: the digest of what was absorbed is offered on the
    /// channel and a fresh hasher takes the old one's place.
    fn complete(&mut self) -> (r: Result<(), std::io::Error>)
        requires
            !old(self)@.terminal,
        ensures
            data_step(old(self)@, Seq::empty(), final(self)@, r is Ok),
    {
        let mut spent = new_hasher::<H>();
        std::mem::swap(&mut self.hasher, &mut spent);
        let digest = finish(spent);
        let sent = post(&mut self.outbox, Some(digest));
        self.terminal = true;
        match sent {
            Ok(()) => Ok(()),
            Err(e) => Err(channel_error(e)),
        }
    }

    /// Accounts for a read of the wrapped stream that succeeded having
    /// produced `produced`: bytes are absorbed; an empty `produced` marks the
    /// end of the stream, which completes the session unless it has already
    /// ended. Fails only where the completion could not be delivered.
    pub fn observe(&mut self, produced: &[u8]) -> (r: Result<(), std::io::Error>)
        ensures
            data_step(old(self)@, produced@, final(self)@, r is Ok),
    {
        if produced.len() > 0 {
            feed(&mut self.hasher, produced);
            self.terminal = false;
            Ok(())
        } else if self.terminal {
            Ok(())
        } else {
            self.complete()
        }
    }

    /// Accounts for a poll of the wrapped stream that succeeded, where
    /// `filled` is the filled part of the caller's buffer afterwards and
    /// `filled_before` its length before the poll: only the newly filled
    /// bytes count as produced.
    pub fn observe_filled(&mut self, filled: &[u8], filled_before: usize) -> (r: Result<
        (),
        std::io::Error,
    >)
        requires
            filled_before <= filled@.len(),
        ensures
            data_step(
                old(self)@,
                filled@.subrange(filled_before as int, filled@.len() as int),
                final(self)@,
                r is Ok,
            ),
    {
        let produced = slice_subrange(filled, filled_before, filled.len());
        self.observe(produced)
    }

    /// Accounts for a read of the wrapped stream that failed with `e`, and
    /// returns the error to report. Unless the session has already ended, a
    /// failure notice is offered on the channel and the hasher is abandoned
    /// for a fresh one. `e` itself is returned unless the notice could not be
    /// delivered; then the error names that and embeds `e`'s description.
    pub fn fail(&mut self, e: std::io::Error) -> (r: std::io::Error)
        ensures
            failure_step(old(self)@, final(self)@),
            old(self)@.terminal ==> r == e,
            failure_passed_on(old(self)@, final(self)@) ==> r == e,
    {
        if self.terminal {
            return e;
        }
        self.hasher = new_hasher::<H>();
        let sent = post(&mut self.outbox, None);
        self.terminal = true;
        assert(self@.signals.drop_last() =~= old(self)@.signals);
        match sent {
            Ok(()) => e,
            Err(_) => {
                let described = e.to_string();
                let msg = "stream failed and the failure could not be delivered: ".to_owned();
                other_error(msg.concat(described.as_str()))
            },
        }
    }

    /// Accounts for the outcome `res` of one read of the wrapped stream into
    /// `buf`, and returns what the decorator's read reports: `Ok(n)` for `n`
    /// bytes produced, those bytes absorbed; at the end of the stream `Ok(0)`
    /// exactly when the completion was delivered (or the session had already
    /// ended), else an error; for a failure, an error, after `fail`.
    pub fn account_read(&mut self, res: Result<usize, std::io::Error>, buf: &[u8]) -> (r: Result<
        usize,
        std::io::Error,
    >)
        requires
            res matches Ok(n) ==> n <= buf@.len(),
        ensures
            match res {
                Ok(n) => {
                    &&& data_step(old(self)@, buf@.subrange(0, n as int), final(self)@, r is Ok)
                    &&& n > 0 ==> r == Ok::<usize, std::io::Error>(n)
                    &&& r matches Ok(m) ==> m == n
                },
                Err(e) => {
                    &&& failure_step(old(self)@, final(self)@)
                    &&& r is Err
                    &&& failure_passed_on(old(self)@, final(self)@) ==> r == Err::<usize, _>(e)
                },
            },
    {
        match res {
            Ok(n) => {
                let produced = slice_subrange(buf, 0, n);
                match self.observe(produced) {
                    Ok(()) => Ok(n),
                    Err(e) => Err(e),
                }
            },
            Err(e) => Err(self.fail(e)),
        }
    }
}

} // verus!
