//! The types and calls of std and of the digest crate that the library relies on.

use vstd::prelude::*;
use digest::Digest;
use std::io::Read;
use std::sync::mpsc::{Receiver, SendError, Sender};
use crate::tap::Signal;

verus! {

#[verifier::external_type_specification]
#[verifier::external_body]
pub struct ExIoError(std::io::Error);

#[verifier::external_type_specification]
#[verifier::external_body]
#[verifier::reject_recursive_types(T)]
pub struct ExSendError<T>(SendError<T>);

#[verifier::external_type_specification]
#[verifier::external_body]
#[verifier::reject_recursive_types(T)]
pub struct ExSender<T>(Sender<T>);

#[verifier::external_type_specification]
#[verifier::external_body]
#[verifier::reject_recursive_types(T)]
pub struct ExReceiver<T>(Receiver<T>);

/// Relies on `std::io::Error::other`: an error of kind `Other` carrying `msg`.
#[verifier::external_body]
pub(crate) fn other_error(msg: String) -> (r: std::io::Error) {
    std::io::Error::other(msg)
}

/// A hasher of type `H`, with the bytes it has absorbed since it was made.
/// Only the trusted calls below make or change one.
pub struct Hasher<H> {
    h: H,
    fed: Ghost<Seq<u8>>,
}

impl<H> Hasher<H> {
    /// The bytes the hasher has absorbed, in order.
    pub closed spec fn fed(&self) -> Seq<u8> {
        self.fed@
    }
}

/// The digest that a hasher produced, with the bytes it had absorbed.
pub struct Digested {
    bytes: Vec<u8>,
    of: Ghost<Seq<u8>>,
}

impl Digested {
    /// The bytes whose digest this is.
    pub closed spec fn of(&self) -> Seq<u8> {
        self.of@
    }
}

/// The sending end of the completion channel, with every message offered on
/// it. Only the trusted calls below make or change one.
pub struct Outbox {
    tx: Sender<Option<Vec<u8>>>,
    log: Ghost<Seq<Signal>>,
}

impl Outbox {
    /// Every message offered, oldest first, and whether the receiving end took it.
    pub closed spec fn log(&self) -> Seq<Signal> {
        self.log@
    }
}

/// Relies on `std::sync::mpsc::channel`: a fresh unbounded channel, on which
/// nothing has been offered yet.
#[verifier::external_body]
pub(crate) fn open_channel() -> (r: (Outbox, Receiver<Option<Vec<u8>>>))
    ensures
        r.0.log() == Seq::<Signal>::empty(),
{
    let (tx, rx) = std::sync::mpsc::channel::<Option<Vec<u8>>>();
    (Outbox { tx, log: Ghost(Seq::empty()) }, rx)
}

/// Relies on `Sender::send`: the message (the digest's bytes, or `None`) is
/// offered; it never blocks, and it succeeds exactly when the receiving end
/// still exists, which is recorded with the message.
#[verifier::external_body]
pub(crate) fn post(c: &mut Outbox, msg: Option<Digested>) -> (r: Result<
    (),
    SendError<Option<Vec<u8>>>,
>)
    ensures
        final(c).log() == old(c).log().push(
            Signal {
                digest_of: match msg {
                    Some(d) => Some(d.of()),
                    None => None,
                },
                delivered: r is Ok,
            },
        ),
{
    c.tx.send(msg.map(|d| d.bytes))
}

/// Relies on `Digest::new`: a hasher that has absorbed nothing.
#[verifier::external_body]
pub(crate) fn new_hasher<H: Digest>() -> (r: Hasher<H>)
    ensures
        r.fed() == Seq::<u8>::empty(),
{
    Hasher { h: H::new(), fed: Ghost(Seq::empty()) }
}

/// Relies on `Digest::update`: the hasher absorbs `data` after what it already holds.
#[verifier::external_body]
pub(crate) fn feed<H: Digest>(h: &mut Hasher<H>, data: &[u8])
    ensures
        final(h).fed() == old(h).fed() + data@,
{
    h.h.update(data)
}

/// Relies on `Digest::finalize`: the digest of what the hasher absorbed, as bytes.
#[verifier::external_body]
pub(crate) fn finish<H: Digest>(h: Hasher<H>) -> (r: Digested)
    ensures
        r.of() == h.fed(),
{
    Digested { bytes: h.h.finalize().as_slice().to_vec(), of: h.fed }
}

/// Relies on `Read::read`, whose documentation obliges every implementation
/// to report no more bytes than the buffer holds.
#[verifier::external_body]
pub(crate) fn read_from<R: Read>(r: &mut R, buf: &mut [u8]) -> (res: Result<usize, std::io::Error>)
    ensures
        final(buf)@.len() == old(buf)@.len(),
        res matches Ok(n) ==> n <= old(buf)@.len(),
{
    r.read(buf)
}

} // verus!
