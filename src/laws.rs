//! What holds of a whole session, over the steps that the tap's operations
//! are specified by.

use vstd::prelude::*;
use crate::tap::{data_step, Signal, TapView};

verus! {

/// The chunks laid end to end, in order.
pub open spec fn joined(chunks: Seq<Seq<u8>>) -> Seq<u8>
    decreases chunks.len(),
{
    if chunks.len() == 0 {
        Seq::empty()
    } else {
        joined(chunks.drop_last()) + chunks.last()
    }
}

/// `states` is a session: from `states[0]`, which has nothing absorbed, each
/// read produced the next non-empty chunk and was reported as a success, and
/// a last read found the end of the stream and was reported a success
/// exactly when `ok`.
pub open spec fn session_run(chunks: Seq<Seq<u8>>, states: Seq<TapView>, ok: bool) -> bool {
    &&& states.len() == chunks.len() + 2
    &&& states[0].absorbed.len() == 0
    &&& (!states[0].terminal || chunks.len() > 0)
    &&& forall|i: int| 0 <= i < chunks.len() ==> #[trigger] chunks[i].len() > 0
    &&& forall|i: int|
        0 < i <= chunks.len() ==> data_step(states[i - 1], chunks[i - 1], #[trigger] states[i], true)
    &&& data_step(states[chunks.len() as int], Seq::empty(), states[chunks.len() + 1int], ok)
}

proof fn lemma_session_prefix(chunks: Seq<Seq<u8>>, states: Seq<TapView>, ok: bool, i: int)
    requires
        session_run(chunks, states, ok),
        0 <= i <= chunks.len(),
    ensures
        states[i].absorbed == joined(chunks.take(i)),
        states[i].signals == states[0].signals,
        i > 0 || !states[0].terminal ==> !states[i].terminal,
    decreases i,
{
    if i == 0 {
        assert(chunks.take(0) =~= Seq::<Seq<u8>>::empty());
    } else {
        lemma_session_prefix(chunks, states, ok, i - 1);
        assert(chunks[i - 1].len() > 0);
        assert(data_step(states[i - 1], chunks[i - 1], states[i], true));
        assert(chunks.take(i).drop_last() =~= chunks.take(i - 1));
    }
}

/// The digest announced at the end of a session is that of every byte that
/// the session's reads produced, in the order produced; the announcement is
/// delivered exactly when the last read is reported as a success.
pub proof fn session_digest_covers_stream(chunks: Seq<Seq<u8>>, states: Seq<TapView>, ok: bool)
    requires
        session_run(chunks, states, ok),
    ensures
        states.last().signals == states[0].signals.push(
            Signal { digest_of: Some(joined(chunks)), delivered: ok },
        ),
        states.last().terminal,
{
    let k = chunks.len() as int;
    lemma_session_prefix(chunks, states, ok, k);
    assert(chunks.take(k) =~= chunks);
}

/// A session that reads nothing at all announces the digest of no bytes.
pub proof fn empty_stream_digest(pre: TapView, post: TapView, ok: bool)
    requires
        pre.absorbed.len() == 0,
        !pre.terminal,
        data_step(pre, Seq::empty(), post, ok),
    ensures
        post.signals == pre.signals.push(Signal { digest_of: Some(Seq::empty()), delivered: ok }),
{
}

/// How a stream is cut into reads does not change the digest announced:
/// two sessions whose chunks join to the same bytes announce the same digest.
pub proof fn chunking_is_irrelevant(
    a_chunks: Seq<Seq<u8>>,
    a_states: Seq<TapView>,
    a_ok: bool,
    b_chunks: Seq<Seq<u8>>,
    b_states: Seq<TapView>,
    b_ok: bool,
)
    requires
        session_run(a_chunks, a_states, a_ok),
        session_run(b_chunks, b_states, b_ok),
        joined(a_chunks) == joined(b_chunks),
    ensures
        a_states.last().signals.last().digest_of == b_states.last().signals.last().digest_of,
{
    session_digest_covers_stream(a_chunks, a_states, a_ok);
    session_digest_covers_stream(b_chunks, b_states, b_ok);
}

/// A completion that cannot be delivered makes the read that ends the
/// stream fail, and the session ends with no digest delivered; later reads at
/// the end of the stream announce nothing more.
pub proof fn undelivered_completion_fails(pre: TapView, post: TapView, ok: bool)
    requires
        !pre.terminal,
        data_step(pre, Seq::empty(), post, ok),
    ensures
        post.signals.len() == pre.signals.len() + 1,
        post.signals.last().delivered == ok,
        post.terminal,
        forall|later: TapView, ok2: bool|
            data_step(post, Seq::empty(), later, ok2) ==> later == post && ok2,
{
}

} // verus!
