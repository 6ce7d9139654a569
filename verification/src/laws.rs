//! What holds of the bridge as a whole, stated over the models that the
//! contracts of the other modules use.

use crate::codec::{body_of, decoded, marker_text, message_of, InboundModel};
use crate::dispatch::{emit_of, envelope_of, line_of, next_state, LoopState, WorkerEvent};
use crate::json::parsed_value;
use crate::registry::{depth, enqueued, oldest, resolved, well_formed, Pending};
use vstd::prelude::*;

verus! {

/// The waiters pending on `channel`, oldest first; empty where none is.
pub open spec fn queue_of<W>(m: Pending<W>, channel: Seq<char>) -> Seq<W> {
    if m.contains_key(channel) {
        m[channel]
    } else {
        Seq::empty()
    }
}

/// The model after the waiters `ws` have been registered on `channel`, one
/// after the other.
pub open spec fn enqueued_all<W>(m: Pending<W>, channel: Seq<char>, ws: Seq<W>) -> Pending<W>
    decreases ws.len(),
{
    if ws.len() == 0 {
        m
    } else {
        enqueued(enqueued_all(m, channel, ws.drop_last()), channel, ws.last())
    }
}

/// The waiters that `n` replies on `channel` resolve, in the order of the
/// replies. A reply that finds no waiter resolves none.
pub open spec fn resolved_by<W>(m: Pending<W>, channel: Seq<char>, n: nat) -> Seq<W>
    decreases n,
{
    if n == 0 {
        Seq::empty()
    } else {
        match oldest(m, channel) {
            Some(w) => seq![w] + resolved_by(resolved(m, channel), channel, (n - 1) as nat),
            None => resolved_by(resolved(m, channel), channel, (n - 1) as nat),
        }
    }
}

/// The model after `n` replies on `channel`.
pub open spec fn after_replies<W>(m: Pending<W>, channel: Seq<char>, n: nat) -> Pending<W>
    decreases n,
{
    if n == 0 {
        m
    } else {
        after_replies(resolved(m, channel), channel, (n - 1) as nat)
    }
}

/// Registering and resolving keep the registry well formed: a channel is a
/// key exactly while a waiter is pending on it.
pub proof fn well_formed_is_kept<W>(m: Pending<W>, channel: Seq<char>, waiter: W)
    requires
        well_formed(m),
    ensures
        well_formed(enqueued(m, channel, waiter)),
        well_formed(resolved(m, channel)),
        depth(m, channel) == 1 ==> !resolved(m, channel).contains_key(channel),
        enqueued(m, channel, waiter).contains_key(channel),
{
    let e = enqueued(m, channel, waiter);
    assert forall|c: Seq<char>| #[trigger] e.contains_key(c) implies e[c].len() > 0 by {
        if c != channel {
            assert(m.contains_key(c));
        }
    }
    let r = resolved(m, channel);
    assert forall|c: Seq<char>| #[trigger] r.contains_key(c) implies r[c].len() > 0 by {
        assert(m.contains_key(c));
    }
}

/// Registering appends: the queue of the channel grows by the waiter at its
/// back, and resolving takes from its front.
pub proof fn queue_after_one<W>(m: Pending<W>, channel: Seq<char>, waiter: W)
    requires
        well_formed(m),
    ensures
        queue_of(enqueued(m, channel, waiter), channel) == queue_of(m, channel).push(waiter),
        queue_of(m, channel).len() > 0 ==> queue_of(resolved(m, channel), channel) == queue_of(
            m,
            channel,
        ).drop_first() && oldest(m, channel) == Some(queue_of(m, channel)[0]),
        queue_of(m, channel).len() == 0 ==> resolved(m, channel) == m && oldest(m, channel)
            is None,
{
    assert(queue_of(enqueued(m, channel, waiter), channel) =~= queue_of(m, channel).push(waiter));
    if queue_of(m, channel).len() > 0 {
        assert(queue_of(resolved(m, channel), channel) =~= queue_of(m, channel).drop_first());
    }
}

proof fn lemma_enqueued_all<W>(m: Pending<W>, channel: Seq<char>, ws: Seq<W>)
    requires
        well_formed(m),
    ensures
        well_formed(enqueued_all(m, channel, ws)),
        queue_of(enqueued_all(m, channel, ws), channel) == queue_of(m, channel) + ws,
    decreases ws.len(),
{
    if ws.len() == 0 {
        assert(queue_of(m, channel) + ws =~= queue_of(m, channel));
    } else {
        let before = enqueued_all(m, channel, ws.drop_last());
        lemma_enqueued_all(m, channel, ws.drop_last());
        well_formed_is_kept(before, channel, ws.last());
        queue_after_one(before, channel, ws.last());
        assert((queue_of(m, channel) + ws.drop_last()).push(ws.last()) =~= queue_of(m, channel)
            + ws);
    }
}

proof fn lemma_enqueued_all_elsewhere<W>(
    m: Pending<W>,
    channel: Seq<char>,
    ws: Seq<W>,
    other: Seq<char>,
)
    requires
        other != channel,
    ensures
        enqueued_all(m, channel, ws).contains_key(other) == m.contains_key(other),
        enqueued_all(m, channel, ws).contains_key(other) ==> enqueued_all(m, channel, ws)[other]
            == m[other],
    decreases ws.len(),
{
    if ws.len() > 0 {
        lemma_enqueued_all_elsewhere(m, channel, ws.drop_last(), other);
    }
}

proof fn lemma_drain<W>(m: Pending<W>, channel: Seq<char>, n: nat)
    requires
        well_formed(m),
        n == queue_of(m, channel).len(),
    ensures
        resolved_by(m, channel, n) == queue_of(m, channel),
        after_replies(m, channel, n) == m.remove(channel),
    decreases n,
{
    if n == 0 {
        assert(resolved_by(m, channel, n) =~= queue_of(m, channel));
        assert(m.remove(channel) =~= m);
    } else {
        let q = queue_of(m, channel);
        let r = resolved(m, channel);
        well_formed_is_kept(m, channel, q[0]);
        queue_after_one(m, channel, q[0]);
        lemma_drain(r, channel, (n - 1) as nat);
        assert(seq![q[0]] + q.drop_first() =~= q);
        assert(r.remove(channel) =~= m.remove(channel));
    }
}

/// First in, first out. Where the waiters `ws` are registered on one channel
/// before any reply arrives, as many replies on that channel resolve exactly
/// those waiters, in the order of their registration, after the waiters that
/// were pending before them; the channel is then gone from the registry.
pub proof fn replies_resolve_in_registration_order<W>(
    m: Pending<W>,
    channel: Seq<char>,
    ws: Seq<W>,
)
    requires
        well_formed(m),
    ensures
        resolved_by(
            enqueued_all(m, channel, ws),
            channel,
            queue_of(m, channel).len() + ws.len(),
        ) == queue_of(m, channel) + ws,
        after_replies(
            enqueued_all(m, channel, ws),
            channel,
            queue_of(m, channel).len() + ws.len(),
        ) == m.remove(channel),
        !m.contains_key(channel) ==> resolved_by(
            enqueued_all(m, channel, ws),
            channel,
            ws.len(),
        ) == ws,
{
    let full = enqueued_all(m, channel, ws);
    lemma_enqueued_all(m, channel, ws);
    lemma_drain(full, channel, queue_of(m, channel).len() + ws.len());
    assert(full.remove(channel) =~= m.remove(channel)) by {
        assert forall|c: Seq<char>| c != channel implies #[trigger] full.contains_key(c)
            == m.contains_key(c) && (full.contains_key(c) ==> full[c] == m[c]) by {
            lemma_enqueued_all_elsewhere(m, channel, ws, c);
        }
    }
    if !m.contains_key(channel) {
        assert(queue_of(m, channel) + ws =~= ws);
    }
}

/// Channels are isolated. Registering or resolving on one channel leaves
/// every other channel with the same waiters, and two replies on different
/// channels resolve the same waiters in either order.
pub proof fn channels_are_isolated<W>(m: Pending<W>, a: Seq<char>, b: Seq<char>, waiter: W)
    requires
        a != b,
    ensures
        resolved(m, a).contains_key(b) == m.contains_key(b),
        queue_of(resolved(m, a), b) == queue_of(m, b),
        oldest(resolved(m, a), b) == oldest(m, b),
        enqueued(m, a, waiter).contains_key(b) == m.contains_key(b),
        queue_of(enqueued(m, a, waiter), b) == queue_of(m, b),
        oldest(enqueued(m, a, waiter), b) == oldest(m, b),
        resolved(resolved(m, a), b) == resolved(resolved(m, b), a),
{
    assert(resolved(resolved(m, a), b) =~= resolved(resolved(m, b), a));
}

/// A reply that finds no waiter resolves nothing: the registry stays as it
/// is, and the envelope says that no pending invocation was resolved.
pub proof fn reply_without_waiter<W>(m: Pending<W>, message: InboundModel)
    requires
        !m.contains_key(message.channel),
    ensures
        oldest(m, message.channel) is None,
        resolved(m, message.channel) == m,
        !envelope_of(m, message).resolved_pending_invoke,
{
}

/// The envelope of a reply says that it resolved a pending invocation
/// exactly where a waiter was pending on its channel.
pub proof fn envelope_tells_resolution<W>(m: Pending<W>, message: InboundModel)
    requires
        well_formed(m),
    ensures
        envelope_of(m, message).resolved_pending_invoke == m.contains_key(message.channel),
        envelope_of(m, message).channel == message.channel,
{
}

/// Marker gating. A line that does not begin with the marker decodes to no
/// message, so a chunk of output whose line lacks the marker carries no
/// `emit`: it reaches neither the registry nor the subscribers.
pub proof fn unmarked_line_is_inert(bytes: Seq<u8>)
    requires
        !marker_text().is_prefix_of(line_of(bytes)),
    ensures
        body_of(line_of(bytes)) is None,
        decoded(line_of(bytes)) is None,
        emit_of(bytes) is None,
{
}

/// Putting the marker in front of a text and stripping it again gives the
/// text back: a marked line decodes to whatever message the text behind the
/// marker parses to.
pub proof fn marked_line_decodes_its_body(text: Seq<char>)
    ensures
        body_of(marker_text() + text) == Some(text),
        decoded(marker_text() + text) == match parsed_value(text) {
            Some(document) => message_of(document),
            None => None,
        },
{
    let line = marker_text() + text;
    assert(line.subrange(0, marker_text().len() as int) =~= marker_text());
    assert(line.skip(marker_text().len() as int) =~= text);
}

/// Once terminated, the loop stays terminated whatever arrives; and it
/// terminates from running exactly on the worker's exit or the closing of
/// the stream.
pub proof fn terminated_is_absorbing(state: LoopState, event: WorkerEvent)
    ensures
        state is Terminated ==> next_state(state, event) is Terminated,
        state is Running ==> (next_state(state, event) is Terminated <==> (event is Terminated
            || event is Closed)),
{
}

} // verus!
