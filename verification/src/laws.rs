//! The delivery laws of the broadcast core, stated and proved over the same
//! spec functions the executable contracts use.

use vstd::prelude::*;

use crate::section::SectionState;
use crate::signal::{spec_poll, spec_replace, ChangePoll, Hub, Subscription};
use crate::viewer::{spec_step, Effect, ViewerConnection, ViewerEvent, ViewerState};
use crate::wire::spec_serialize;

verus! {

/// The pair a finite run of whole-value replacements leaves behind, first
/// submitted first. This is the serialized history the store's lock
/// enforces: however the writers raced, some such sequence is what
/// happened.
pub open spec fn spec_replace_all(h: Hub, vs: Seq<SectionState>) -> Hub
    decreases vs.len(),
{
    if vs.len() == 0 {
        h
    } else {
        spec_replace_all(spec_replace(h, vs[0]), vs.skip(1))
    }
}

/// A run of replacements bumps the generation once per replacement, leaves
/// the closed flag alone, and leaves the store holding exactly the last
/// submitted value.
proof fn lemma_replace_all(h: Hub, vs: Seq<SectionState>)
    requires
        h.signal.generation + vs.len() <= u64::MAX,
    ensures
        spec_replace_all(h, vs).signal.generation == h.signal.generation + vs.len(),
        spec_replace_all(h, vs).signal.closed == h.signal.closed,
        vs.len() > 0 ==> spec_replace_all(h, vs).cell.value == vs.last(),
        vs.len() == 0 ==> spec_replace_all(h, vs).cell == h.cell,
    decreases vs.len(),
{
    if vs.len() > 0 {
        lemma_replace_all(spec_replace(h, vs[0]), vs.skip(1));
        if vs.len() > 1 {
            assert(vs.skip(1).last() == vs.last());
        }
    }
}

/// Initial value: a cue with nothing set serializes to the empty string —
/// so a fresh pair's first hydration frame is empty, the placeholder being
/// the consumer's own rendering.
pub proof fn lemma_initial_value(s: SectionState)
    requires
        s.kind is None,
        s.ordinal is None,
    ensures
        spec_serialize(s) == Seq::<char>::empty(),
{
}

/// Immediate hydration: however many replacements went before, a
/// connection's first step — the socket coming up — sends exactly the
/// serialization of the value the store holds at that moment.
pub proof fn lemma_immediate_hydration(c: ViewerConnection, h: Hub)
    requires
        c.state is Connecting,
    ensures
        spec_step(c, ViewerEvent::Established, h).1 == Effect::Send(
            spec_serialize(h.cell.value),
        ),
        spec_step(c, ViewerEvent::Established, h).0.state is Streaming,
{
}

/// Eventual delivery: after any finite, nonempty run of replacements, a
/// streaming viewer subscribed throughout has a wake pending, and the wake
/// makes it send the serialization of the last replaced value. The
/// intermediate values may be coalesced away; the last never is. And once
/// delivered, a further wake of the caught-up viewer sends nothing — the
/// signal is a flag, not a queue.
pub proof fn lemma_eventual_delivery(c: ViewerConnection, h: Hub, vs: Seq<SectionState>)
    requires
        c.state is Streaming,
        c.subscription.seen <= h.signal.generation,
        vs.len() > 0,
        h.signal.generation + vs.len() <= u64::MAX,
    ensures
        ({
            let h2 = spec_replace_all(h, vs);
            let stepped = spec_step(c, ViewerEvent::Wake, h2);
            &&& stepped.1 == Effect::Send(spec_serialize(vs.last()))
            &&& stepped.0.state is Streaming
            &&& stepped.0.subscription.seen == h2.signal.generation
            &&& !h.signal.closed ==> spec_step(stepped.0, ViewerEvent::Wake, h2).1
                == Effect::Silent
        }),
{
    lemma_replace_all(h, vs);
}

/// Isolation: a peer close steps only the one connection it hits — it
/// emits nothing and ends that connection, and its watcher is simply
/// dropped with it. The shared pair is not an output of any step, and
/// another connection's step is a function of that connection, its own
/// event and the shared pair alone, so connection B behaves exactly as it
/// would have had A never closed.
pub proof fn lemma_isolation(a: ViewerConnection, h: Hub)
    ensures
        spec_step(a, ViewerEvent::PeerClosed, h).1 == Effect::Silent,
        spec_step(a, ViewerEvent::PeerClosed, h).0.state is Closed,
        spec_step(a, ViewerEvent::PeerClosed, h).0.subscription == a.subscription,
{
}

/// Monotonic reads: no step takes a connection's watcher backwards, and
/// none takes it past the signal. A woken viewer re-reads the store as it
/// stands at that wake or later — never a value older than one it has
/// already observed.
pub proof fn lemma_monotonic_reads(c: ViewerConnection, e: ViewerEvent, h: Hub)
    requires
        c.subscription.seen <= h.signal.generation,
    ensures
        spec_step(c, e, h).0.subscription.seen >= c.subscription.seen,
        spec_step(c, e, h).0.subscription.seen <= h.signal.generation,
{
}

/// No lost final write: two replacements that raced serialize in one of the
/// two orders, and either way the store afterwards holds exactly one of the
/// two submitted pairs, whole — never a mixture of their fields — and a
/// viewer subscribed throughout wakes and sends that very value.
pub proof fn lemma_no_lost_final_write(
    c: ViewerConnection,
    h: Hub,
    first: SectionState,
    second: SectionState,
)
    requires
        c.state is Streaming,
        c.subscription.seen <= h.signal.generation,
        h.signal.generation + 2 <= u64::MAX,
    ensures
        ({
            let h2 = spec_replace_all(h, seq![first, second]);
            &&& h2.cell.value == second
            &&& h2.cell.value == first || h2.cell.value == second
            &&& spec_step(c, ViewerEvent::Wake, h2).1 == Effect::Send(
                spec_serialize(h2.cell.value),
            )
        }),
{
    let vs = seq![first, second];
    assert(vs.last() == second);
    lemma_replace_all(h, vs);
    lemma_eventual_delivery(c, h, vs);
}

/// A redundant write still notifies: replacing the store's value with an
/// equal one still bumps the generation, so a watcher that had caught up
/// with everything is woken once more all the same.
pub proof fn lemma_redundant_write_notifies(h: Hub, w: Subscription)
    requires
        w.seen == h.signal.generation,
        h.signal.generation < u64::MAX,
    ensures
        spec_poll(w, spec_replace(h, h.cell.value).signal).1 is Changed,
        spec_replace(h, h.cell.value).cell.value == h.cell.value,
{
}

} // verus!
