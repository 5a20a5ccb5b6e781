//! The single-slot shared store and its coalescing change signal.
//!
//! One pair of these is built at process start and shared, behind the host's
//! lock, by the control path and by every viewer connection: a `StateCell`
//! holding the one current cue, and a `ChangeSignal` that every replacement
//! bumps. A consumer keeps a `Subscription` and compares generations, so any
//! number of replacements it slept through collapse into a single "go
//! re-read the current value" — never a queue of stale values.

use vstd::prelude::*;

use crate::section::SectionState;

verus! {

/// The single current cue value, owned by the pair. The store takes whatever
/// pair the writer submitted, whole; keeping the pair fully formed is the
/// control path's duty, not the store's.
#[derive(Clone, Copy, PartialEq, Eq, Debug)]
pub struct StateCell {
    /// The value the last completed replacement wrote.
    pub value: SectionState,
}

impl StateCell {
    /// A snapshot of the current value; never blocks and cannot fail.
    pub fn read(&self) -> (r: SectionState)
        ensures
            r == self.value,
    {
        self.value
    }
}

/// The notification side: a generation counter bumped once by every
/// replacement, equal value or not, and a flag for a producer that has
/// permanently shut down.
#[derive(Clone, Copy, PartialEq, Eq, Debug)]
pub struct ChangeSignal {
    /// How many replacements have been signalled so far.
    pub generation: u64,
    /// True once the producer side is gone for good; never unset.
    pub closed: bool,
}

/// One consumer's independent watcher: the generation up to which it has
/// seen everything. Subscriptions never learn how many changes they missed,
/// only whether there was at least one.
#[derive(Clone, Copy, PartialEq, Eq, Debug)]
pub struct Subscription {
    /// The signal generation this watcher last caught up with.
    pub seen: u64,
}

/// What one poll of a subscription reports.
#[derive(Clone, Copy, PartialEq, Eq, Debug)]
pub enum ChangePoll {
    /// At least one replacement since the watcher last caught up: re-read
    /// the current value now.
    Changed,
    /// Nothing new: suspend until the next replacement, then poll again.
    Pending,
    /// The producer is gone and nothing is left to deliver; every later
    /// poll on this subscription reports the same.
    Closed,
}

impl ChangeSignal {
    /// An independent watcher that is caught up as of now: its first change
    /// report comes with the first replacement after this call.
    pub fn subscribe(&self) -> (w: Subscription)
        ensures
            w.seen == self.generation,
    {
        Subscription { seen: self.generation }
    }
}

/// What a poll reports and where it leaves the subscription. A pending
/// change outranks a closed producer, so a final write is still delivered
/// after shutdown.
pub open spec fn spec_poll(w: Subscription, sig: ChangeSignal) -> (Subscription, ChangePoll) {
    if sig.generation != w.seen {
        (Subscription { seen: sig.generation }, ChangePoll::Changed)
    } else if sig.closed {
        (w, ChangePoll::Closed)
    } else {
        (w, ChangePoll::Pending)
    }
}

impl Subscription {
    /// One poll against the signal: `Changed` exactly when a replacement has
    /// happened since this watcher last caught up — one report however many
    /// replacements there were, all marked seen at once; `Closed` when the
    /// producer is gone with nothing left to deliver; `Pending` otherwise.
    pub fn poll_change(&mut self, signal: &ChangeSignal) -> (r: ChangePoll)
        ensures
            (*final(self), r) == spec_poll(*old(self), *signal),
    {
        if signal.generation != self.seen {
            self.seen = signal.generation;
            ChangePoll::Changed
        } else if signal.closed {
            ChangePoll::Closed
        } else {
            ChangePoll::Pending
        }
    }
}

/// The process-wide pair: one store and one signal, replaced and signalled
/// together so that a write is never observable without its wake.
#[derive(Clone, Copy, PartialEq, Eq, Debug)]
pub struct Hub {
    /// The store.
    pub cell: StateCell,
    /// Its change signal.
    pub signal: ChangeSignal,
}

/// What one whole-value replacement does to the pair: the new value in the
/// store, one more generation on the signal, nothing else.
pub open spec fn spec_replace(h: Hub, v: SectionState) -> Hub {
    Hub {
        cell: StateCell { value: v },
        signal: ChangeSignal {
            generation: (h.signal.generation + 1) as u64,
            closed: h.signal.closed,
        },
    }
}

impl Hub {
    /// The pair as a fresh process builds it: no section cued, no change
    /// signalled yet, producer alive.
    pub fn new() -> (h: Hub)
        ensures
            h.cell.value.kind is None,
            h.cell.value.ordinal is None,
            h.cell.value.wf(),
            h.signal.generation == 0,
            !h.signal.closed,
    {
        Hub {
            cell: StateCell { value: SectionState::empty() },
            signal: ChangeSignal { generation: 0, closed: false },
        }
    }

    /// Whether the generation counter can count one more replacement — a
    /// machine-word bound, not a design one.
    pub open spec fn can_signal(self) -> bool {
        self.signal.generation < u64::MAX
    }

    /// Atomically overwrites the value and unconditionally signals the
    /// change, even when the new value equals the old one: every replacement
    /// is a new event, there is no deduplication, and the operation cannot
    /// fail. Concurrent callers are serialized by the host's lock around the
    /// pair; whichever replacement completes last is the one later readers
    /// see, whole.
    pub fn replace(&mut self, new_value: SectionState)
        requires
            old(self).can_signal(),
        ensures
            *final(self) == spec_replace(*old(self), new_value),
    {
        self.cell.value = new_value;
        self.signal.generation = self.signal.generation + 1;
    }

    /// A snapshot of the current value; never blocks and cannot fail.
    pub fn read(&self) -> (r: SectionState)
        ensures
            r == self.cell.value,
    {
        self.cell.read()
    }

    /// Shuts the producer side down for good. The stored value and the
    /// generation stay as they are, so a last unseen write is still
    /// delivered before subscriptions start reporting `Closed`.
    pub fn close(&mut self)
        ensures
            final(self).cell == old(self).cell,
            final(self).signal.generation == old(self).signal.generation,
            final(self).signal.closed,
    {
        self.signal.closed = true;
    }
}

} // verus!
