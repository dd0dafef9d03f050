//! The pending-event flag shared by the two contexts.

use vstd::prelude::*;

verus! {

/// The two values of the pending-event flag.
#[derive(Clone, Copy, Debug, PartialEq, Eq, Structural)]
pub enum Flag {
    /// No unconsumed event.
    Idle,
    /// An event occurred and has not been consumed yet.
    Signaled,
}

impl Flag {
    /// The flag after one signal.
    pub open spec fn after_set(self) -> Flag {
        Flag::Signaled
    }

    /// The flag after `n` signals in a row.
    pub open spec fn after_sets(self, n: nat) -> Flag
        decreases n,
    {
        if n == 0 {
            self
        } else {
            self.after_sets((n - 1) as nat).after_set()
        }
    }

    /// What a poll of this flag reports.
    pub open spec fn poll_result(self) -> bool {
        self == Flag::Signaled
    }

    /// The flag after a poll.
    pub open spec fn after_poll(self) -> Flag {
        Flag::Idle
    }
}

/// A single-bit cell: the background context signals it, the foreground
/// context tests and clears it in one step.
#[derive(Debug)]
pub struct AtomicFlag {
    state: Flag,
}

impl View for AtomicFlag {
    type V = Flag;

    closed spec fn view(&self) -> Flag {
        self.state
    }
}

impl AtomicFlag {
    /// A flag with no event pending.
    pub fn new() -> (flag: AtomicFlag)
        ensures
            flag@ == Flag::Idle,
    {
        AtomicFlag { state: Flag::Idle }
    }

    /// Marks the flag `Signaled`. Signals that arrive before the next
    /// consumption collapse into one: the flag is no queue.
    pub fn set(&mut self)
        ensures
            final(self)@ == old(self)@.after_set(),
    {
        self.state = Flag::Signaled;
    }

    /// Reads the flag and resets it to `Idle` in one step; reports whether
    /// an event was pending.
    pub fn test_and_clear(&mut self) -> (had_event: bool)
        ensures
            had_event == old(self)@.poll_result(),
            final(self)@ == old(self)@.after_poll(),
    {
        let had_event = self.state == Flag::Signaled;
        self.state = Flag::Idle;
        had_event
    }

    /// The current value, without consuming it.
    pub fn peek(&self) -> (state: Flag)
        ensures
            state == self@,
    {
        self.state
    }
}

/// Any number of signals between two polls, as long as there is at least
/// one, is seen by the next poll as one event: that poll reports an event
/// and the poll after it reports none.
pub proof fn lemma_signals_coalesce(flag: Flag, n: nat)
    requires
        n >= 1,
    ensures
        flag.after_sets(n) == Flag::Signaled,
        flag.after_sets(n).poll_result(),
        flag.after_sets(n).after_poll() == Flag::Idle,
        !flag.after_sets(n).after_poll().poll_result(),
{
}

/// Of two polls in a row with no signal between them, the second reports
/// no event, whatever the flag held before the first.
pub proof fn lemma_second_poll_is_empty(flag: Flag)
    ensures
        !flag.after_poll().poll_result(),
        flag.after_poll().after_poll() == flag.after_poll(),
{
}

/// A signal that precedes a poll is observed by that poll, whatever the
/// flag held before the signal.
pub proof fn lemma_signal_is_observed(flag: Flag)
    ensures
        flag.after_set().poll_result(),
        flag.after_set().after_set() == flag.after_set(),
{
}

} // verus!
