//! Runs of the system: interleavings of hardware events and polls of the
//! main loop, and what the main loop observes of them.

use vstd::prelude::*;
use crate::flag::Flag;
use crate::line::{Edge, Transition};
use crate::system::{System, SystemState};

verus! {

/// One step of a run.
#[derive(Clone, Copy, Debug, PartialEq, Eq, Structural)]
pub enum Step {
    /// The input signal makes a transition.
    Event(Transition),
    /// The main loop polls the flag.
    Poll,
}

impl SystemState {
    /// The state after `step`.
    pub open spec fn after_step(self, step: Step) -> SystemState {
        match step {
            Step::Event(transition) => self.after_event(transition),
            Step::Poll => self.after_poll(),
        }
    }

    /// The state after each of `steps` in turn.
    pub open spec fn after_steps(self, steps: Seq<Step>) -> SystemState
        decreases steps.len(),
    {
        if steps.len() == 0 {
            self
        } else {
            self.after_steps(steps.drop_last()).after_step(steps.last())
        }
    }

    /// How many polls among `steps` report an event.
    pub open spec fn observations(self, steps: Seq<Step>) -> nat
        decreases steps.len(),
    {
        if steps.len() == 0 {
            0
        } else {
            let before = self.after_steps(steps.drop_last());
            let seen: nat = if steps.last() == Step::Poll && before.poll_result() {
                1
            } else {
                0
            };
            self.observations(steps.drop_last()) + seen
        }
    }

    /// Whether the trigger of the handed-over source covers each event
    /// among `steps`.
    pub open spec fn covers_all(self, steps: Seq<Step>) -> bool {
        &&& self.source is Some
        &&& self.source->0.trigger is Some
        &&& forall|i: int|
            0 <= i < steps.len() ==> (#[trigger] steps[i]).within(self.source->0.trigger->0)
    }
}

impl Step {
    /// Whether a line armed for `edge` reacts to this step, if it is an
    /// event. A poll is within every edge.
    pub open spec fn within(self, edge: Edge) -> bool {
        match self {
            Step::Event(transition) => edge.covers(transition),
            Step::Poll => true,
        }
    }
}

/// How many of `steps` are events.
pub open spec fn event_count(steps: Seq<Step>) -> nat
    decreases steps.len(),
{
    if steps.len() == 0 {
        0
    } else {
        let one: nat = if steps.last() is Event {
            1
        } else {
            0
        };
        event_count(steps.drop_last()) + one
    }
}

/// One if the flag holds an unconsumed event, else zero.
pub open spec fn unconsumed(flag: Flag) -> nat {
    if flag == Flag::Signaled {
        1
    } else {
        0
    }
}

impl System {
    /// Plays `steps` on the system: each event is delivered as the hardware
    /// would, each poll is one poll of the main loop. Returns how many
    /// polls reported an event.
    pub fn replay(&mut self, steps: &Vec<Step>) -> (observed: usize)
        requires
            old(self).wf(),
        ensures
            final(self)@ == old(self)@.after_steps(steps@),
            observed == old(self)@.observations(steps@),
            final(self).wf(),
    {
        let mut observed: usize = 0;
        let mut i: usize = 0;
        assert(steps@.take(0) =~= Seq::<Step>::empty());
        while i < steps.len()
            invariant
                i <= steps.len(),
                observed <= i,
                self.wf(),
                self@ == old(self)@.after_steps(steps@.take(i as int)),
                observed == old(self)@.observations(steps@.take(i as int)),
            decreases steps.len() - i,
        {
            assert(steps@.take(i + 1).drop_last() =~= steps@.take(i as int));
            assert(steps@.take(i + 1).last() == steps@[i as int]);
            match steps[i] {
                Step::Event(transition) => {
                    self.hardware_event(transition);
                },
                Step::Poll => {
                    if self.poll() {
                        observed = observed + 1;
                    }
                },
            }
            i = i + 1;
        }
        assert(steps@.take(steps@.len() as int) =~= steps@);
        observed
    }
}

/// On an armed system, a run changes nothing but the flag.
pub proof fn lemma_run_changes_the_flag_only(state: SystemState, steps: Seq<Step>)
    requires
        state.settled(),
        state.armed(),
        state.covers_all(steps),
    ensures
        state.after_steps(steps) == (SystemState { flag: state.after_steps(steps).flag, ..state }),
    decreases steps.len(),
{
    if steps.len() > 0 {
        let earlier = steps.drop_last();
        assert forall|i: int| 0 <= i < earlier.len() implies (#[trigger] earlier[i]).within(
            state.source->0.trigger->0,
        ) by {
            assert(steps[i] == earlier[i]);
        }
        lemma_run_changes_the_flag_only(state, earlier);
        let before = state.after_steps(earlier);
        match steps.last() {
            Step::Event(transition) => {
                assert(steps[steps.len() - 1].within(state.source->0.trigger->0));
                assert(before.after_event(transition).source->0 == state.source->0);
            },
            Step::Poll => {},
        }
    }
}

/// No event is invented and none is lost. On an armed system, over any
/// run of covered events and polls, the polls that report an event,
/// together with the event still unconsumed at the end, are at most the
/// events of the run together with the event unconsumed at the start; and
/// if the run holds an event at all, at least one is reported or still
/// unconsumed at the end.
pub proof fn lemma_observations_account_for_events(state: SystemState, steps: Seq<Step>)
    requires
        state.settled(),
        state.armed(),
        state.covers_all(steps),
    ensures
        state.observations(steps) + unconsumed(state.after_steps(steps).flag) <= event_count(steps)
            + unconsumed(state.flag),
        event_count(steps) >= 1 ==> state.observations(steps) + unconsumed(
            state.after_steps(steps).flag,
        ) >= 1,
    decreases steps.len(),
{
    if steps.len() > 0 {
        let earlier = steps.drop_last();
        assert forall|i: int| 0 <= i < earlier.len() implies (#[trigger] earlier[i]).within(
            state.source->0.trigger->0,
        ) by {
            assert(steps[i] == earlier[i]);
        }
        lemma_observations_account_for_events(state, earlier);
        lemma_run_changes_the_flag_only(state, earlier);
        match steps.last() {
            Step::Event(transition) => {
                assert(steps[steps.len() - 1].within(state.source->0.trigger->0));
            },
            Step::Poll => {},
        }
    }
}

/// A poll reports an event exactly when an event arrived since the poll
/// before it: on an armed system whose flag is idle, a run of covered
/// events followed by a poll is observed once if the run holds an event,
/// and not at all if it holds none.
pub proof fn lemma_poll_reports_events_since_last_poll(
    state: SystemState,
    transitions: Seq<Transition>,
)
    requires
        state.settled(),
        state.armed(),
        state.flag == Flag::Idle,
        crate::system::all_covered(state, transitions),
    ensures
        state.after_events(transitions).poll_result() == (transitions.len() >= 1),
        state.after_events(transitions).after_poll() == state,
{
    if transitions.len() >= 1 {
        crate::system::lemma_events_coalesce(state, transitions);
    }
}

} // verus!
