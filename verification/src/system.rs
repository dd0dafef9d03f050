//! The two tasks and the state they share: the main loop polls the flag,
//! the interrupt handler clears the hardware latch and signals the flag.

use vstd::prelude::*;
use crate::critical::{CriticalSection, Token};
use crate::fault::Fault;
use crate::flag::{AtomicFlag, Flag};
use crate::line::{
    ClearPending, ControllerState, InterruptController, InterruptSource, Latch, LineId,
    SourceState, Transition,
};
use crate::pins::OutputPin;
use crate::slot::{install_result, install_target, ResourceSlot};

verus! {

/// Everything the two tasks share, and the hardware state that decides
/// when the handler runs.
pub struct SystemState {
    /// Whether the core dispatches interrupts: `false` inside a critical
    /// section.
    pub interrupts_enabled: bool,
    pub flag: Flag,
    /// The interrupt source, once it has been handed over.
    pub source: Option<SourceState>,
    pub controller: ControllerState,
}

impl SystemState {
    /// The state at start: interrupts enabled, no event, nothing handed
    /// over, the line masked.
    pub open spec fn initial(line: LineId) -> SystemState {
        SystemState {
            interrupts_enabled: true,
            flag: Flag::Idle,
            source: None,
            controller: ControllerState { line, unmasked: false },
        }
    }

    /// The order of initialisation: when the line is unmasked, the source
    /// has been handed over and has a trigger.
    pub open spec fn ordered(self) -> bool {
        self.controller.unmasked ==> self.source is Some && self.source->0.trigger is Some
    }

    /// Whether the hardware would run the handler now.
    pub open spec fn dispatchable(self) -> bool {
        &&& self.interrupts_enabled
        &&& self.controller.unmasked
        &&& self.source is Some
        &&& self.source->0.requests()
    }

    /// Whether every transition that the trigger covers reaches the
    /// handler at once: interrupts enabled, the line unmasked, the source
    /// enabled.
    pub open spec fn armed(self) -> bool {
        &&& self.interrupts_enabled
        &&& self.controller.unmasked
        &&& self.source is Some
        &&& self.source->0.enabled
    }

    /// The state after one run of the handler: the latch is cleared through
    /// the slot, if it holds the source, and the flag is signaled.
    pub open spec fn after_handler(self) -> SystemState {
        SystemState {
            flag: self.flag.after_set(),
            source: match self.source {
                Some(source) => Some(source.cleared()),
                None => None,
            },
            ..self
        }
    }

    /// The state after the hardware had its chance to run the handler.
    pub open spec fn after_dispatch(self) -> SystemState {
        if self.dispatchable() {
            self.after_handler()
        } else {
            self
        }
    }

    /// The state after the input signal made `transition`.
    pub open spec fn after_event(self, transition: Transition) -> SystemState {
        SystemState {
            source: match self.source {
                Some(source) => Some(source.after_transition(transition)),
                None => None,
            },
            ..self
        }.after_dispatch()
    }

    /// The state after the input signal made each of `transitions` in turn.
    pub open spec fn after_events(self, transitions: Seq<Transition>) -> SystemState
        decreases transitions.len(),
    {
        if transitions.len() == 0 {
            self
        } else {
            self.after_events(transitions.drop_last()).after_event(transitions.last())
        }
    }

    /// The state inside a critical section entered from this one.
    pub open spec fn after_enter(self) -> SystemState {
        SystemState { interrupts_enabled: false, ..self }
    }

    /// The state after the exit from a critical section that had found
    /// interrupts enabled, or not, as `restore` says. What was latched
    /// meanwhile is handled at once.
    pub open spec fn after_exit(self, restore: bool) -> SystemState {
        SystemState { interrupts_enabled: restore, ..self }.after_dispatch()
    }

    /// What a poll of the main loop reports.
    pub open spec fn poll_result(self) -> bool {
        self.flag.poll_result()
    }

    /// The state after a poll of the main loop.
    pub open spec fn after_poll(self) -> SystemState {
        SystemState { flag: self.flag.after_poll(), ..self }
    }

    /// The state after `source` was offered to the slot.
    pub open spec fn after_install(self, source: SourceState) -> SystemState {
        SystemState { source: install_target(self.source, source), ..self }
    }

    /// What a request to unmask `line` returns. The checks come in this
    /// order: the line, the slot, the trigger.
    pub open spec fn unmask_result(self, line: LineId) -> Result<(), Fault> {
        if line != self.controller.line {
            Err(Fault::UnknownLine)
        } else if self.source is None {
            Err(Fault::NotInstalled)
        } else if self.source->0.trigger is None {
            Err(Fault::TriggerNotConfigured)
        } else {
            Ok(())
        }
    }

    /// The state after a request to unmask `line`. An event latched before
    /// is handled at once.
    pub open spec fn after_unmask(self, line: LineId) -> SystemState {
        if self.unmask_result(line) is Ok {
            SystemState {
                controller: self.controller.after_request(line, true),
                ..self
            }.after_dispatch()
        } else {
            self
        }
    }

    /// The state after a request to mask `line`.
    pub open spec fn after_mask(self, line: LineId) -> SystemState {
        SystemState { controller: self.controller.after_request(line, false), ..self }
    }

    /// What holds between any two operations: the order of initialisation
    /// was kept, and no interrupt waits that the hardware could deliver.
    pub open spec fn settled(self) -> bool {
        self.ordered() && !self.dispatchable()
    }
}

/// The flag, the slot, the interrupt line and the core's interrupt enable.
pub struct System {
    section: CriticalSection,
    flag: AtomicFlag,
    slot: ResourceSlot<InterruptSource>,
    controller: InterruptController,
}

impl View for System {
    type V = SystemState;

    closed spec fn view(&self) -> SystemState {
        SystemState {
            interrupts_enabled: self.section@,
            flag: self.flag@,
            source: match self.slot@ {
                Some(source) => Some(source@),
                None => None,
            },
            controller: self.controller@,
        }
    }
}

impl System {
    /// The invariant of the system.
    pub open spec fn wf(&self) -> bool {
        self@.settled()
    }

    /// The system at start.
    pub fn new(line: LineId) -> (system: System)
        ensures
            system@ == SystemState::initial(line),
            system.wf(),
    {
        System {
            section: CriticalSection::new(),
            flag: AtomicFlag::new(),
            slot: ResourceSlot::new(),
            controller: InterruptController::new(line),
        }
    }

    /// The body of the interrupt handler: inside a critical section it
    /// clears the hardware latch through the slot, then signals the flag.
    /// With an empty slot it only signals the flag.
    pub fn interrupt_handler(&mut self)
        requires
            old(self)@.ordered(),
        ensures
            final(self)@ == old(self)@.after_handler(),
            final(self).wf(),
    {
        let token = self.section.enter();
        self.slot.with_borrowed(ClearPending);
        self.flag.set();
        self.section.exit(token);
    }

    /// Whether the source in the slot asks for its handler.
    fn source_requests(&self) -> (requests: bool)
        ensures
            requests == (self@.source is Some && self@.source->0.requests()),
    {
        match self.slot.peek() {
            Some(source) => source.requests_service(),
            None => false,
        }
    }

    /// The hardware's dispatch: runs the handler if interrupts are enabled,
    /// the line is unmasked and the source asks for it.
    fn dispatch(&mut self)
        requires
            old(self)@.ordered(),
        ensures
            final(self)@ == old(self)@.after_dispatch(),
            final(self).wf(),
    {
        if self.section.interrupts_enabled() && self.controller.is_unmasked()
            && self.source_requests() {
            self.interrupt_handler();
        }
    }

    /// The hardware's side: the input signal made `transition`. The source
    /// latches it if it is armed for it, and the handler runs at once if it
    /// can be dispatched; inside a critical section the event stays latched.
    pub fn hardware_event(&mut self, transition: Transition)
        requires
            old(self).wf(),
        ensures
            final(self)@ == old(self)@.after_event(transition),
            final(self).wf(),
    {
        self.slot.with_borrowed(Latch { transition });
        self.dispatch();
    }

    /// Enters a critical section.
    pub fn enter_section(&mut self) -> (token: Token)
        requires
            old(self).wf(),
        ensures
            final(self)@ == old(self)@.after_enter(),
            token.restores() == old(self)@.interrupts_enabled,
            final(self).wf(),
    {
        self.section.enter()
    }

    /// Leaves a critical section. If that enables interrupts again, an
    /// event latched meanwhile is handled at once.
    pub fn exit_section(&mut self, token: Token)
        requires
            old(self).wf(),
        ensures
            final(self)@ == old(self)@.after_exit(token.restores()),
            final(self).wf(),
    {
        self.section.exit(token);
        self.dispatch();
    }

    /// One poll of the main loop: inside a critical section, tests the flag
    /// and clears it. Reports whether an event was pending.
    pub fn poll(&mut self) -> (had_event: bool)
        requires
            old(self).wf(),
        ensures
            had_event == old(self)@.poll_result(),
            final(self)@ == old(self)@.after_poll(),
            final(self).wf(),
    {
        let token = self.enter_section();
        let had_event = self.flag.test_and_clear();
        self.exit_section(token);
        had_event
    }

    /// One turn of the main loop: polls, and toggles the indicator if an
    /// event was pending. The reaction comes after the critical section.
    pub fn main_loop_step(&mut self, indicator: &mut OutputPin) -> (had_event: bool)
        requires
            old(self).wf(),
        ensures
            had_event == old(self)@.poll_result(),
            final(self)@ == old(self)@.after_poll(),
            final(self).wf(),
            final(indicator)@ == (if had_event {
                !old(indicator)@
            } else {
                old(indicator)@
            }),
    {
        let had_event = self.poll();
        if had_event {
            indicator.toggle();
        }
        had_event
    }

    /// Hands the interrupt source over to the handler, inside a critical
    /// section. A second hand-over is a fault and changes nothing.
    pub fn install(&mut self, source: InterruptSource) -> (result: Result<(), Fault>)
        requires
            old(self).wf(),
        ensures
            result == install_result(old(self)@.source, source@),
            final(self)@ == old(self)@.after_install(source@),
            final(self).wf(),
    {
        let token = self.enter_section();
        let result = self.slot.install(source);
        self.exit_section(token);
        result
    }

    /// Unmasks the line. This is refused, and nothing changes, unless the
    /// source has been handed over with a trigger configured.
    pub fn unmask(&mut self, line: LineId) -> (result: Result<(), Fault>)
        requires
            old(self).wf(),
        ensures
            result == old(self)@.unmask_result(line),
            final(self)@ == old(self)@.after_unmask(line),
            final(self).wf(),
    {
        if line != self.controller.line() {
            return Err(Fault::UnknownLine);
        }
        let configured = match self.slot.peek() {
            Some(source) => source.has_trigger(),
            None => {
                return Err(Fault::NotInstalled);
            },
        };
        if !configured {
            return Err(Fault::TriggerNotConfigured);
        }
        let result = self.controller.unmask(line);
        self.dispatch();
        result
    }

    /// Masks the line.
    pub fn mask(&mut self, line: LineId) -> (result: Result<(), Fault>)
        requires
            old(self).wf(),
        ensures
            result == old(self)@.controller.answer(line),
            final(self)@ == old(self)@.after_mask(line),
            final(self).wf(),
    {
        self.controller.mask(line)
    }

    /// The flag, without consuming it.
    pub fn flag(&self) -> (flag: Flag)
        ensures
            flag == self@.flag,
    {
        self.flag.peek()
    }

    /// Whether the source has been handed over.
    pub fn is_installed(&self) -> (installed: bool)
        ensures
            installed == (self@.source is Some),
    {
        self.slot.is_installed()
    }

    /// Whether the hardware latch holds an event.
    pub fn is_pending(&self) -> (pending: bool)
        ensures
            pending == (self@.source is Some && self@.source->0.pending),
    {
        match self.slot.peek() {
            Some(source) => source.is_pending(),
            None => false,
        }
    }

    /// Whether the line is unmasked.
    pub fn is_unmasked(&self) -> (unmasked: bool)
        ensures
            unmasked == self@.controller.unmasked,
    {
        self.controller.is_unmasked()
    }

    /// Whether the core dispatches interrupts.
    pub fn interrupts_enabled(&self) -> (enabled: bool)
        ensures
            enabled == self@.interrupts_enabled,
    {
        self.section.interrupts_enabled()
    }
}

/// Whether the trigger of the handed-over source covers each of
/// `transitions`.
pub open spec fn all_covered(state: SystemState, transitions: Seq<Transition>) -> bool {
    &&& state.source is Some
    &&& state.source->0.trigger is Some
    &&& forall|i: int|
        0 <= i < transitions.len() ==> state.source->0.trigger->0.covers(#[trigger] transitions[i])
}

/// Whatever the input signal does, the system stays settled.
pub proof fn lemma_events_keep_settled(state: SystemState, transitions: Seq<Transition>)
    requires
        state.settled(),
    ensures
        state.after_events(transitions).settled(),
    decreases transitions.len(),
{
    if transitions.len() > 0 {
        lemma_events_keep_settled(state, transitions.drop_last());
    }
}

/// Events between two polls coalesce. On an armed system, any number of
/// covered transitions, as long as there is at least one, leaves exactly
/// what one of them leaves: the flag signaled, the latch cleared, and
/// nothing else changed. The next poll reports one event, and the poll
/// after it reports none.
pub proof fn lemma_events_coalesce(state: SystemState, transitions: Seq<Transition>)
    requires
        state.settled(),
        state.armed(),
        transitions.len() >= 1,
        all_covered(state, transitions),
    ensures
        state.after_events(transitions) == (SystemState { flag: Flag::Signaled, ..state }),
        state.after_events(transitions).poll_result(),
        state.after_events(transitions).after_poll() == (SystemState { flag: Flag::Idle, ..state }),
        !state.after_events(transitions).after_poll().poll_result(),
    decreases transitions.len(),
{
    let earlier = transitions.drop_last();
    assert(state.source->0.trigger->0.covers(transitions[transitions.len() - 1]));
    if earlier.len() >= 1 {
        assert forall|i: int| 0 <= i < earlier.len() implies state.source->0.trigger->0.covers(
            #[trigger] earlier[i],
        ) by {
            assert(earlier[i] == transitions[i]);
        }
        lemma_events_coalesce(state, earlier);
    } else {
        assert(state.after_events(earlier) == state);
    }
    let before = state.after_events(earlier);
    assert(before.source == state.source);
    assert(before.after_event(transitions.last()).source->0 == state.source->0);
}

/// A transition that the source does not latch changes nothing.
pub proof fn lemma_unlatched_event_is_ignored(state: SystemState, transition: Transition)
    requires
        state.settled(),
        state.source is Some ==> !state.source->0.latches(transition),
    ensures
        state.after_event(transition) == state,
{
    if state.source is Some {
        assert(state.source->0.after_transition(transition) == state.source->0);
    }
}

/// An event that arrives inside a critical section is neither lost nor
/// handled twice. Inside the section the handler does not run: the flag
/// is untouched and the latch is set. The exit that enables interrupts
/// again runs the handler once, which leaves what the same transitions
/// would have left outside the section.
pub proof fn lemma_event_in_section_is_kept(state: SystemState, transitions: Seq<Transition>)
    requires
        state.settled(),
        state.armed(),
        transitions.len() >= 1,
        all_covered(state, transitions),
    ensures
        state.after_enter().after_events(transitions).flag == state.flag,
        state.after_enter().after_events(transitions).source->0.pending,
        state.after_enter().after_events(transitions).after_exit(true) == state.after_events(
            transitions,
        ),
        !state.after_events(transitions).source->0.pending,
{
    lemma_events_coalesce(state, transitions);
    lemma_latched_in_section(state.after_enter(), transitions);
    let inside = state.after_enter().after_events(transitions);
    assert(inside.source->0.cleared() == state.source->0);
}

/// With interrupts disabled, covered transitions set the latch and change
/// nothing else.
proof fn lemma_latched_in_section(state: SystemState, transitions: Seq<Transition>)
    requires
        !state.interrupts_enabled,
        state.source is Some,
        state.source->0.enabled,
        !state.source->0.pending,
        transitions.len() >= 1,
        all_covered(state, transitions),
    ensures
        state.after_events(transitions) == (SystemState {
            source: Some(SourceState { pending: true, ..state.source->0 }),
            ..state
        }),
    decreases transitions.len(),
{
    let earlier = transitions.drop_last();
    assert(state.source->0.trigger->0.covers(transitions[transitions.len() - 1]));
    if earlier.len() >= 1 {
        assert forall|i: int| 0 <= i < earlier.len() implies state.source->0.trigger->0.covers(
            #[trigger] earlier[i],
        ) by {
            assert(earlier[i] == transitions[i]);
        }
        lemma_latched_in_section(state, earlier);
    } else {
        assert(state.after_events(earlier) == state);
    }
}

/// Critical sections nest. The exit of the inner one leaves interrupts
/// disabled, and the exit of the outer one brings back the state from
/// before the nest.
pub proof fn lemma_nested_sections_restore(state: SystemState)
    requires
        state.settled(),
    ensures
        !state.after_enter().after_enter().after_exit(false).interrupts_enabled,
        state.after_enter().after_enter().after_exit(false) == state.after_enter(),
        state.after_enter().after_exit(state.interrupts_enabled) == state,
{
}

/// The hardware delivers one event once: right after a dispatch there is
/// nothing left to dispatch.
pub proof fn lemma_dispatch_settles(state: SystemState)
    requires
        state.ordered(),
    ensures
        state.after_dispatch().settled(),
        state.after_dispatch().after_dispatch() == state.after_dispatch(),
{
}

/// The order of initialisation is enforced: while nothing has been handed
/// over, a request to unmask is refused and changes nothing, so the handler
/// cannot be dispatched against an empty slot.
pub proof fn lemma_unmask_needs_hand_over(state: SystemState, line: LineId)
    requires
        state.settled(),
        state.source is None,
    ensures
        state.unmask_result(line) is Err,
        state.after_unmask(line) == state,
        !state.controller.unmasked,
        forall|transition: Transition| #[trigger] state.after_event(transition) == state,
{
}

/// A handler that finds the slot empty signals the flag and touches
/// nothing else.
pub proof fn lemma_handler_tolerates_empty_slot(state: SystemState)
    requires
        state.source is None,
    ensures
        state.after_handler() == (SystemState { flag: Flag::Signaled, ..state }),
{
}

/// A second hand-over is refused and leaves the first source in place.
pub proof fn lemma_second_hand_over_is_refused(
    state: SystemState,
    first: SourceState,
    second: SourceState,
)
    requires
        state.source is None,
    ensures
        install_result(state.after_install(first).source, second) == Err::<(), Fault>(
            Fault::AlreadyInstalled,
        ),
        state.after_install(first).after_install(second) == state.after_install(first),
        state.after_install(first).source == Some(first),
{
}

/// On an armed system, a covered event that finds the flag idle signals
/// it, and one that finds it signaled is coalesced: it changes nothing,
/// and the fact that something happened stays.
pub proof fn lemma_event_is_signaled_or_coalesced(state: SystemState, transition: Transition)
    requires
        state.settled(),
        state.armed(),
        all_covered(state, seq![transition]),
    ensures
        state.after_event(transition) == (SystemState { flag: Flag::Signaled, ..state }),
        state.flag == Flag::Signaled ==> state.after_event(transition) == state,
{
    assert(state.source->0.trigger->0.covers(seq![transition][0]));
    assert(state.after_event(transition).source->0 == state.source->0);
}

/// Every operation keeps the system settled: the line is never unmasked
/// before the source was handed over with its trigger, and no deliverable
/// interrupt is left waiting.
pub proof fn lemma_operations_keep_settled(
    state: SystemState,
    transition: Transition,
    source: SourceState,
    line: LineId,
    restore: bool,
)
    requires
        state.settled(),
    ensures
        state.after_event(transition).settled(),
        state.after_handler().settled(),
        state.after_poll().settled(),
        state.after_enter().settled(),
        state.after_exit(restore).settled(),
        state.after_install(source).settled(),
        state.after_unmask(line).settled(),
        state.after_mask(line).settled(),
{
}

/// The hand-over is permanent: no operation empties the slot.
pub proof fn lemma_hand_over_is_permanent(
    state: SystemState,
    transition: Transition,
    source: SourceState,
    line: LineId,
    restore: bool,
)
    requires
        state.source is Some,
    ensures
        state.after_event(transition).source is Some,
        state.after_handler().source is Some,
        state.after_poll().source is Some,
        state.after_enter().source is Some,
        state.after_exit(restore).source is Some,
        state.after_install(source).source == state.source,
        state.after_unmask(line).source is Some,
        state.after_mask(line).source is Some,
{
}

} // verus!
