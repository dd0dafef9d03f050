//! The interrupt line: the source that latches an event, and the
//! controller that masks and unmasks its dispatch.

use vstd::prelude::*;
use crate::fault::Fault;
use crate::slot::Borrower;

verus! {

/// The signal transitions that can arm a line.
#[derive(Clone, Copy, Debug, PartialEq, Eq, Structural)]
pub enum Edge {
    Rising,
    Falling,
    Both,
}

/// One transition of the input signal.
#[derive(Clone, Copy, Debug, PartialEq, Eq, Structural)]
pub enum Transition {
    Rise,
    Fall,
}

impl Edge {
    /// Whether a line armed for this edge reacts to `transition`.
    pub open spec fn covers(self, transition: Transition) -> bool {
        match self {
            Edge::Rising => transition == Transition::Rise,
            Edge::Falling => transition == Transition::Fall,
            Edge::Both => true,
        }
    }

    /// Whether a line armed for this edge reacts to `transition`.
    pub fn reacts_to(self, transition: Transition) -> (reacts: bool)
        ensures
            reacts == self.covers(transition),
    {
        match self {
            Edge::Rising => transition == Transition::Rise,
            Edge::Falling => transition == Transition::Fall,
            Edge::Both => true,
        }
    }
}

/// Identifies an interrupt line to the controller.
#[derive(Clone, Copy, Debug, PartialEq, Eq, Structural)]
pub struct LineId {
    number: u16,
}

impl LineId {
    /// The identifier of line `number`.
    pub fn new(number: u16) -> (line: LineId)
        ensures
            line.number() == number,
    {
        LineId { number }
    }

    pub closed spec fn number(self) -> u16 {
        self.number
    }

    /// The line's number as the controller counts it.
    pub fn index(&self) -> (number: u16)
        ensures
            number == self.number(),
    {
        self.number
    }
}

/// What an interrupt source is made of.
pub struct SourceState {
    /// The edge the line is armed for, once configured.
    pub trigger: Option<Edge>,
    /// Whether the source may raise its interrupt.
    pub enabled: bool,
    /// The hardware's latch: an event occurred and was not cleared.
    pub pending: bool,
}

impl SourceState {
    /// The state at reset.
    pub open spec fn reset() -> SourceState {
        SourceState { trigger: None, enabled: false, pending: false }
    }

    /// Whether the source latches `transition`.
    pub open spec fn latches(self, transition: Transition) -> bool {
        self.enabled && self.trigger is Some && self.trigger->0.covers(transition)
    }

    /// The source after the signal made `transition`. The latch is one bit:
    /// a transition that finds it set leaves it set.
    pub open spec fn after_transition(self, transition: Transition) -> SourceState {
        if self.latches(transition) {
            SourceState { pending: true, ..self }
        } else {
            self
        }
    }

    /// The source with its latch cleared.
    pub open spec fn cleared(self) -> SourceState {
        SourceState { pending: false, ..self }
    }

    /// Whether the source asks for its handler.
    pub open spec fn requests(self) -> bool {
        self.enabled && self.pending
    }
}

/// The handle of the peripheral that raises the interrupt. It has one
/// owner at a time and cannot be copied.
#[derive(Debug)]
pub struct InterruptSource {
    trigger: Option<Edge>,
    enabled: bool,
    pending: bool,
}

impl View for InterruptSource {
    type V = SourceState;

    closed spec fn view(&self) -> SourceState {
        SourceState { trigger: self.trigger, enabled: self.enabled, pending: self.pending }
    }
}

impl InterruptSource {
    /// A source at reset: no trigger, interrupt disabled, nothing pending.
    pub fn new() -> (source: InterruptSource)
        ensures
            source@ == SourceState::reset(),
    {
        InterruptSource { trigger: None, enabled: false, pending: false }
    }

    /// Declares which transition arms the line.
    pub fn configure_trigger(&mut self, edge: Edge)
        ensures
            final(self)@ == (SourceState { trigger: Some(edge), ..old(self)@ }),
    {
        self.trigger = Some(edge);
    }

    /// Lets the source raise its interrupt.
    pub fn enable_interrupt(&mut self)
        ensures
            final(self)@ == (SourceState { enabled: true, ..old(self)@ }),
    {
        self.enabled = true;
    }

    /// Clears the hardware's latch.
    pub fn clear_interrupt_pending(&mut self)
        ensures
            final(self)@ == old(self)@.cleared(),
    {
        self.pending = false;
    }

    /// Whether an event is latched.
    pub fn is_pending(&self) -> (pending: bool)
        ensures
            pending == self@.pending,
    {
        self.pending
    }

    /// Whether a trigger has been configured.
    pub fn has_trigger(&self) -> (configured: bool)
        ensures
            configured == (self@.trigger is Some),
    {
        self.trigger.is_some()
    }

    /// Whether the source asks for its handler.
    pub fn requests_service(&self) -> (requests: bool)
        ensures
            requests == self@.requests(),
    {
        self.enabled && self.pending
    }

    /// The hardware's side: the input signal made `transition`.
    pub fn signal(&mut self, transition: Transition)
        ensures
            final(self)@ == old(self)@.after_transition(transition),
    {
        if self.enabled {
            match self.trigger {
                Some(edge) => {
                    if edge.reacts_to(transition) {
                        self.pending = true;
                    }
                },
                None => {},
            }
        }
    }
}

/// Clears the latch of the source it borrows.
pub struct ClearPending;

impl Borrower<InterruptSource> for ClearPending {
    open spec fn leaves(&self, before: InterruptSource, after: InterruptSource) -> bool {
        after@ == before@.cleared()
    }

    fn lend(self, resource: &mut InterruptSource) {
        resource.clear_interrupt_pending();
    }
}

/// Delivers a transition of the input signal to the source it borrows.
pub struct Latch {
    pub transition: Transition,
}

impl Borrower<InterruptSource> for Latch {
    open spec fn leaves(&self, before: InterruptSource, after: InterruptSource) -> bool {
        after@ == before@.after_transition(self.transition)
    }

    fn lend(self, resource: &mut InterruptSource) {
        resource.signal(self.transition);
    }
}

/// What the controller knows of its line.
pub struct ControllerState {
    pub line: LineId,
    pub unmasked: bool,
}

impl ControllerState {
    /// What a request for `line` returns: any line but the controller's
    /// own is unknown to it.
    pub open spec fn answer(self, line: LineId) -> Result<(), Fault> {
        if line == self.line {
            Ok(())
        } else {
            Err(Fault::UnknownLine)
        }
    }

    /// The controller after a request to set the mask of `line`.
    pub open spec fn after_request(self, line: LineId, unmasked: bool) -> ControllerState {
        if line == self.line {
            ControllerState { unmasked, ..self }
        } else {
            self
        }
    }
}

/// Masks and unmasks the dispatch of one interrupt line.
#[derive(Debug)]
pub struct InterruptController {
    line: LineId,
    unmasked: bool,
}

impl View for InterruptController {
    type V = ControllerState;

    closed spec fn view(&self) -> ControllerState {
        ControllerState { line: self.line, unmasked: self.unmasked }
    }
}

impl InterruptController {
    /// A controller for `line`, which starts masked.
    pub fn new(line: LineId) -> (controller: InterruptController)
        ensures
            controller@ == (ControllerState { line, unmasked: false }),
    {
        InterruptController { line, unmasked: false }
    }

    /// Lets the line's handler be dispatched. Another line than the
    /// controller's own is refused.
    pub fn unmask(&mut self, line: LineId) -> (result: Result<(), Fault>)
        ensures
            result == old(self)@.answer(line),
            final(self)@ == old(self)@.after_request(line, true),
    {
        if line == self.line {
            self.unmasked = true;
            Ok(())
        } else {
            Err(Fault::UnknownLine)
        }
    }

    /// Keeps the line's handler from being dispatched. Another line than
    /// the controller's own is refused.
    pub fn mask(&mut self, line: LineId) -> (result: Result<(), Fault>)
        ensures
            result == old(self)@.answer(line),
            final(self)@ == old(self)@.after_request(line, false),
    {
        if line == self.line {
            self.unmasked = false;
            Ok(())
        } else {
            Err(Fault::UnknownLine)
        }
    }

    /// Whether the line's handler can be dispatched.
    pub fn is_unmasked(&self) -> (unmasked: bool)
        ensures
            unmasked == self@.unmasked,
    {
        self.unmasked
    }

    /// The line this controller manages.
    pub fn line(&self) -> (line: LineId)
        ensures
            line == self@.line,
    {
        self.line
    }
}

} // verus!
