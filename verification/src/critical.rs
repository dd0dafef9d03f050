//! The critical section: a scope in which the interrupt cannot be
//! dispatched.

use vstd::prelude::*;

verus! {

/// Proof of entry into a critical section. It remembers whether interrupts
/// were enabled at entry, and is used up by the matching exit.
#[derive(Debug)]
pub struct Token {
    restore: bool,
}

impl Token {
    /// Whether interrupts were enabled when the section was entered.
    pub closed spec fn restores(&self) -> bool {
        self.restore
    }
}

/// The core's global interrupt enable, as seen through critical sections.
/// Its view is `true` while interrupts can be dispatched.
#[derive(Debug)]
pub struct CriticalSection {
    enabled: bool,
}

impl View for CriticalSection {
    type V = bool;

    closed spec fn view(&self) -> bool {
        self.enabled
    }
}

impl CriticalSection {
    /// The state at reset: interrupts can be dispatched.
    pub fn new() -> (cs: CriticalSection)
        ensures
            cs@,
    {
        CriticalSection { enabled: true }
    }

    /// Enters a section: interrupts are disabled, and the token records
    /// whether they were enabled before.
    pub fn enter(&mut self) -> (token: Token)
        ensures
            !final(self)@,
            token.restores() == old(self)@,
    {
        let token = Token { restore: self.enabled };
        self.enabled = false;
        token
    }

    /// Leaves a section: the enable state recorded at entry comes back. An
    /// inner section of a nest therefore leaves interrupts disabled.
    pub fn exit(&mut self, token: Token)
        ensures
            final(self)@ == token.restores(),
    {
        self.enabled = token.restore;
    }

    /// Whether interrupts can be dispatched now.
    pub fn interrupts_enabled(&self) -> (enabled: bool)
        ensures
            enabled == self@,
    {
        self.enabled
    }
}

} // verus!
