//! The ownership-transfer slot: the foreground hands a peripheral handle
//! over once, and the background borrows it while it handles an interrupt.

use vstd::prelude::*;
use crate::fault::Fault;

verus! {

/// Something to be done with a borrowed resource.
pub trait Borrower<R> {
    /// Whether `after` is what this borrower leaves of `before`. A borrower
    /// that does not say promises nothing.
    open spec fn leaves(&self, before: R, after: R) -> bool {
        true
    }

    /// Works on the resource for the time of the loan.
    fn lend(self, resource: &mut R)
        ensures
            self.leaves(*old(resource), *final(resource)),
    ;
}

/// The slot that `install` leaves, as a function of the slot it found.
pub open spec fn install_target<R>(slot: Option<R>, resource: R) -> Option<R> {
    match slot {
        None => Some(resource),
        Some(_) => slot,
    }
}

/// What `install` returns, as a function of the slot it found.
pub open spec fn install_result<R>(slot: Option<R>, resource: R) -> Result<(), Fault> {
    match slot {
        None => Ok(()),
        Some(_) => Err(Fault::AlreadyInstalled),
    }
}

/// Holds at most one resource. It starts empty, is filled once, and is
/// never emptied or refilled.
pub struct ResourceSlot<R> {
    held: Option<R>,
}

impl<R> View for ResourceSlot<R> {
    type V = Option<R>;

    closed spec fn view(&self) -> Option<R> {
        self.held
    }
}

impl<R> ResourceSlot<R> {
    /// An empty slot.
    pub fn new() -> (slot: ResourceSlot<R>)
        ensures
            slot@ is None,
    {
        ResourceSlot { held: None }
    }

    /// Whether a resource has been handed over.
    pub fn is_installed(&self) -> (installed: bool)
        ensures
            installed == (self@ is Some),
    {
        self.held.is_some()
    }

    /// Hands the resource over. A slot that already holds one keeps it and
    /// reports the fault.
    pub fn install(&mut self, resource: R) -> (result: Result<(), Fault>)
        ensures
            result == install_result(old(self)@, resource),
            final(self)@ == install_target(old(self)@, resource),
    {
        if self.held.is_some() {
            Err(Fault::AlreadyInstalled)
        } else {
            self.held = Some(resource);
            Ok(())
        }
    }

    /// Lends the resource to `borrower` if there is one; on an empty slot
    /// nothing happens.
    pub fn with_borrowed<B: Borrower<R>>(&mut self, borrower: B)
        ensures
            old(self)@ is None ==> final(self)@ is None,
            old(self)@ is Some ==> final(self)@ is Some && borrower.leaves(
                old(self)@->0,
                final(self)@->0,
            ),
    {
        match &mut self.held {
            Some(resource) => {
                borrower.lend(resource);
            },
            None => {},
        }
    }

    /// A look at the resource, if there is one.
    pub fn peek(&self) -> (held: Option<&R>)
        ensures
            held is Some == self@ is Some,
            held is Some ==> *held->0 == self@->0,
    {
        self.held.as_ref()
    }
}

/// A second hand-over is a fault and does not replace the first resource.
pub proof fn lemma_second_install_is_refused<R>(first: R, second: R)
    ensures
        install_result(install_target(None::<R>, first), second) is Err,
        install_target(install_target(None::<R>, first), second) == Some(first),
{
}

} // verus!
