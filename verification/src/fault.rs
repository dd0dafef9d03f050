//! Faults of initialisation. None of them is recoverable on the target: the
//! caller is expected to halt.

use vstd::prelude::*;

verus! {

/// What went wrong while the system was being set up.
#[derive(Clone, Copy, Debug, PartialEq, Eq, Structural)]
pub enum Fault {
    /// The peripheral set was taken before.
    PeripheralsTaken,
    /// A resource was installed into a slot that already holds one.
    AlreadyInstalled,
    /// The interrupt line was to be unmasked while the slot was empty.
    NotInstalled,
    /// The interrupt line was to be unmasked before a trigger was configured.
    TriggerNotConfigured,
    /// The line identifier is not the one the controller manages.
    UnknownLine,
}

} // verus!
