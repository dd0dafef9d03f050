//! Synchronisation core for a single-core, run-to-completion control loop.
//!
//! A foreground task (the main loop) and one background task (an interrupt
//! handler) share a pending-event flag and the handle of the peripheral that
//! raises the interrupt. The handler may preempt the main loop at any point
//! where interrupts are enabled; the main loop never preempts the handler.
//!
//! Everything here is a sequential model: hardware events are calls, and the
//! handler runs at exactly the points where the hardware would dispatch it.

pub mod fault;
pub mod flag;
pub mod critical;
pub mod slot;
pub mod line;
pub mod pins;
pub mod system;
pub mod trace;
