//! Interrupt delivery configuration for an emulated device.
//!
//! A device may support several mutually exclusive interrupt delivery
//! mechanisms: a legacy level-triggered line, generic message-signaled
//! interrupts (MSI), PCI MSI and PCI MSI-X.  The manager in
//! [`interrupt::manager`] tracks which mechanism is selected, enforces the
//! legal transitions between mechanisms, assembles the per-mechanism
//! configuration payload, and hands out a shared, thread-safe group handle
//! that the device's fast path uses to signal interrupts without going
//! through the manager.  [`interrupt::status`] adds a small atomic bitfield
//! used to record pending interrupt causes.

use vstd::prelude::*;

pub mod interrupt;
pub mod resources;

verus! {

/// Errors returned by the interrupt manager and by its collaborators.
#[derive(Clone, Copy, Debug, PartialEq, Eq, Structural)]
pub enum Error {
    /// The operation is illegal in the current stage or mode: wrong
    /// activation state, a disallowed mode transition, an out-of-range
    /// vector index, or a configuration entry of the wrong variant.
    InvalidState,
    /// A failure reported by an underlying collaborator (the group factory
    /// or a group operation), carried as a raw OS error code.  The manager
    /// propagates such failures unchanged and never constructs them itself.
    Device(i32),
}

} // verus!
