//! Interrupt delivery: collaborator interfaces, the mode state machine and
//! the atomic status register.
//!
//! The two traits here are the interfaces this library assumes of its
//! collaborators.  A host-specific backend (outside this library) implements
//! them; the contracts on their methods state exactly what the manager in
//! [`manager`] relies on, and nothing in this library is proved beyond what
//! those contracts promise.

use std::sync::Arc;
use vstd::prelude::*;

pub mod manager;
pub mod status;

verus! {

use crate::Error;

/// The kind of interrupt source group to allocate.
#[derive(Clone, Copy, Debug, PartialEq, Eq)]
pub enum InterruptSourceType {
    /// A single legacy, level-triggered IRQ line.
    LegacyIrq,
    /// A range of message-signaled interrupt vectors.
    MsiIrq,
}

/// The address/data triple programmed into one MSI-family vector.
#[derive(Clone, Copy, Debug, PartialEq, Eq, Structural)]
pub struct MsiIrqSourceConfig {
    /// High 32 bits of the message address.
    pub high_addr: u32,
    /// Low 32 bits of the message address.
    pub low_addr: u32,
    /// Message data written to the address to signal the interrupt.
    pub data: u32,
}

impl Default for MsiIrqSourceConfig {
    /// The all-zero message, the initial value of every pending entry.
    fn default() -> (r: Self)
        ensures
            r == (MsiIrqSourceConfig { high_addr: 0, low_addr: 0, data: 0 }),
    {
        MsiIrqSourceConfig { high_addr: 0, low_addr: 0, data: 0 }
    }
}

/// Configuration payload for one interrupt source.
#[derive(Clone, Copy, Debug, PartialEq, Eq, Structural)]
pub enum InterruptSourceConfig {
    /// The fixed, parameterless configuration of a legacy line.
    LegacyIrq,
    /// An MSI-family vector's address/data triple.
    MsiIrq(MsiIrqSourceConfig),
}

/// An already-allocated, thread-safe handle to one contiguous group of
/// host-backed interrupt lines of a single mechanism.
///
/// Implementations live outside this library (they talk to the host
/// hypervisor) and must be safe for concurrent invocation once shared: after
/// activation the device's interrupt-signaling fast path calls them from
/// many threads without further synchronization.  All methods take `&self`;
/// the vector count is fixed at allocation, which is why `spec_len` is a
/// function of the handle alone.
pub trait InterruptSourceGroup: Sized {
    /// The number of vectors in this group, fixed at allocation.
    spec fn spec_len(&self) -> u32;

    /// The number of vectors in this group.
    fn len(&self) -> (r: u32)
        ensures
            r == self.spec_len(),
    ;

    /// Enable the group, programming one configuration entry per vector.
    fn enable(&self, configs: &[InterruptSourceConfig]) -> (r: Result<(), Error>)
        requires
            configs@.len() == self.spec_len(),
    ;

    /// Disable the group.
    fn disable(&self) -> (r: Result<(), Error>);

    /// Re-program the single vector `index` with `config` while the group
    /// stays enabled.
    fn update(&self, index: u32, config: &InterruptSourceConfig) -> (r: Result<(), Error>);
}

/// Factory that allocates interrupt source groups, called only while a
/// [`manager::DeviceInterruptManager`] is constructed.
pub trait InterruptManager {
    /// The group handle type this factory allocates.
    type Group: InterruptSourceGroup;

    /// Allocate a group of `count` interrupt sources of kind `ty` whose
    /// first source has host identifier `base`.  On success the returned
    /// group has exactly `count` vectors.
    fn create_group(&self, ty: InterruptSourceType, base: u32, count: u32) -> (r: Result<
        Arc<Self::Group>,
        Error,
    >)
        ensures
            r matches Ok(g) ==> (*g).spec_len() == count,
    ;
}

} // verus!
