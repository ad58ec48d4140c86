//! The device interrupt manager: a two-stage mode state machine.
//!
//! A [`DeviceInterruptManager`] owns one interrupt source group per
//! mechanism the device was assigned, tracks the currently selected
//! mechanism, validates mode switches, assembles the per-mechanism
//! configuration payload handed to a group's `enable`/`update`, and hands
//! out the shared group handle once activated.
//!
//! The manager has two stages.  During the configuration stage the device
//! model may switch the working mode and set pending MSI parameters freely;
//! [`DeviceInterruptManager::enable`] freezes the mode and enters the
//! runtime stage, after which only [`DeviceInterruptManager::update`] may
//! re-program single vectors and [`DeviceInterruptManager::reset`] returns
//! to the configuration stage.  The manager itself must be externally
//! serialized; the group handle it yields through
//! [`DeviceInterruptManager::get_group`] is the thread-safe fast path.

use std::sync::Arc;
use vstd::prelude::*;

verus! {

use crate::Error;
use crate::interrupt::{
    InterruptManager, InterruptSourceConfig, InterruptSourceGroup, InterruptSourceType,
    MsiIrqSourceConfig,
};
use crate::resources::{DeviceResources, nat_max};
use vstd::pervasive::VecAdditionalExecFns;

/// Device interrupt working modes.
#[derive(Clone, Copy, Debug, PartialEq, Eq, Structural)]
pub enum DeviceInterruptMode {
    /// No mechanism is selected.
    Disabled,
    /// The legacy level-triggered IRQ line.
    LegacyIrq,
    /// Generic message-signaled interrupts.
    GenericMsiIrq,
    /// PCI message-signaled interrupts.
    PciMsiIrq,
    /// PCI MSI-X interrupts.
    PciMsixIrq,
}

/// True of the three MSI-family modes, whose vectors carry an address/data
/// triple and may be re-programmed one by one.
pub open spec fn is_msi_mode(m: DeviceInterruptMode) -> bool {
    ||| m == DeviceInterruptMode::GenericMsiIrq
    ||| m == DeviceInterruptMode::PciMsiIrq
    ||| m == DeviceInterruptMode::PciMsixIrq
}

/// The mode-switch rule: a switch from `from` to `to` is legal exactly when
/// the two are equal, either end is `Disabled`, or either end is
/// `LegacyIrq`.  Switching directly between two different MSI-family modes
/// is illegal; the caller must route through `LegacyIrq` or `Disabled`, so
/// that only one MSI-family pending configuration is ever live.
pub open spec fn legal_transition(from: DeviceInterruptMode, to: DeviceInterruptMode) -> bool {
    ||| to == from
    ||| from == DeviceInterruptMode::Disabled
    ||| to == DeviceInterruptMode::Disabled
    ||| from == DeviceInterruptMode::LegacyIrq
    ||| to == DeviceInterruptMode::LegacyIrq
}

/// Two occupied slots never coincide.
spec fn slots_differ(a: Option<usize>, b: Option<usize>) -> bool {
    a is Some && b is Some ==> a != b
}

/// The all-zero MSI entry every pending slot starts from.
pub open spec fn default_msi_entry() -> InterruptSourceConfig {
    InterruptSourceConfig::MsiIrq(MsiIrqSourceConfig { high_addr: 0, low_addr: 0, data: 0 })
}

/// Fixed mapping from each mode to its slot in the manager's group table,
/// or `None` where the device was not assigned that mechanism's resources.
/// Computed once at construction and never mutated afterwards.
struct ModeSlots {
    legacy: Option<usize>,
    generic_msi: Option<usize>,
    pci_msi: Option<usize>,
    pci_msix: Option<usize>,
}

impl ModeSlots {
    /// The slot assigned to mode `m`; `Disabled` has no slot.
    spec fn slot(&self, m: DeviceInterruptMode) -> Option<usize> {
        match m {
            DeviceInterruptMode::Disabled => None,
            DeviceInterruptMode::LegacyIrq => self.legacy,
            DeviceInterruptMode::GenericMsiIrq => self.generic_msi,
            DeviceInterruptMode::PciMsiIrq => self.pci_msi,
            DeviceInterruptMode::PciMsixIrq => self.pci_msix,
        }
    }

    /// Look the slot of `m` up.
    fn get(&self, m: DeviceInterruptMode) -> (r: Option<usize>)
        ensures
            r == self.slot(m),
    {
        match m {
            DeviceInterruptMode::Disabled => None,
            DeviceInterruptMode::LegacyIrq => self.legacy,
            DeviceInterruptMode::GenericMsiIrq => self.generic_msi,
            DeviceInterruptMode::PciMsiIrq => self.pci_msi,
            DeviceInterruptMode::PciMsixIrq => self.pci_msix,
        }
    }
}

/// The interrupt mode state machine for one device.
///
/// Owned by a single device model and not safe for concurrent mutation; the
/// group handle it yields through [`DeviceInterruptManager::get_group`] is
/// the concurrent fast path.
pub struct DeviceInterruptManager<T: InterruptManager> {
    mode: DeviceInterruptMode,
    activated: bool,
    current_idx: Option<usize>,
    mode2idx: ModeSlots,
    intr_mgr: T,
    intr_groups: Vec<Arc<T::Group>>,
    msi_config: Vec<InterruptSourceConfig>,
}

impl<T: InterruptManager> DeviceInterruptManager<T> {
    /// The currently selected working mode.
    pub closed spec fn spec_working_mode(&self) -> DeviceInterruptMode {
        self.mode
    }

    /// Whether the manager is in the runtime stage.
    pub closed spec fn is_activated(&self) -> bool {
        self.activated
    }

    /// Whether the device was assigned mode `m`'s resources.
    pub closed spec fn supports(&self, m: DeviceInterruptMode) -> bool {
        self.mode2idx.slot(m) is Some
    }

    /// How many interrupt source groups the device owns.
    pub closed spec fn group_count(&self) -> nat {
        self.intr_groups@.len()
    }

    /// The vector count of mode `m`'s group; zero where `m` has no group.
    pub closed spec fn group_len(&self, m: DeviceInterruptMode) -> u32 {
        match self.mode2idx.slot(m) {
            Some(i) => (*self.intr_groups@[i as int]).spec_len(),
            None => 0,
        }
    }

    /// The pending per-vector MSI configuration.
    pub closed spec fn msi_configs(&self) -> Seq<InterruptSourceConfig> {
        self.msi_config@
    }

    /// The length of the pending MSI configuration.
    pub open spec fn msi_count(&self) -> nat {
        self.msi_configs().len()
    }

    /// The group of the currently selected mode.
    pub closed spec fn current_group(&self) -> T::Group {
        match self.current_idx {
            Some(i) => *self.intr_groups@[i as int],
            None => arbitrary(),
        }
    }

    /// No two supported modes share a slot in the group table: the
    /// mode-to-slot mapping is injective on the modes the device supports,
    /// so every supported mechanism has a group of its own.
    pub closed spec fn distinct_slots(&self) -> bool {
        &&& slots_differ(self.mode2idx.legacy, self.mode2idx.generic_msi)
        &&& slots_differ(self.mode2idx.legacy, self.mode2idx.pci_msi)
        &&& slots_differ(self.mode2idx.legacy, self.mode2idx.pci_msix)
        &&& slots_differ(self.mode2idx.generic_msi, self.mode2idx.pci_msi)
        &&& slots_differ(self.mode2idx.generic_msi, self.mode2idx.pci_msix)
        &&& slots_differ(self.mode2idx.pci_msi, self.mode2idx.pci_msix)
    }

    /// Mode `m`'s slot is consistent with the group table: in range, a
    /// legacy group holds exactly one line, and no MSI-family group is
    /// larger than the pending configuration.
    spec fn group_ok(&self, m: DeviceInterruptMode) -> bool {
        match self.mode2idx.slot(m) {
            Some(i) => {
                &&& i < self.intr_groups@.len()
                &&& if m == DeviceInterruptMode::LegacyIrq {
                    (*self.intr_groups@[i as int]).spec_len() == 1
                } else {
                    (*self.intr_groups@[i as int]).spec_len() <= self.msi_config@.len()
                }
            },
            None => true,
        }
    }

    /// The manager's invariant.  Every public operation requires and
    /// preserves it:
    /// - each mapped slot indexes a group of the right shape,
    /// - no two supported modes share a slot,
    /// - a selected mode is supported and `current_idx` is its slot,
    /// - the runtime stage always has a mode selected,
    /// - every pending configuration entry is an MSI entry, and
    /// - the pending configuration is addressable by a `u32` vector index.
    pub closed spec fn wf(&self) -> bool {
        &&& self.distinct_slots()
        &&& self.group_ok(DeviceInterruptMode::LegacyIrq)
        &&& self.group_ok(DeviceInterruptMode::GenericMsiIrq)
        &&& self.group_ok(DeviceInterruptMode::PciMsiIrq)
        &&& self.group_ok(DeviceInterruptMode::PciMsixIrq)
        &&& self.mode != DeviceInterruptMode::Disabled ==> {
            &&& self.supports(self.mode)
            &&& self.current_idx == self.mode2idx.slot(self.mode)
        }
        &&& self.activated ==> self.mode != DeviceInterruptMode::Disabled
        &&& forall|j: int|
            0 <= j < self.msi_config@.len() ==> (#[trigger] self.msi_config@[j]) is MsiIrq
        &&& self.msi_config@.len() <= u32::MAX
    }

    /// The mode [`Self::enable`] activates: the selected mode, or
    /// `LegacyIrq` where none was selected yet.
    pub open spec fn effective_mode(&self) -> DeviceInterruptMode {
        if self.spec_working_mode() == DeviceInterruptMode::Disabled {
            DeviceInterruptMode::LegacyIrq
        } else {
            self.spec_working_mode()
        }
    }

    /// Whether [`Self::get_group`] hands a fast-path handle out: only in
    /// the runtime stage, with a mode selected.
    pub open spec fn yields_group(&self) -> bool {
        self.is_activated() && self.spec_working_mode() != DeviceInterruptMode::Disabled
    }

    /// Mode `m`'s capabilities agree between `pre` and `post`: whether it
    /// is supported, its vector count and its group.
    pub open spec fn same_device_at(pre: Self, post: Self, m: DeviceInterruptMode) -> bool {
        &&& post.supports(m) == pre.supports(m)
        &&& post.group_len(m) == pre.group_len(m)
        &&& post.group_at(m) == pre.group_at(m)
    }

    /// The device's fixed capabilities agree between `pre` and `post`:
    /// which modes are supported, each mode's vector count and group, and
    /// the number of groups.  Every operation after construction preserves
    /// this.
    pub open spec fn same_device(pre: Self, post: Self) -> bool {
        &&& post.group_count() == pre.group_count()
        &&& Self::same_device_at(pre, post, DeviceInterruptMode::LegacyIrq)
        &&& Self::same_device_at(pre, post, DeviceInterruptMode::GenericMsiIrq)
        &&& Self::same_device_at(pre, post, DeviceInterruptMode::PciMsiIrq)
        &&& Self::same_device_at(pre, post, DeviceInterruptMode::PciMsixIrq)
    }

    /// What a successful [`Self::enable`] establishes: the runtime stage is
    /// entered with the effective mode selected, and the pending MSI
    /// configuration is carried over untouched.
    pub open spec fn enable_ok(pre: Self, post: Self) -> bool {
        &&& post.is_activated()
        &&& post.spec_working_mode() == pre.effective_mode()
        &&& post.msi_configs() == pre.msi_configs()
    }

    /// What a successful [`Self::reset`] establishes: back in the
    /// configuration stage with no mode selected, the pending MSI
    /// configuration kept.
    pub open spec fn reset_ok(pre: Self, post: Self) -> bool {
        &&& !post.is_activated()
        &&& post.spec_working_mode() == DeviceInterruptMode::Disabled
        &&& post.msi_configs() == pre.msi_configs()
    }

    /// The payload handed to a group's `enable`: the fixed singleton for
    /// the legacy line, or the prefix of the pending MSI configuration that
    /// covers mode `m`'s vectors.
    pub open spec fn spec_configs(&self, m: DeviceInterruptMode) -> Seq<InterruptSourceConfig> {
        if m == DeviceInterruptMode::LegacyIrq {
            seq![InterruptSourceConfig::LegacyIrq]
        } else {
            self.msi_configs().subrange(0, self.group_len(m) as int)
        }
    }

    /// Whether a switch to `target` will go through: only during the
    /// configuration stage, and only along a legal transition.
    pub open spec fn switch_allowed(&self, target: DeviceInterruptMode) -> bool {
        &&& !self.is_activated()
        &&& legal_transition(self.spec_working_mode(), target)
    }

    /// Whether a switch to `target` selects a group: it goes through and
    /// moves the manager to a different, non-`Disabled` mode.
    pub open spec fn switch_selects_group(&self, target: DeviceInterruptMode) -> bool {
        &&& self.switch_allowed(target)
        &&& target != self.spec_working_mode()
        &&& target != DeviceInterruptMode::Disabled
    }

    /// Check whether the interrupt manager has been activated, that is,
    /// whether it is in the runtime stage.
    pub fn is_enabled(&self) -> (r: bool)
        ensures
            r == self.is_activated(),
    {
        self.activated
    }

    /// Get the current interrupt working mode.
    pub fn get_working_mode(&mut self) -> (r: DeviceInterruptMode)
        ensures
            *final(self) == *old(self),
            r == old(self).spec_working_mode(),
    {
        self.mode
    }

    /// Switch the interrupt working mode.
    ///
    /// Mode is immutable once the runtime stage is entered, so every call
    /// fails with [`Error::InvalidState`] while the manager is activated.
    /// During the configuration stage, switching to the current mode is an
    /// idempotent success, and any other pair of modes must satisfy
    /// [`legal_transition`]; a legal switch to a non-`Disabled` target
    /// resets that target's pending configuration (MSI-family targets only;
    /// the legacy configuration is a fixed singleton) and records the
    /// target's group as current.
    ///
    /// Selecting a mode whose resources the device was never assigned
    /// would leave the manager without a group to activate, a
    /// programming-logic fault that the precondition rules out rather than
    /// downgrading it to a recoverable error.
    pub fn set_working_mode(&mut self, mode: DeviceInterruptMode) -> (r: Result<(), Error>)
        requires
            old(self).wf(),
            old(self).switch_selects_group(mode) ==> old(self).supports(mode),
        ensures
            final(self).wf(),
            r is Ok <==> old(self).switch_allowed(mode),
            r is Err ==> r == Err::<(), Error>(Error::InvalidState) && *final(self) == *old(self),
            r is Ok ==> final(self).spec_working_mode() == mode,
            final(self).is_activated() == old(self).is_activated(),
            Self::same_device(*old(self), *final(self)),
            final(self).msi_count() == old(self).msi_count(),
            old(self).switch_selects_group(mode) && is_msi_mode(mode) ==> forall|j: int|
                0 <= j < final(self).msi_count()
                    ==> (#[trigger] final(self).msi_configs()[j]) == default_msi_entry(),
            r is Ok && !old(self).switch_selects_group(mode) ==> final(self).msi_configs()
                == old(self).msi_configs(),
            old(self).switch_selects_group(mode) && !is_msi_mode(mode)
                ==> final(self).msi_configs() == old(self).msi_configs(),
            old(self).switch_selects_group(mode) ==> final(self).current_group()
                == old(self).group_at(mode),
            r is Ok && !old(self).switch_selects_group(mode) ==> final(self).current_group()
                == old(self).current_group(),
    {
        // Can't switch mode again once enabled.
        if self.activated {
            return Err(Error::InvalidState);
        }

        if mode != self.mode {
            // Supported state transitions:
            // - any mode -> Disabled
            // - Disabled -> any mode
            // - a non-legacy mode -> LegacyIrq
            // - LegacyIrq -> a non-legacy mode
            if self.mode != DeviceInterruptMode::Disabled
                && self.mode != DeviceInterruptMode::LegacyIrq
                && mode != DeviceInterruptMode::LegacyIrq
                && mode != DeviceInterruptMode::Disabled {
                return Err(Error::InvalidState);
            }

            // Then enter the new mode.
            if mode != DeviceInterruptMode::Disabled {
                self.reset_configs(mode);
                self.current_idx = self.mode2idx.get(mode);
            }
            self.mode = mode;
        }

        Ok(())
    }

    /// The group serving mode `m`; meaningful only where `m` is supported.
    pub closed spec fn group_at(&self, m: DeviceInterruptMode) -> T::Group {
        match self.mode2idx.slot(m) {
            Some(i) => *self.intr_groups@[i as int],
            None => arbitrary(),
        }
    }

    /// Create an interrupt manager for a device.
    ///
    /// For each mechanism the device was assigned, one group of the
    /// matching kind and size is requested from `intr_mgr` and recorded in
    /// the mode-to-slot mapping, and for an MSI-family mechanism the
    /// pending configuration grows to at least the group's vector count,
    /// filled with all-zero entries.  The new manager is in the
    /// configuration stage with no mode selected.  A factory failure aborts
    /// construction and is propagated unchanged.
    ///
    /// # Arguments
    /// * `intr_mgr`: underlying interrupt manager to allocate interrupt groups.
    /// * `resources`: resources assigned to the device, including assigned
    ///   interrupt resources.
    pub fn new(intr_mgr: T, resources: &DeviceResources) -> (r: Result<Self, Error>)
        ensures
            resources.spec_legacy_irq() is None && resources.spec_generic_msi_irqs() is None
                && resources.spec_pci_msi_irqs() is None && resources.spec_pci_msix_irqs() is None
                ==> r is Ok,
            r matches Ok(m) ==> {
                &&& m.wf()
                &&& m.distinct_slots()
                &&& !m.is_activated()
                &&& m.spec_working_mode() == DeviceInterruptMode::Disabled
                &&& m.supports(DeviceInterruptMode::LegacyIrq) == (resources.spec_legacy_irq()
                    is Some)
                &&& m.supports(DeviceInterruptMode::GenericMsiIrq) == (
                resources.spec_generic_msi_irqs() is Some)
                &&& m.supports(DeviceInterruptMode::PciMsiIrq) == (resources.spec_pci_msi_irqs()
                    is Some)
                &&& m.supports(DeviceInterruptMode::PciMsixIrq) == (resources.spec_pci_msix_irqs()
                    is Some)
                &&& resources.spec_legacy_irq() is Some ==> m.group_len(
                    DeviceInterruptMode::LegacyIrq,
                ) == 1
                &&& resources.spec_generic_msi_irqs() matches Some(rg) ==> m.group_len(
                    DeviceInterruptMode::GenericMsiIrq,
                ) == rg.1
                &&& resources.spec_pci_msi_irqs() matches Some(rg) ==> m.group_len(
                    DeviceInterruptMode::PciMsiIrq,
                ) == rg.1
                &&& resources.spec_pci_msix_irqs() matches Some(rg) ==> m.group_len(
                    DeviceInterruptMode::PciMsixIrq,
                ) == rg.1
                &&& m.group_count() == (if resources.spec_legacy_irq() is Some {
                    1nat
                } else {
                    0nat
                }) + (if resources.spec_generic_msi_irqs() is Some {
                    1nat
                } else {
                    0nat
                }) + (if resources.spec_pci_msi_irqs() is Some {
                    1nat
                } else {
                    0nat
                }) + (if resources.spec_pci_msix_irqs() is Some {
                    1nat
                } else {
                    0nat
                })
                &&& m.msi_count() == resources.msi_space()
                &&& forall|j: int|
                    0 <= j < m.msi_count() ==> (#[trigger] m.msi_configs()[j])
                        == default_msi_entry()
            },
    {
        let mut mgr = DeviceInterruptManager {
            mode: DeviceInterruptMode::Disabled,
            activated: false,
            current_idx: None,
            mode2idx: ModeSlots { legacy: None, generic_msi: None, pci_msi: None, pci_msix: None },
            intr_mgr,
            intr_groups: Vec::new(),
            msi_config: Vec::new(),
        };

        match resources.get_legacy_irq() {
            Some(irq) => {
                let group = match mgr.intr_mgr.create_group(
                    InterruptSourceType::LegacyIrq,
                    irq,
                    1,
                ) {
                    Ok(g) => g,
                    Err(e) => { return Err(e); },
                };
                mgr.mode2idx.legacy = Some(mgr.intr_groups.len());
                mgr.intr_groups.push(group);
            },
            None => {},
        }

        match resources.get_generic_msi_irqs() {
            Some(msi) => {
                let group = match mgr.intr_mgr.create_group(
                    InterruptSourceType::MsiIrq,
                    msi.0,
                    msi.1,
                ) {
                    Ok(g) => g,
                    Err(e) => { return Err(e); },
                };
                mgr.resize_msi_config_space(group.len());
                mgr.mode2idx.generic_msi = Some(mgr.intr_groups.len());
                mgr.intr_groups.push(group);
            },
            None => {},
        }

        match resources.get_pci_msi_irqs() {
            Some(msi) => {
                let group = match mgr.intr_mgr.create_group(
                    InterruptSourceType::MsiIrq,
                    msi.0,
                    msi.1,
                ) {
                    Ok(g) => g,
                    Err(e) => { return Err(e); },
                };
                mgr.resize_msi_config_space(group.len());
                mgr.mode2idx.pci_msi = Some(mgr.intr_groups.len());
                mgr.intr_groups.push(group);
            },
            None => {},
        }

        match resources.get_pci_msix_irqs() {
            Some(msi) => {
                let group = match mgr.intr_mgr.create_group(
                    InterruptSourceType::MsiIrq,
                    msi.0,
                    msi.1,
                ) {
                    Ok(g) => g,
                    Err(e) => { return Err(e); },
                };
                mgr.resize_msi_config_space(group.len());
                mgr.mode2idx.pci_msix = Some(mgr.intr_groups.len());
                mgr.intr_groups.push(group);
            },
            None => {},
        }

        Ok(mgr)
    }

    /// Switch the interrupt manager from the configuration stage into the
    /// runtime stage.
    ///
    /// A no-op success when already activated.  If no mode was selected
    /// yet, legacy mode is selected by default where the device supports
    /// it, and otherwise the call fails with [`Error::InvalidState`]: a
    /// device with no legacy support and no explicitly chosen mode cannot
    /// be enabled.  The now-fixed mode's payload is assembled and handed to
    /// its group's `enable`; only on that call's success is the runtime
    /// stage entered, and a group-level failure is propagated unchanged
    /// with the manager left deactivated.
    pub fn enable(&mut self) -> (r: Result<(), Error>)
        requires
            old(self).wf(),
        ensures
            final(self).wf(),
            Self::same_device(*old(self), *final(self)),
            old(self).is_activated() ==> r is Ok && *final(self) == *old(self),
            !old(self).is_activated() && old(self).spec_working_mode()
                == DeviceInterruptMode::Disabled && !old(self).supports(
                DeviceInterruptMode::LegacyIrq,
            ) ==> r == Err::<(), Error>(Error::InvalidState) && *final(self) == *old(self),
            !old(self).is_activated() && (old(self).spec_working_mode()
                != DeviceInterruptMode::Disabled || old(self).supports(
                DeviceInterruptMode::LegacyIrq,
            )) ==> {
                &&& final(self).spec_working_mode() == old(self).effective_mode()
                &&& (r is Ok <==> final(self).is_activated())
                &&& final(self).msi_configs() == old(self).msi_configs()
                &&& final(self).current_group() == old(self).group_at(old(self).effective_mode())
            },
            r is Ok && !old(self).is_activated() ==> Self::enable_ok(*old(self), *final(self)),
    {
        if self.activated {
            return Ok(());
        }

        // Enter legacy mode by default if legacy mode is supported.
        let legacy_slot = self.mode2idx.get(DeviceInterruptMode::LegacyIrq);
        if self.mode == DeviceInterruptMode::Disabled && legacy_slot.is_some() {
            match self.set_working_mode(DeviceInterruptMode::LegacyIrq) {
                Ok(()) => {},
                Err(e) => { return Err(e); },
            }
        }
        if self.mode == DeviceInterruptMode::Disabled {
            return Err(Error::InvalidState);
        }

        let idx = match self.current_idx {
            Some(i) => i,
            None => { return Err(Error::InvalidState); },
        };
        let configs = self.get_configs(self.mode);
        let enabled = self.intr_groups[idx].enable(configs.as_slice());
        match enabled {
            Ok(()) => {
                self.activated = true;
                Ok(())
            },
            Err(e) => Err(e),
        }
    }

    /// Switch the interrupt manager from the runtime stage back into the
    /// initial configuration stage.
    ///
    /// If activated, the current group is disabled first; a group-level
    /// failure is propagated unchanged and leaves the manager exactly as it
    /// was, still activated.  On success (or when not activated) the mode
    /// returns to `Disabled` and the manager is deactivated.  The manager
    /// does not track the handles it gave out through [`Self::get_group`];
    /// the caller must ensure no other holder still uses one before calling
    /// this.
    pub fn reset(&mut self) -> (r: Result<(), Error>)
        requires
            old(self).wf(),
        ensures
            final(self).wf(),
            Self::same_device(*old(self), *final(self)),
            final(self).msi_configs() == old(self).msi_configs(),
            !old(self).is_activated() ==> r is Ok,
            r is Ok ==> Self::reset_ok(*old(self), *final(self)),
            r is Err ==> old(self).is_activated() && *final(self) == *old(self),
    {
        if self.activated {
            let idx = match self.current_idx {
                Some(i) => i,
                None => { return Err(Error::InvalidState); },
            };
            let disabled = self.intr_groups[idx].disable();
            match disabled {
                Ok(()) => { self.activated = false; },
                Err(e) => { return Err(e); },
            }
        }
        match self.set_working_mode(DeviceInterruptMode::Disabled) {
            Ok(()) => Ok(()),
            Err(e) => Err(e),
        }
    }

    /// Get the underlying interrupt source group handle, so the device
    /// driver can trigger and acknowledge interrupts concurrently through
    /// it without going through the manager.
    ///
    /// Returns a handle only in the runtime stage with a mode selected;
    /// this is the single hand-off point of the fast path for the current
    /// activation period.
    pub fn get_group(&self) -> (r: Option<Arc<T::Group>>)
        requires
            self.wf(),
        ensures
            r is Some <==> self.yields_group(),
            r matches Some(g) ==> *g == self.current_group(),
    {
        if !self.activated || self.mode == DeviceInterruptMode::Disabled {
            None
        } else {
            let idx = match self.current_idx {
                Some(i) => i,
                None => { return None; },
            };
            Some(clone_arc(&self.intr_groups[idx]))
        }
    }

    /// Reconfigure the single vector `index` of the current working mode
    /// at the runtime stage.
    ///
    /// Only legal while activated and in an MSI-family mode — the legacy
    /// line has no reconfigurable vectors — and only for an `index` within
    /// both the active group's vector count and the pending configuration;
    /// every other call fails with [`Error::InvalidState`].  On success the
    /// pending entry at `index` is pushed down to the group's `update`,
    /// re-programming the live route, and a group-level failure is
    /// propagated unchanged.
    pub fn update(&mut self, index: u32) -> (r: Result<(), Error>)
        requires
            old(self).wf(),
        ensures
            *final(self) == *old(self),
            !old(self).is_activated() ==> r == Err::<(), Error>(Error::InvalidState),
            old(self).is_activated() && !is_msi_mode(old(self).spec_working_mode()) ==> r
                == Err::<(), Error>(Error::InvalidState),
            old(self).is_activated() && is_msi_mode(old(self).spec_working_mode()) && (index >= old(
                self,
            ).group_len(old(self).spec_working_mode()) || index as nat >= old(self).msi_count())
                ==> r == Err::<(), Error>(Error::InvalidState),
            r is Ok ==> {
                &&& old(self).is_activated()
                &&& is_msi_mode(old(self).spec_working_mode())
                &&& index < old(self).group_len(old(self).spec_working_mode())
                &&& (index as nat) < old(self).msi_count()
            },
    {
        if !self.activated {
            return Err(Error::InvalidState);
        }

        match self.mode {
            DeviceInterruptMode::GenericMsiIrq
            | DeviceInterruptMode::PciMsiIrq
            | DeviceInterruptMode::PciMsixIrq => {
                let idx = match self.current_idx {
                    Some(i) => i,
                    None => { return Err(Error::InvalidState); },
                };
                let group_len = self.intr_groups[idx].len();
                if index >= group_len || (index as usize) >= self.msi_config.len() {
                    return Err(Error::InvalidState);
                }
                let updated = self.intr_groups[idx].update(
                    index,
                    &self.msi_config[index as usize],
                );
                match updated {
                    Ok(()) => Ok(()),
                    Err(e) => Err(e),
                }
            },
            _ => Err(Error::InvalidState),
        }
    }

    /// Set the high address word of the pending MSI message at `index`.
    ///
    /// Mutates only the pending configuration; the new value takes effect
    /// on the next [`Self::enable`] (whole group) or [`Self::update`]
    /// (single vector).  Fails with [`Error::InvalidState`] exactly when
    /// `index` is outside the pending configuration.
    pub fn set_msi_high_address(&mut self, index: u32, data: u32) -> (r: Result<(), Error>)
        requires
            old(self).wf(),
        ensures
            final(self).wf(),
            r is Ok <==> (index as nat) < old(self).msi_count(),
            r is Ok ==> old(self).msi_configs()[index as int] is MsiIrq,
            r is Err ==> r == Err::<(), Error>(Error::InvalidState) && *final(self) == *old(self),
            r is Ok ==> final(self).msi_configs() == old(self).msi_configs().update(
                index as int,
                with_high_addr(old(self).msi_configs()[index as int], data),
            ),
            r is Ok ==> Self::control_unchanged(*old(self), *final(self)),
    {
        if (index as usize) < self.msi_config.len() {
            let cur = self.msi_config[index as usize];
            match cur {
                InterruptSourceConfig::MsiIrq(msi) => {
                    self.msi_config.set(
                        index as usize,
                        InterruptSourceConfig::MsiIrq(
                            MsiIrqSourceConfig {
                                high_addr: data,
                                low_addr: msi.low_addr,
                                data: msi.data,
                            },
                        ),
                    );
                    return Ok(());
                },
                InterruptSourceConfig::LegacyIrq => {},
            }
        }
        Err(Error::InvalidState)
    }

    /// Set the low address word of the pending MSI message at `index`.
    ///
    /// Mutates only the pending configuration; the new value takes effect
    /// on the next [`Self::enable`] (whole group) or [`Self::update`]
    /// (single vector).  Fails with [`Error::InvalidState`] exactly when
    /// `index` is outside the pending configuration.
    pub fn set_msi_low_address(&mut self, index: u32, data: u32) -> (r: Result<(), Error>)
        requires
            old(self).wf(),
        ensures
            final(self).wf(),
            r is Ok <==> (index as nat) < old(self).msi_count(),
            r is Ok ==> old(self).msi_configs()[index as int] is MsiIrq,
            r is Err ==> r == Err::<(), Error>(Error::InvalidState) && *final(self) == *old(self),
            r is Ok ==> final(self).msi_configs() == old(self).msi_configs().update(
                index as int,
                with_low_addr(old(self).msi_configs()[index as int], data),
            ),
            r is Ok ==> Self::control_unchanged(*old(self), *final(self)),
    {
        if (index as usize) < self.msi_config.len() {
            let cur = self.msi_config[index as usize];
            match cur {
                InterruptSourceConfig::MsiIrq(msi) => {
                    self.msi_config.set(
                        index as usize,
                        InterruptSourceConfig::MsiIrq(
                            MsiIrqSourceConfig {
                                high_addr: msi.high_addr,
                                low_addr: data,
                                data: msi.data,
                            },
                        ),
                    );
                    return Ok(());
                },
                InterruptSourceConfig::LegacyIrq => {},
            }
        }
        Err(Error::InvalidState)
    }

    /// Set the message data of the pending MSI message at `index`.
    ///
    /// Mutates only the pending configuration; the new value takes effect
    /// on the next [`Self::enable`] (whole group) or [`Self::update`]
    /// (single vector).  Fails with [`Error::InvalidState`] exactly when
    /// `index` is outside the pending configuration.
    pub fn set_msi_data(&mut self, index: u32, data: u32) -> (r: Result<(), Error>)
        requires
            old(self).wf(),
        ensures
            final(self).wf(),
            r is Ok <==> (index as nat) < old(self).msi_count(),
            r is Ok ==> old(self).msi_configs()[index as int] is MsiIrq,
            r is Err ==> r == Err::<(), Error>(Error::InvalidState) && *final(self) == *old(self),
            r is Ok ==> final(self).msi_configs() == old(self).msi_configs().update(
                index as int,
                with_data(old(self).msi_configs()[index as int], data),
            ),
            r is Ok ==> Self::control_unchanged(*old(self), *final(self)),
    {
        if (index as usize) < self.msi_config.len() {
            let cur = self.msi_config[index as usize];
            match cur {
                InterruptSourceConfig::MsiIrq(msi) => {
                    self.msi_config.set(
                        index as usize,
                        InterruptSourceConfig::MsiIrq(
                            MsiIrqSourceConfig {
                                high_addr: msi.high_addr,
                                low_addr: msi.low_addr,
                                data,
                            },
                        ),
                    );
                    return Ok(());
                },
                InterruptSourceConfig::LegacyIrq => {},
            }
        }
        Err(Error::InvalidState)
    }

    /// Everything but the pending MSI configuration agrees between `pre`
    /// and `post`: stage, mode, capabilities and the current group.  The
    /// MSI parameter setters change nothing else.
    pub open spec fn control_unchanged(pre: Self, post: Self) -> bool {
        &&& post.spec_working_mode() == pre.spec_working_mode()
        &&& post.is_activated() == pre.is_activated()
        &&& post.current_group() == pre.current_group()
        &&& post.msi_count() == pre.msi_count()
        &&& Self::same_device(pre, post)
    }

    /// The payload for `mode`'s group: the fixed singleton for the legacy
    /// line, or the prefix of the pending MSI configuration of the group's
    /// vector count.
    fn get_configs(&self, mode: DeviceInterruptMode) -> (r: Vec<InterruptSourceConfig>)
        requires
            self.wf(),
            mode != DeviceInterruptMode::Disabled,
            self.supports(mode),
        ensures
            r@ == self.spec_configs(mode),
    {
        match mode {
            DeviceInterruptMode::LegacyIrq => {
                let mut v: Vec<InterruptSourceConfig> = Vec::new();
                v.push(InterruptSourceConfig::LegacyIrq);
                proof {
                    assert(v@ =~= self.spec_configs(mode));
                }
                v
            },
            DeviceInterruptMode::GenericMsiIrq
            | DeviceInterruptMode::PciMsiIrq
            | DeviceInterruptMode::PciMsixIrq => {
                let idx = match self.mode2idx.get(mode) {
                    Some(i) => i,
                    None => { return Vec::new(); },
                };
                let group_len = self.intr_groups[idx].len() as usize;
                let mut v: Vec<InterruptSourceConfig> = Vec::new();
                let mut k: usize = 0;
                while k < group_len
                    invariant
                        k <= group_len,
                        group_len <= self.msi_config@.len(),
                        v@ == self.msi_config@.subrange(0, k as int),
                    decreases group_len - k,
                {
                    v.push(self.msi_config[k]);
                    proof {
                        assert(v@ =~= self.msi_config@.subrange(0, k + 1));
                    }
                    k = k + 1;
                }
                proof {
                    assert(v@ =~= self.spec_configs(mode));
                }
                v
            },
            DeviceInterruptMode::Disabled => Vec::new(),
        }
    }

    /// Grow the pending MSI configuration to at least `size` entries:
    /// whenever it grows, the previous contents are discarded and every
    /// entry becomes the all-zero message; it never shrinks, and a `size`
    /// it already covers changes nothing.
    fn resize_msi_config_space(&mut self, size: u32)
        ensures
            final(self).mode == old(self).mode,
            final(self).activated == old(self).activated,
            final(self).current_idx == old(self).current_idx,
            final(self).mode2idx == old(self).mode2idx,
            final(self).intr_groups == old(self).intr_groups,
            final(self).msi_config@.len() == nat_max(old(self).msi_config@.len(), size as nat),
            old(self).msi_config@.len() >= size as nat ==> final(self).msi_config == old(
                self,
            ).msi_config,
            old(self).msi_config@.len() < size as nat ==> forall|j: int|
                0 <= j < final(self).msi_config@.len() ==> (#[trigger] final(self).msi_config@[j])
                    == default_msi_entry(),
    {
        if self.msi_config.len() < size as usize {
            self.msi_config = default_msi_configs(size as usize);
        }
    }

    /// Reset the pending configuration that belongs to `mode`'s mechanism
    /// family to default values, keeping its length: every pending entry of
    /// an MSI-family mode becomes the all-zero message, and legacy mode,
    /// whose configuration is a fixed singleton, has nothing to reset.
    fn reset_configs(&mut self, mode: DeviceInterruptMode)
        ensures
            final(self).mode == old(self).mode,
            final(self).activated == old(self).activated,
            final(self).current_idx == old(self).current_idx,
            final(self).mode2idx == old(self).mode2idx,
            final(self).intr_groups == old(self).intr_groups,
            final(self).msi_config@.len() == old(self).msi_config@.len(),
            is_msi_mode(mode) ==> forall|j: int|
                0 <= j < final(self).msi_config@.len()
                    ==> (#[trigger] final(self).msi_config@[j]) == default_msi_entry(),
            !is_msi_mode(mode) ==> final(self).msi_config == old(self).msi_config,
    {
        match mode {
            DeviceInterruptMode::GenericMsiIrq
            | DeviceInterruptMode::PciMsiIrq
            | DeviceInterruptMode::PciMsixIrq => {
                let n = self.msi_config.len();
                self.msi_config = default_msi_configs(n);
            },
            _ => {},
        }
    }
}

/// `c` with its high address word replaced by `v`; a legacy entry is left
/// as it is.
pub open spec fn with_high_addr(c: InterruptSourceConfig, v: u32) -> InterruptSourceConfig {
    match c {
        InterruptSourceConfig::MsiIrq(m) => InterruptSourceConfig::MsiIrq(
            MsiIrqSourceConfig { high_addr: v, low_addr: m.low_addr, data: m.data },
        ),
        InterruptSourceConfig::LegacyIrq => InterruptSourceConfig::LegacyIrq,
    }
}

/// `c` with its low address word replaced by `v`; a legacy entry is left
/// as it is.
pub open spec fn with_low_addr(c: InterruptSourceConfig, v: u32) -> InterruptSourceConfig {
    match c {
        InterruptSourceConfig::MsiIrq(m) => InterruptSourceConfig::MsiIrq(
            MsiIrqSourceConfig { high_addr: m.high_addr, low_addr: v, data: m.data },
        ),
        InterruptSourceConfig::LegacyIrq => InterruptSourceConfig::LegacyIrq,
    }
}

/// `c` with its message data replaced by `v`; a legacy entry is left as it
/// is.
pub open spec fn with_data(c: InterruptSourceConfig, v: u32) -> InterruptSourceConfig {
    match c {
        InterruptSourceConfig::MsiIrq(m) => InterruptSourceConfig::MsiIrq(
            MsiIrqSourceConfig { high_addr: m.high_addr, low_addr: m.low_addr, data: v },
        ),
        InterruptSourceConfig::LegacyIrq => InterruptSourceConfig::LegacyIrq,
    }
}

/// Relies on `alloc::sync::Arc::clone`: the clone is a new handle to the
/// same shared allocation, so as a value it equals the original.
#[verifier::external_body]
fn clone_arc<G>(g: &Arc<G>) -> (r: Arc<G>)
    ensures
        r == *g,
{
    g.clone()
}

/// Law: enabling a manager that has no mode selected yet, on a device that
/// supports the legacy mechanism, selects and activates legacy mode, and
/// the fast-path group handle becomes available.
pub proof fn lemma_enable_defaults_to_legacy<T: InterruptManager>(
    pre: DeviceInterruptManager<T>,
    post: DeviceInterruptManager<T>,
)
    requires
        pre.wf(),
        pre.spec_working_mode() == DeviceInterruptMode::Disabled,
        pre.supports(DeviceInterruptMode::LegacyIrq),
        DeviceInterruptManager::enable_ok(pre, post),
    ensures
        post.spec_working_mode() == DeviceInterruptMode::LegacyIrq,
        post.is_activated(),
        post.yields_group(),
{
}

/// Law: after a successful reset the manager is back in the configuration
/// stage, no mode is selected, and no fast-path group handle is available
/// any more.
pub proof fn lemma_reset_clears<T: InterruptManager>(
    pre: DeviceInterruptManager<T>,
    post: DeviceInterruptManager<T>,
)
    requires
        DeviceInterruptManager::reset_ok(pre, post),
    ensures
        !post.is_activated(),
        post.spec_working_mode() == DeviceInterruptMode::Disabled,
        !post.yields_group(),
{
}

/// Law: for every vector an MSI-family mode's group serves, the payload
/// its `enable` receives is exactly the pending configuration entry of
/// that vector, so a pending entry set before activation is what reaches
/// the group.
pub proof fn lemma_payload_reflects_pending<T: InterruptManager>(
    m: DeviceInterruptManager<T>,
    mode: DeviceInterruptMode,
    i: int,
)
    requires
        m.wf(),
        is_msi_mode(mode),
        m.supports(mode),
        0 <= i < m.group_len(mode),
    ensures
        m.spec_configs(mode)[i] == m.msi_configs()[i],
{
}

/// A vector of `n` all-zero MSI entries.
fn default_msi_configs(n: usize) -> (r: Vec<InterruptSourceConfig>)
    ensures
        r@.len() == n,
        forall|j: int| 0 <= j < n ==> (#[trigger] r@[j]) == default_msi_entry(),
{
    let mut r: Vec<InterruptSourceConfig> = Vec::new();
    while r.len() < n
        invariant
            r@.len() <= n,
            forall|j: int| 0 <= j < r@.len() ==> (#[trigger] r@[j]) == default_msi_entry(),
        decreases n - r@.len(),
    {
        r.push(InterruptSourceConfig::MsiIrq(MsiIrqSourceConfig::default()));
    }
    r
}

} // verus!
