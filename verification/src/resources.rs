//! Description of the interrupt resources assigned to one device.
//!
//! A device is assigned zero or more of: a legacy IRQ line, a generic MSI
//! range, a PCI MSI range and a PCI MSI-X range.  Each MSI-family range is a
//! `(base, count)` pair.  The description is consumed once, when a
//! [`crate::interrupt::manager::DeviceInterruptManager`] is constructed; an
//! absent entry means the device does not support that mechanism.

use vstd::prelude::*;

verus! {

/// Vector count of an optional `(base, count)` interrupt range.
pub open spec fn range_count(r: Option<(u32, u32)>) -> nat {
    match r {
        Some(rg) => rg.1 as nat,
        None => 0,
    }
}

/// The larger of two naturals.
pub open spec fn nat_max(a: nat, b: nat) -> nat {
    if a >= b {
        a
    } else {
        b
    }
}

/// The interrupt resources assigned to one device.
#[derive(Clone, Copy, Debug)]
pub struct DeviceResources {
    legacy_irq: Option<u32>,
    generic_msi_irqs: Option<(u32, u32)>,
    pci_msi_irqs: Option<(u32, u32)>,
    pci_msix_irqs: Option<(u32, u32)>,
}

impl DeviceResources {
    /// The assigned legacy IRQ line, if any.
    pub closed spec fn spec_legacy_irq(&self) -> Option<u32> {
        self.legacy_irq
    }

    /// The assigned generic MSI range, if any.
    pub closed spec fn spec_generic_msi_irqs(&self) -> Option<(u32, u32)> {
        self.generic_msi_irqs
    }

    /// The assigned PCI MSI range, if any.
    pub closed spec fn spec_pci_msi_irqs(&self) -> Option<(u32, u32)> {
        self.pci_msi_irqs
    }

    /// The assigned PCI MSI-X range, if any.
    pub closed spec fn spec_pci_msix_irqs(&self) -> Option<(u32, u32)> {
        self.pci_msix_irqs
    }

    /// Vector count of the largest MSI-family range assigned to the device;
    /// zero when the device has no MSI-family resources.
    pub open spec fn msi_space(&self) -> nat {
        nat_max(
            nat_max(
                range_count(self.spec_generic_msi_irqs()),
                range_count(self.spec_pci_msi_irqs()),
            ),
            range_count(self.spec_pci_msix_irqs()),
        )
    }

    /// A description with no interrupt resources at all.
    pub fn new() -> (r: Self)
        ensures
            r.spec_legacy_irq() is None,
            r.spec_generic_msi_irqs() is None,
            r.spec_pci_msi_irqs() is None,
            r.spec_pci_msix_irqs() is None,
    {
        DeviceResources {
            legacy_irq: None,
            generic_msi_irqs: None,
            pci_msi_irqs: None,
            pci_msix_irqs: None,
        }
    }

    /// Assign the legacy IRQ line `irq` to the device.
    pub fn set_legacy_irq(&mut self, irq: u32)
        ensures
            final(self).spec_legacy_irq() == Some(irq),
            final(self).spec_generic_msi_irqs() == old(self).spec_generic_msi_irqs(),
            final(self).spec_pci_msi_irqs() == old(self).spec_pci_msi_irqs(),
            final(self).spec_pci_msix_irqs() == old(self).spec_pci_msix_irqs(),
    {
        self.legacy_irq = Some(irq);
    }

    /// Assign a generic MSI range of `count` vectors starting at `base`.
    pub fn set_generic_msi_irqs(&mut self, base: u32, count: u32)
        ensures
            final(self).spec_legacy_irq() == old(self).spec_legacy_irq(),
            final(self).spec_generic_msi_irqs() == Some((base, count)),
            final(self).spec_pci_msi_irqs() == old(self).spec_pci_msi_irqs(),
            final(self).spec_pci_msix_irqs() == old(self).spec_pci_msix_irqs(),
    {
        self.generic_msi_irqs = Some((base, count));
    }

    /// Assign a PCI MSI range of `count` vectors starting at `base`.
    pub fn set_pci_msi_irqs(&mut self, base: u32, count: u32)
        ensures
            final(self).spec_legacy_irq() == old(self).spec_legacy_irq(),
            final(self).spec_generic_msi_irqs() == old(self).spec_generic_msi_irqs(),
            final(self).spec_pci_msi_irqs() == Some((base, count)),
            final(self).spec_pci_msix_irqs() == old(self).spec_pci_msix_irqs(),
    {
        self.pci_msi_irqs = Some((base, count));
    }

    /// Assign a PCI MSI-X range of `count` vectors starting at `base`.
    pub fn set_pci_msix_irqs(&mut self, base: u32, count: u32)
        ensures
            final(self).spec_legacy_irq() == old(self).spec_legacy_irq(),
            final(self).spec_generic_msi_irqs() == old(self).spec_generic_msi_irqs(),
            final(self).spec_pci_msi_irqs() == old(self).spec_pci_msi_irqs(),
            final(self).spec_pci_msix_irqs() == Some((base, count)),
    {
        self.pci_msix_irqs = Some((base, count));
    }

    /// The assigned legacy IRQ line, if any.
    pub fn get_legacy_irq(&self) -> (r: Option<u32>)
        ensures
            r == self.spec_legacy_irq(),
    {
        self.legacy_irq
    }

    /// The assigned generic MSI range, if any.
    pub fn get_generic_msi_irqs(&self) -> (r: Option<(u32, u32)>)
        ensures
            r == self.spec_generic_msi_irqs(),
    {
        self.generic_msi_irqs
    }

    /// The assigned PCI MSI range, if any.
    pub fn get_pci_msi_irqs(&self) -> (r: Option<(u32, u32)>)
        ensures
            r == self.spec_pci_msi_irqs(),
    {
        self.pci_msi_irqs
    }

    /// The assigned PCI MSI-X range, if any.
    pub fn get_pci_msix_irqs(&self) -> (r: Option<(u32, u32)>)
        ensures
            r == self.spec_pci_msix_irqs(),
    {
        self.pci_msix_irqs
    }
}

} // verus!
