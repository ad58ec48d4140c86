use std::sync::{Arc, Mutex};

use device_interrupt::Error;
use device_interrupt::interrupt::manager::{DeviceInterruptManager, DeviceInterruptMode};
use device_interrupt::interrupt::{
    InterruptManager, InterruptSourceConfig, InterruptSourceGroup, InterruptSourceType,
    MsiIrqSourceConfig,
};
use device_interrupt::resources::DeviceResources;

struct MockGroup {
    count: u32,
    fail_enable: bool,
    fail_disable: bool,
    enabled_payloads: Mutex<Vec<Vec<InterruptSourceConfig>>>,
    updates: Mutex<Vec<(u32, InterruptSourceConfig)>>,
}

impl InterruptSourceGroup for MockGroup {
    fn spec_len(&self) -> u32 {
        self.count
    }

    fn len(&self) -> u32 {
        self.count
    }

    fn enable(&self, configs: &[InterruptSourceConfig]) -> Result<(), Error> {
        if self.fail_enable {
            return Err(Error::Device(5));
        }
        self.enabled_payloads.lock().unwrap().push(configs.to_vec());
        Ok(())
    }

    fn disable(&self) -> Result<(), Error> {
        if self.fail_disable {
            return Err(Error::Device(6));
        }
        Ok(())
    }

    fn update(&self, index: u32, config: &InterruptSourceConfig) -> Result<(), Error> {
        self.updates.lock().unwrap().push((index, *config));
        Ok(())
    }
}

struct MockState {
    fail_create: bool,
    fail_enable: bool,
    fail_disable: bool,
    created: Mutex<Vec<(InterruptSourceType, u32, u32)>>,
}

#[derive(Clone)]
struct MockManager {
    state: Arc<MockState>,
}

impl MockManager {
    fn new(fail_create: bool, fail_enable: bool, fail_disable: bool) -> Self {
        MockManager {
            state: Arc::new(MockState {
                fail_create,
                fail_enable,
                fail_disable,
                created: Mutex::new(Vec::new()),
            }),
        }
    }
}

impl InterruptManager for MockManager {
    type Group = MockGroup;

    fn create_group(
        &self,
        ty: InterruptSourceType,
        base: u32,
        count: u32,
    ) -> Result<Arc<MockGroup>, Error> {
        if self.state.fail_create {
            return Err(Error::Device(7));
        }
        self.state.created.lock().unwrap().push((ty, base, count));
        Ok(Arc::new(MockGroup {
            count,
            fail_enable: self.state.fail_enable,
            fail_disable: self.state.fail_disable,
            enabled_payloads: Mutex::new(Vec::new()),
            updates: Mutex::new(Vec::new()),
        }))
    }
}

fn create_init_resources() -> DeviceResources {
    let mut resources = DeviceResources::new();
    resources.set_legacy_irq(0);
    resources.set_generic_msi_irqs(0x200, 0x10);
    resources.set_pci_msi_irqs(0x100, 0x20);
    resources.set_pci_msix_irqs(0x300, 0x20);
    resources
}

fn create_interrupt_manager() -> DeviceInterruptManager<MockManager> {
    let intr_mgr = MockManager::new(false, false, false);
    let resource = create_init_resources();
    DeviceInterruptManager::new(intr_mgr.clone(), &resource).unwrap()
}

fn msi_entry(high_addr: u32, low_addr: u32, data: u32) -> InterruptSourceConfig {
    InterruptSourceConfig::MsiIrq(MsiIrqSourceConfig { high_addr, low_addr, data })
}

#[test]
fn test_create_device_interrupt_manager() {
    let mut mgr = create_interrupt_manager();

    assert_eq!(mgr.get_working_mode(), DeviceInterruptMode::Disabled);
    assert_eq!(mgr.is_enabled(), false);
    assert!(mgr.get_group().is_none());

    // Enter legacy mode by default
    mgr.enable().unwrap();
    assert_eq!(mgr.is_enabled(), true);
    assert_eq!(mgr.get_working_mode(), DeviceInterruptMode::LegacyIrq);
    assert!(mgr.get_group().is_some());

    // Disable interrupt manager
    mgr.reset().unwrap();
    assert_eq!(mgr.is_enabled(), false);
    assert_eq!(mgr.get_working_mode(), DeviceInterruptMode::Disabled);
    assert!(mgr.get_group().is_none());
}

#[test]
fn test_device_interrupt_manager_switch_mode() {
    let mut mgr = create_interrupt_manager();

    // Can't switch working mode in enabled state.
    mgr.enable().unwrap();
    mgr.set_working_mode(DeviceInterruptMode::PciMsiIrq).unwrap_err();
    mgr.set_working_mode(DeviceInterruptMode::PciMsixIrq).unwrap_err();
    mgr.set_working_mode(DeviceInterruptMode::GenericMsiIrq).unwrap_err();
    mgr.reset().unwrap();

    // Switch from LEGACY to PciMsi mode
    mgr.set_working_mode(DeviceInterruptMode::LegacyIrq).unwrap();
    mgr.set_working_mode(DeviceInterruptMode::LegacyIrq).unwrap();
    mgr.set_working_mode(DeviceInterruptMode::PciMsiIrq).unwrap();
    mgr.set_working_mode(DeviceInterruptMode::PciMsiIrq).unwrap();
    mgr.set_working_mode(DeviceInterruptMode::PciMsixIrq).unwrap_err();
    mgr.set_working_mode(DeviceInterruptMode::GenericMsiIrq).unwrap_err();

    // Switch from LEGACY to PciMsix mode
    mgr.set_working_mode(DeviceInterruptMode::LegacyIrq).unwrap();
    mgr.set_working_mode(DeviceInterruptMode::PciMsixIrq).unwrap();
    mgr.set_working_mode(DeviceInterruptMode::PciMsixIrq).unwrap();
    mgr.set_working_mode(DeviceInterruptMode::PciMsiIrq).unwrap_err();
    mgr.set_working_mode(DeviceInterruptMode::GenericMsiIrq).unwrap_err();

    // Switch from LEGACY to GenericMsi mode
    mgr.set_working_mode(DeviceInterruptMode::LegacyIrq).unwrap();
    mgr.set_working_mode(DeviceInterruptMode::GenericMsiIrq).unwrap();
    mgr.set_working_mode(DeviceInterruptMode::GenericMsiIrq).unwrap();
    mgr.set_working_mode(DeviceInterruptMode::PciMsiIrq).unwrap_err();
    mgr.set_working_mode(DeviceInterruptMode::PciMsixIrq).unwrap_err();

    // Switch from DISABLED to PciMsi mode
    mgr.set_working_mode(DeviceInterruptMode::Disabled).unwrap();
    mgr.set_working_mode(DeviceInterruptMode::Disabled).unwrap();
    mgr.set_working_mode(DeviceInterruptMode::PciMsiIrq).unwrap();
    mgr.set_working_mode(DeviceInterruptMode::PciMsixIrq).unwrap_err();
    mgr.set_working_mode(DeviceInterruptMode::GenericMsiIrq).unwrap_err();

    // Switch from DISABLED to PciMsix mode
    mgr.set_working_mode(DeviceInterruptMode::Disabled).unwrap();
    mgr.set_working_mode(DeviceInterruptMode::PciMsixIrq).unwrap();
    mgr.set_working_mode(DeviceInterruptMode::PciMsiIrq).unwrap_err();
    mgr.set_working_mode(DeviceInterruptMode::GenericMsiIrq).unwrap_err();

    // Switch from DISABLED to GenericMsi mode
    mgr.set_working_mode(DeviceInterruptMode::Disabled).unwrap();
    mgr.set_working_mode(DeviceInterruptMode::GenericMsiIrq).unwrap();
    mgr.set_working_mode(DeviceInterruptMode::PciMsiIrq).unwrap_err();
    mgr.set_working_mode(DeviceInterruptMode::PciMsixIrq).unwrap_err();

    mgr.set_working_mode(DeviceInterruptMode::Disabled).unwrap();
    mgr.set_working_mode(DeviceInterruptMode::Disabled).unwrap();
}

#[test]
fn test_error() {
    let mut interrupt_manager = create_interrupt_manager();

    assert!(interrupt_manager.set_msi_data(512, 0).is_err());
    assert!(interrupt_manager.set_msi_data(0, 0).is_ok());
    assert!(interrupt_manager.set_msi_high_address(512, 0).is_err());
    assert!(interrupt_manager.set_msi_high_address(0, 0).is_ok());
    assert!(interrupt_manager.set_msi_low_address(512, 0).is_err());
    assert!(interrupt_manager.set_msi_low_address(0, 0).is_ok());

    interrupt_manager.enable().unwrap();
    assert!(interrupt_manager.set_working_mode(DeviceInterruptMode::Disabled).is_err());
    assert!(interrupt_manager.set_working_mode(DeviceInterruptMode::GenericMsiIrq).is_err());
    assert!(interrupt_manager.set_working_mode(DeviceInterruptMode::LegacyIrq).is_err());
    assert!(interrupt_manager.set_working_mode(DeviceInterruptMode::PciMsiIrq).is_err());
    assert!(interrupt_manager.set_working_mode(DeviceInterruptMode::PciMsixIrq).is_err());
}

#[test]
fn test_disable2legacy() {
    let mut interrupt_manager = create_interrupt_manager();
    assert!(interrupt_manager.set_working_mode(DeviceInterruptMode::LegacyIrq).is_ok());
}

#[test]
fn test_disable2nonlegacy() {
    let mut interrupt_manager = create_interrupt_manager();
    assert!(interrupt_manager.set_working_mode(DeviceInterruptMode::GenericMsiIrq).is_ok());
}

#[test]
fn test_legacy2nonlegacy() {
    let mut interrupt_manager = create_interrupt_manager();
    assert!(interrupt_manager.set_working_mode(DeviceInterruptMode::LegacyIrq).is_ok());
    assert!(interrupt_manager.set_working_mode(DeviceInterruptMode::GenericMsiIrq).is_ok());
}

#[test]
fn test_nonlegacy2legacy() {
    let mut interrupt_manager = create_interrupt_manager();
    assert!(interrupt_manager.set_working_mode(DeviceInterruptMode::GenericMsiIrq).is_ok());
    assert!(interrupt_manager.set_working_mode(DeviceInterruptMode::LegacyIrq).is_ok());
}

#[test]
fn test_update() {
    let mut interrupt_manager = create_interrupt_manager();
    assert!(interrupt_manager.set_working_mode(DeviceInterruptMode::GenericMsiIrq).is_ok());
    assert!(interrupt_manager.enable().is_ok());
    assert!(interrupt_manager.update(0x10).is_err());
    assert!(interrupt_manager.update(0x01).is_ok());
    assert!(interrupt_manager.reset().is_ok());
    assert!(interrupt_manager.set_working_mode(DeviceInterruptMode::LegacyIrq).is_ok());
    assert!(interrupt_manager.update(0x10).is_err());
}

#[test]
fn test_four_groups_and_direct_reselect() {
    // A device assigned legacy + generic MSI + PCI MSI + PCI MSI-X gets one
    // group per mechanism at construction.
    let intr_mgr = MockManager::new(false, false, false);
    let resource = create_init_resources();
    let mut mgr = DeviceInterruptManager::new(intr_mgr.clone(), &resource).unwrap();
    assert_eq!(intr_mgr.state.created.lock().unwrap().len(), 4);
    assert_eq!(
        intr_mgr.state.created.lock().unwrap()[0],
        (InterruptSourceType::LegacyIrq, 0, 1)
    );
    assert_eq!(
        intr_mgr.state.created.lock().unwrap()[1],
        (InterruptSourceType::MsiIrq, 0x200, 0x10)
    );

    // Enabling with no mode selected picks legacy.
    mgr.enable().unwrap();
    assert_eq!(mgr.get_working_mode(), DeviceInterruptMode::LegacyIrq);

    // After a reset, an MSI-family mode can be selected straight from
    // Disabled, but not from a sibling MSI-family mode.
    mgr.reset().unwrap();
    assert_eq!(mgr.get_working_mode(), DeviceInterruptMode::Disabled);
    mgr.set_working_mode(DeviceInterruptMode::PciMsiIrq).unwrap();
    assert_eq!(
        mgr.set_working_mode(DeviceInterruptMode::PciMsixIrq).unwrap_err(),
        Error::InvalidState
    );
    assert_eq!(mgr.get_working_mode(), DeviceInterruptMode::PciMsiIrq);
}

#[test]
fn test_enable_without_mode_or_legacy_fails() {
    let intr_mgr = MockManager::new(false, false, false);
    let mut resources = DeviceResources::new();
    resources.set_pci_msi_irqs(0x100, 0x20);
    let mut mgr = DeviceInterruptManager::new(intr_mgr, &resources).unwrap();
    assert_eq!(mgr.enable().unwrap_err(), Error::InvalidState);
    assert_eq!(mgr.is_enabled(), false);
    assert_eq!(mgr.get_working_mode(), DeviceInterruptMode::Disabled);
    assert!(mgr.get_group().is_none());
}

#[test]
fn test_enable_payload_reflects_pending() {
    let mut mgr = create_interrupt_manager();
    mgr.set_working_mode(DeviceInterruptMode::GenericMsiIrq).unwrap();
    mgr.set_msi_high_address(1, 0xbeef).unwrap();
    mgr.set_msi_low_address(1, 0xdead).unwrap();
    mgr.set_msi_data(1, 0x99).unwrap();
    mgr.enable().unwrap();

    let group = mgr.get_group().unwrap();
    let payloads = group.enabled_payloads.lock().unwrap();
    assert_eq!(payloads.len(), 1);
    // The payload is the pending-configuration prefix of the group's size.
    assert_eq!(payloads[0].len(), 0x10);
    assert_eq!(payloads[0][0], msi_entry(0, 0, 0));
    assert_eq!(payloads[0][1], msi_entry(0xbeef, 0xdead, 0x99));
}

#[test]
fn test_legacy_enable_payload_is_singleton() {
    let mut mgr = create_interrupt_manager();
    mgr.enable().unwrap();
    let group = mgr.get_group().unwrap();
    assert_eq!(group.len(), 1);
    let payloads = group.enabled_payloads.lock().unwrap();
    assert_eq!(payloads.len(), 1);
    assert_eq!(payloads[0], vec![InterruptSourceConfig::LegacyIrq]);
}

#[test]
fn test_update_pushes_pending_entry() {
    let mut mgr = create_interrupt_manager();
    mgr.set_working_mode(DeviceInterruptMode::GenericMsiIrq).unwrap();
    mgr.enable().unwrap();
    mgr.set_msi_data(2, 42).unwrap();
    mgr.update(2).unwrap();

    let group = mgr.get_group().unwrap();
    let updates = group.updates.lock().unwrap();
    assert_eq!(updates.len(), 1);
    assert_eq!(updates[0], (2, msi_entry(0, 0, 42)));
}

#[test]
fn test_selecting_mode_resets_pending() {
    let mut mgr = create_interrupt_manager();
    mgr.set_working_mode(DeviceInterruptMode::GenericMsiIrq).unwrap();
    mgr.set_msi_data(0, 7).unwrap();

    // Routing through legacy and selecting the mode again resets the
    // pending configuration to all-zero entries.
    mgr.set_working_mode(DeviceInterruptMode::LegacyIrq).unwrap();
    mgr.set_working_mode(DeviceInterruptMode::GenericMsiIrq).unwrap();
    mgr.enable().unwrap();

    let group = mgr.get_group().unwrap();
    let payloads = group.enabled_payloads.lock().unwrap();
    assert_eq!(payloads[0][0], msi_entry(0, 0, 0));
}

#[test]
fn test_factory_failure_propagates() {
    let intr_mgr = MockManager::new(true, false, false);
    let resource = create_init_resources();
    let err = match DeviceInterruptManager::new(intr_mgr, &resource) {
        Ok(_) => panic!("construction should fail when the factory fails"),
        Err(e) => e,
    };
    assert_eq!(err, Error::Device(7));
}

#[test]
fn test_group_enable_failure_leaves_deactivated() {
    let intr_mgr = MockManager::new(false, true, false);
    let resource = create_init_resources();
    let mut mgr = DeviceInterruptManager::new(intr_mgr, &resource).unwrap();
    assert_eq!(mgr.enable().unwrap_err(), Error::Device(5));
    assert_eq!(mgr.is_enabled(), false);
    assert!(mgr.get_group().is_none());
    // The default legacy selection stuck even though activation failed.
    assert_eq!(mgr.get_working_mode(), DeviceInterruptMode::LegacyIrq);
}

#[test]
fn test_reset_propagates_disable_failure() {
    let intr_mgr = MockManager::new(false, false, true);
    let resource = create_init_resources();
    let mut mgr = DeviceInterruptManager::new(intr_mgr, &resource).unwrap();
    mgr.enable().unwrap();
    assert_eq!(mgr.reset().unwrap_err(), Error::Device(6));
    // The failure leaves the manager exactly as it was: still activated,
    // mode untouched, fast-path handle still available.
    assert_eq!(mgr.is_enabled(), true);
    assert_eq!(mgr.get_working_mode(), DeviceInterruptMode::LegacyIrq);
    assert!(mgr.get_group().is_some());
}

#[test]
fn test_new_without_resources_succeeds() {
    // With no mechanism assigned, construction makes no factory call and
    // is owed success; nothing can be enabled afterwards.
    let intr_mgr = MockManager::new(false, false, false);
    let resources = DeviceResources::new();
    let mut mgr = match DeviceInterruptManager::new(intr_mgr.clone(), &resources) {
        Ok(m) => m,
        Err(_) => panic!("construction without resources must succeed"),
    };
    assert_eq!(intr_mgr.state.created.lock().unwrap().len(), 0);
    assert_eq!(mgr.get_working_mode(), DeviceInterruptMode::Disabled);
    assert_eq!(mgr.enable().unwrap_err(), Error::InvalidState);
}

#[test]
fn test_invalid_state_error_variant() {
    let mut mgr = create_interrupt_manager();
    // Not activated: update always fails.
    assert_eq!(mgr.update(0).unwrap_err(), Error::InvalidState);
    // Illegal transition between MSI-family modes.
    mgr.set_working_mode(DeviceInterruptMode::PciMsiIrq).unwrap();
    assert_eq!(
        mgr.set_working_mode(DeviceInterruptMode::GenericMsiIrq).unwrap_err(),
        Error::InvalidState
    );
    // Out-of-range MSI setter.
    assert_eq!(mgr.set_msi_data(0x20, 1).unwrap_err(), Error::InvalidState);
    // Activated in legacy mode: update has no reconfigurable vectors.
    mgr.set_working_mode(DeviceInterruptMode::LegacyIrq).unwrap();
    mgr.enable().unwrap();
    assert_eq!(mgr.update(0).unwrap_err(), Error::InvalidState);
}

#[test]
fn test_get_group_hands_out_shared_handle() {
    let mut mgr = create_interrupt_manager();
    mgr.enable().unwrap();
    let a = mgr.get_group().unwrap();
    let b = mgr.get_group().unwrap();
    // Both handles refer to the same underlying group.
    assert!(Arc::ptr_eq(&a, &b));
    assert_eq!(a.len(), 1);
}
