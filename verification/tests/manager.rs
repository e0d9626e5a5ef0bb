use cpu_hotplug::controller::{CpuHotplugController, CPU_HOTPLUG_MMIO_SIZE};
use cpu_hotplug::manager::{
    ACPIDeviceError, ACPIDeviceManager, ActivateAction, ActivateEvent, AttachAction, AttachEvent,
    VmClock, VmClockError, VmGenId, VmGenIdError, ENOMEM,
};
use vmm_sys_util::eventfd::EventFd;

fn event() -> EventFd {
    EventFd::new(libc::EFD_NONBLOCK).unwrap()
}

fn vmgenid() -> VmGenId {
    VmGenId { gsi: 5, aml: Ok(vec![1]) }
}

fn vmclock() -> VmClock {
    VmClock { gsi: 6, aml: Ok(vec![2]) }
}

fn manager(hotplug: Option<CpuHotplugController>) -> ACPIDeviceManager {
    ACPIDeviceManager::new(vmgenid(), vmclock(), hotplug)
}

#[test]
fn devices_are_attached_one_by_one() {
    let mut m = ACPIDeviceManager::default();
    assert!(m.cpu_hotplug().is_none());
    assert!(!m.has_vmgenid() && !m.has_vmclock());
    assert!(m.attach_vmgenid(Ok(vmgenid())).is_ok());
    assert!(m.attach_vmclock(Ok(vmclock())).is_ok());
    assert!(m.has_vmgenid() && m.has_vmclock());
    assert_eq!(m.vmgenid().gsi, 5);
    assert_eq!(m.vmclock().gsi, 6);
}

#[test]
fn a_device_that_could_not_be_made_is_not_attached() {
    let mut m = manager(None);
    let error = VmGenIdError { message: "no id".to_string() };
    match m.attach_vmgenid(Err(error)) {
        Err(ACPIDeviceError::VmGenId(e)) => assert_eq!(e.message, "no id"),
        other => panic!("{:?}", other),
    }
    assert_eq!(m.vmgenid().gsi, 5);
    let error = VmClockError { message: "no clock".to_string() };
    match m.attach_vmclock(Err(error)) {
        Err(ACPIDeviceError::VmClock(e)) => assert_eq!(e.message, "no clock"),
        other => panic!("{:?}", other),
    }
    assert_eq!(m.vmclock().gsi, 6);
}

#[test]
fn attaching_the_controller_step_by_step() {
    let mut m = manager(None);
    let first = m.attach_cpu_hotplug(2, 8, AttachEvent::Begin).unwrap();
    assert!(matches!(first, AttachAction::AllocateGsi { count: 1 }));

    let second = m.attach_cpu_hotplug(2, 8, AttachEvent::Gsi(Some(vec![11, 99]))).unwrap();
    match second {
        AttachAction::AllocateMmio { gsi, size, alignment } => {
            assert_eq!(gsi, 11);
            assert_eq!(size, CPU_HOTPLUG_MMIO_SIZE);
            assert_eq!(alignment, 8);
        }
        other => panic!("{:?}", other),
    }

    let window = AttachEvent::Mmio { gsi: 11, window: Some(0xc000_0000) };
    let third = m.attach_cpu_hotplug(2, 8, window).unwrap();
    assert!(matches!(
        third,
        AttachAction::CreateEvent { gsi: 11, mmio_addr: 0xc000_0000 }
    ));
    assert!(m.cpu_hotplug().is_none());

    let made = AttachEvent::Interrupt {
        gsi: 11,
        mmio_addr: 0xc000_0000,
        interrupt_evt: Some(event()),
    };
    let last = m.attach_cpu_hotplug(2, 8, made).unwrap();
    assert!(matches!(last, AttachAction::Attached));
    let c = m.cpu_hotplug().unwrap();
    assert_eq!(c.boot_vcpus(), 2);
    assert_eq!(c.max_vcpus(), 8);
    assert_eq!(c.gsi(), 11);
    assert_eq!(c.mmio_addr(), 0xc000_0000);
    assert_eq!(c.active_vcpus(), 2);
}

#[test]
fn attaching_fails_where_the_host_fails() {
    assert_eq!(ENOMEM, libc::ENOMEM);
    let failures = vec![
        AttachEvent::Gsi(None),
        AttachEvent::Mmio { gsi: 1, window: None },
        AttachEvent::Interrupt { gsi: 1, mmio_addr: 2, interrupt_evt: None },
    ];
    for failure in failures {
        let mut m = manager(None);
        let r = m.attach_cpu_hotplug(1, 2, failure);
        assert!(matches!(r, Err(ACPIDeviceError::RegisterIrq(ENOMEM))));
        assert!(m.cpu_hotplug().is_none());
    }
}

#[test]
fn the_controller_can_be_operated_in_place() {
    let mut m = manager(Some(CpuHotplugController::new(1, 4, 0, 7, event())));
    m.cpu_hotplug_mut().unwrap().hotplug_vcpus(1, 3);
    assert_eq!(m.cpu_hotplug().unwrap().active_vcpus(), 3);
    assert!(manager(None).cpu_hotplug_mut().is_none());
}

#[test]
fn activating_the_controller() {
    let m = manager(Some(CpuHotplugController::new(1, 4, 0, 7, event())));
    let first = m.activate_cpu_hotplug(ActivateEvent::Begin).unwrap();
    assert!(matches!(first, ActivateAction::RegisterIrq { gsi: 7 }));
    let done = m.activate_cpu_hotplug(ActivateEvent::IrqRegistered(Ok(()))).unwrap();
    assert!(matches!(done, ActivateAction::Done));
    let failed = m.activate_cpu_hotplug(ActivateEvent::IrqRegistered(Err(22)));
    assert!(matches!(failed, Err(ACPIDeviceError::RegisterIrq(22))));

    let without = manager(None).activate_cpu_hotplug(ActivateEvent::Begin).unwrap();
    assert!(matches!(without, ActivateAction::Done));
}

#[test]
fn activating_vmgenid() {
    let m = manager(None);
    let first = m.activate_vmgenid(ActivateEvent::Begin).unwrap();
    assert!(matches!(first, ActivateAction::RegisterIrq { gsi: 5 }));
    let second = m.activate_vmgenid(ActivateEvent::IrqRegistered(Ok(()))).unwrap();
    assert!(matches!(second, ActivateAction::Activate));
    let done = m.activate_vmgenid(ActivateEvent::Activated(Ok(()))).unwrap();
    assert!(matches!(done, ActivateAction::Done));
    let failed = m.activate_vmgenid(ActivateEvent::IrqRegistered(Err(16)));
    assert!(matches!(failed, Err(ACPIDeviceError::RegisterIrq(16))));
    let error = VmGenIdError { message: "memory".to_string() };
    let failed = m.activate_vmgenid(ActivateEvent::Activated(Err(error)));
    assert!(matches!(failed, Err(ACPIDeviceError::VmGenId(_))));
}

#[test]
fn activating_vmclock() {
    let m = manager(None);
    let first = m.activate_vmclock(ActivateEvent::Begin).unwrap();
    assert!(matches!(first, ActivateAction::RegisterIrq { gsi: 6 }));
    let second = m.activate_vmclock(ActivateEvent::IrqRegistered(Ok(()))).unwrap();
    assert!(matches!(second, ActivateAction::Activate));
    let done = m.activate_vmclock(ActivateEvent::Activated(Ok(()))).unwrap();
    assert!(matches!(done, ActivateAction::Done));
    let failed = m.activate_vmclock(ActivateEvent::IrqRegistered(Err(16)));
    assert!(matches!(failed, Err(ACPIDeviceError::RegisterIrq(16))));
    let error = VmClockError { message: "memory".to_string() };
    let failed = m.activate_vmclock(ActivateEvent::Activated(Err(error)));
    assert!(matches!(failed, Err(ACPIDeviceError::VmClock(_))));
}

#[test]
fn coming_through_a_restore() {
    let m = manager(None);
    assert!(m.do_post_restore_vmgenid(Ok(())).is_ok());
    assert!(m.do_post_restore_vmclock(Ok(())).is_ok());
    let error = VmGenIdError { message: "irq".to_string() };
    let failed = m.do_post_restore_vmgenid(Err(error));
    assert!(matches!(failed, Err(ACPIDeviceError::VmGenId(_))));
    let error = VmClockError { message: "memory".to_string() };
    let failed = m.do_post_restore_vmclock(Err(error));
    assert!(matches!(failed, Err(ACPIDeviceError::VmClock(_))));
}
