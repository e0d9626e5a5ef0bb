use acpi_tables::{aml, Aml};
use cpu_hotplug::controller::{CpuHotplugController, CpuHotplugControllerState};
use cpu_hotplug::cpu_aml::{AmlError, CpuAml, CpuNotify, CscnMethod, CstaMethod, CtfyMethod};
use cpu_hotplug::manager::{ACPIDeviceManager, VmClock, VmGenId};
use vmm_sys_util::eventfd::EventFd;

fn event() -> EventFd {
    EventFd::new(libc::EFD_NONBLOCK).unwrap()
}

fn encode(object: &dyn Aml) -> Vec<u8> {
    let mut bytes = Vec::new();
    object.to_aml_bytes(&mut bytes);
    bytes
}

fn expected_notify(cpu_id: u8) -> Vec<u8> {
    let path = aml::Path::new(&format!("\\_SB_.CPUS.C{:03X}", cpu_id));
    encode(&aml::If::new(
        &aml::Equal::new(&aml::Arg(0), &cpu_id),
        vec![&aml::Notify::new(&path, &aml::Arg(1))],
    ))
}

fn expected_csta() -> Vec<u8> {
    let arg0 = aml::Arg(0);
    let local0 = aml::Local(0);
    let acquire = aml::Acquire::new(aml::Path::new("\\_SB_.PRES.CPLK"), 0xffff);
    let csel = aml::Path::new("\\_SB_.PRES.CSEL");
    let store_selected = aml::Store::new(&csel, &arg0);
    let store_zero = aml::Store::new(&local0, &aml::ZERO);
    let cpen = aml::Path::new("\\_SB_.PRES.CPEN");
    let is_one = aml::Equal::new(&cpen, &aml::ONE);
    let store_enabled = aml::Store::new(&local0, &0x0fu8);
    let if_enabled = aml::If::new(&is_one, vec![&store_enabled]);
    let release = aml::Release::new(aml::Path::new("\\_SB_.PRES.CPLK"));
    let ret = aml::Return::new(&local0);
    encode(&aml::Method::new(
        "CSTA".into(),
        1,
        true,
        vec![&acquire, &store_selected, &store_zero, &if_enabled, &release, &ret],
    ))
}

fn expected_cscn(max_vcpus: u8) -> Vec<u8> {
    let local0 = aml::Local(0);
    let acquire = aml::Acquire::new(aml::Path::new("\\_SB_.PRES.CPLK"), 0xffff);
    let init = aml::Store::new(&local0, &aml::ZERO);
    let csel = aml::Path::new("\\_SB_.PRES.CSEL");
    let select = aml::Store::new(&csel, &local0);
    let cins = aml::Path::new("\\_SB_.PRES.CINS");
    let cins_set = aml::Equal::new(&cins, &aml::ONE);
    let notify_insert = aml::MethodCall::new("CTFY".into(), vec![&local0, &aml::ONE]);
    let clear_cins = aml::Store::new(&cins, &aml::ONE);
    let if_insert = aml::If::new(&cins_set, vec![&notify_insert, &clear_cins]);
    let crmv = aml::Path::new("\\_SB_.PRES.CRMV");
    let crmv_set = aml::Equal::new(&crmv, &aml::ONE);
    let notify_remove = aml::MethodCall::new("CTFY".into(), vec![&local0, &3u8]);
    let clear_crmv = aml::Store::new(&crmv, &aml::ONE);
    let if_remove = aml::If::new(&crmv_set, vec![&notify_remove, &clear_crmv]);
    let increment = aml::Add::new(&local0, &local0, &aml::ONE);
    let predicate = aml::LessThan::new(&local0, &max_vcpus);
    let scan = aml::While::new(&predicate, vec![&select, &if_insert, &if_remove, &increment]);
    let release = aml::Release::new(aml::Path::new("\\_SB_.PRES.CPLK"));
    encode(&aml::Method::new(
        "CSCN".into(),
        0,
        true,
        vec![&acquire, &init, &scan, &release],
    ))
}

fn expected_cpu(cpu_id: u8) -> Vec<u8> {
    let csta_call = aml::MethodCall::new("CSTA".into(), vec![&cpu_id]);
    let csel = aml::Path::new("\\_SB_.PRES.CSEL");
    let select = aml::Store::new(&csel, &cpu_id);
    let cej0 = aml::Path::new("\\_SB_.PRES.CEJ0");
    let trigger = aml::Store::new(&cej0, &aml::ONE);
    let mat = vec![0, 8, cpu_id, cpu_id, 1, 0, 0, 0];
    encode(&aml::Device::new(
        format!("C{:03X}", cpu_id).as_str().into(),
        vec![
            &aml::Name::new("_HID".into(), &"ACPI0007"),
            &aml::Name::new("_UID".into(), &cpu_id),
            &aml::Method::new("_STA".into(), 0, false, vec![&aml::Return::new(&csta_call)]),
            &aml::Method::new("_EJ0".into(), 1, false, vec![&select, &trigger]),
            &aml::Name::new("_MAT".into(), &aml::BufferData::new(mat)),
        ],
    ))
}

/// Length bytes of a package with `len` bytes of content.
fn pkg_length(len: usize) -> Vec<u8> {
    let filler = aml::Name::new_field_name(&"x".repeat(len));
    let bytes = encode(&aml::VarPackageTerm::new(&filler));
    bytes[1..bytes.len() - len].to_vec()
}

fn expected_ctfy(max_vcpus: u8) -> Vec<u8> {
    let mut content = b"CTFY\x0a".to_vec();
    for cpu_id in 0..max_vcpus {
        content.append(&mut expected_notify(cpu_id));
    }
    let mut bytes = vec![0x14];
    bytes.append(&mut pkg_length(content.len()));
    bytes.append(&mut content);
    bytes
}

fn expected_controller(mmio_addr: u64) -> Vec<u8> {
    let offset = mmio_addr as usize;
    let size = 12usize;
    encode(&aml::Device::new(
        "_SB_.PRES".into(),
        vec![
            &aml::Name::new("_HID".into(), &"PNP0A06"),
            &aml::Name::new("_UID".into(), &"CPU Hotplug Controller"),
            &aml::Mutex::new("CPLK".into(), 0),
            &aml::Name::new(
                "_CRS".into(),
                &aml::ResourceTemplate::new(vec![&aml::AddressSpace::new_memory(
                    aml::AddressSpaceCacheable::NotCacheable,
                    true,
                    mmio_addr,
                    mmio_addr + 11,
                    None,
                )]),
            ),
            &aml::OpRegion::new(
                "PRST".into(),
                aml::OpRegionSpace::SystemMemory,
                &offset,
                &size,
            ),
            &aml::Field::new(
                "PRST".into(),
                aml::FieldAccessType::Byte,
                aml::FieldLockRule::NoLock,
                aml::FieldUpdateRule::WriteAsZeroes,
                vec![
                    aml::FieldEntry::Reserved(32),
                    aml::FieldEntry::Named(*b"CPEN", 1),
                    aml::FieldEntry::Named(*b"CINS", 1),
                    aml::FieldEntry::Named(*b"CRMV", 1),
                    aml::FieldEntry::Named(*b"CEJ0", 1),
                    aml::FieldEntry::Reserved(4),
                    aml::FieldEntry::Named(*b"CCMD", 8),
                ],
            ),
            &aml::Field::new(
                "PRST".into(),
                aml::FieldAccessType::DWord,
                aml::FieldLockRule::NoLock,
                aml::FieldUpdateRule::Preserve,
                vec![
                    aml::FieldEntry::Named(*b"CSEL", 32),
                    aml::FieldEntry::Reserved(32),
                    aml::FieldEntry::Named(*b"CDAT", 32),
                ],
            ),
        ],
    ))
}

fn expected_cpus(max_vcpus: u8) -> Vec<u8> {
    let mut content = encode(&aml::Path::new("_SB_.CPUS"));
    content.append(&mut encode(&aml::Name::new("_HID".into(), &"ACPI0010")));
    let cid = aml::EISAName::new("PNP0A05");
    content.append(&mut encode(&aml::Name::new("_CID".into(), &cid)));
    content.append(&mut expected_csta());
    content.append(&mut expected_ctfy(max_vcpus));
    content.append(&mut expected_cscn(max_vcpus));
    for cpu_id in 0..max_vcpus {
        content.append(&mut expected_cpu(cpu_id));
    }
    let mut bytes = vec![0x5b, 0x82];
    bytes.append(&mut pkg_length(content.len()));
    bytes.append(&mut content);
    bytes
}

fn expected_ged(vmgenid: u32, vmclock: u32, hotplug: Option<u32>) -> Vec<u8> {
    let vgen_irq = aml::Interrupt::new(true, true, false, false, vmgenid);
    let vclk_irq = aml::Interrupt::new(true, true, false, false, vmclock);
    let hp_irq = aml::Interrupt::new(true, true, false, false, hotplug.unwrap_or(0));
    let mut interrupts: Vec<&dyn Aml> = vec![&vgen_irq, &vclk_irq];
    let (vgen_gsi, vclk_gsi) = (vmgenid as u8, vmclock as u8);
    let value = 0x80usize;
    let vgen = aml::Path::new("\\_SB_.VGEN");
    let vgen_notify = aml::Notify::new(&vgen, &value);
    let vgen_eq = aml::Equal::new(&aml::Arg(0), &vgen_gsi);
    let vgen_evt = aml::If::new(&vgen_eq, vec![&vgen_notify]);
    let vclk = aml::Path::new("\\_SB_.VCLK");
    let vclk_notify = aml::Notify::new(&vclk, &value);
    let vclk_eq = aml::Equal::new(&aml::Arg(0), &vclk_gsi);
    let vclk_evt = aml::If::new(&vclk_eq, vec![&vclk_notify]);
    let mut body: Vec<&dyn Aml> = vec![&vgen_evt, &vclk_evt];
    let cscn = aml::MethodCall::new("\\_SB_.CPUS.CSCN".into(), vec![]);
    if hotplug.is_some() {
        interrupts.push(&hp_irq);
        body.push(&cscn);
    }
    let hid = aml::Name::new("_HID".into(), &"ACPI0013");
    let crs = aml::Name::new("_CRS".into(), &aml::ResourceTemplate::new(interrupts));
    let evt = aml::Method::new("_EVT".into(), 1, true, body);
    encode(&aml::Device::new("_SB_.GED_".into(), vec![&hid, &crs, &evt]))
}

fn controller_at(mmio_addr: u64, max_vcpus: u8, gsi: u32) -> CpuHotplugController {
    CpuHotplugController::new(1, max_vcpus, mmio_addr, gsi, event())
}

#[test]
fn notify_branch() {
    for cpu_id in [0u8, 1, 2, 0x1f, 0xa0, 0xff] {
        let mut v = vec![0x55];
        CpuNotify { cpu_id }.append_aml_bytes(&mut v);
        assert_eq!(v[0], 0x55);
        assert_eq!(v[1..], expected_notify(cpu_id)[..]);
    }
}

#[test]
fn notify_branch_byte_by_byte() {
    let mut v = Vec::new();
    CpuNotify { cpu_id: 0x1a }.append_aml_bytes(&mut v);
    let mut expected = vec![0xa0, 0x16, 0x93, 0x68, 0x0a, 0x1a, 0x86, b'\\', 0x2f, 3];
    expected.extend_from_slice(b"_SB_CPUSC01A");
    expected.push(0x69);
    assert_eq!(v, expected);
}

#[test]
fn csta_method() {
    let mut v = vec![1, 2, 3];
    CstaMethod.append_aml_bytes(&mut v);
    assert_eq!(v[..3], [1, 2, 3]);
    assert_eq!(v[3..], expected_csta()[..]);
}

#[test]
fn ctfy_method() {
    for max_vcpus in [0u8, 1, 2, 3, 32, 255] {
        let mut v = Vec::new();
        CtfyMethod { max_vcpus }.append_aml_bytes(&mut v);
        assert_eq!(v, expected_ctfy(max_vcpus));
    }
}

#[test]
fn cscn_method() {
    for max_vcpus in [0u8, 1, 2, 32, 255] {
        let mut v = Vec::new();
        CscnMethod { max_vcpus }.append_aml_bytes(&mut v);
        assert_eq!(v, expected_cscn(max_vcpus));
    }
}

#[test]
fn cpu_device() {
    for cpu_id in [0u8, 1, 2, 0x0f, 0x10, 0xff] {
        let mut v = Vec::new();
        CpuAml { cpu_id }.append_aml_bytes(&mut v);
        assert_eq!(v, expected_cpu(cpu_id));
    }
}

#[test]
fn cpu_devices_have_different_names() {
    let mut names = Vec::new();
    for cpu_id in 0..=255u8 {
        let mut v = Vec::new();
        CpuAml { cpu_id }.append_aml_bytes(&mut v);
        let at = v.iter().position(|b| *b == b'C').unwrap();
        let name = v[at..at + 4].to_vec();
        assert!(!names.contains(&name));
        names.push(name);
    }
}

#[test]
fn controller_aml() {
    for mmio_addr in [0u64, 1, 0x80, 0x1_0000, 0xd000_0000, 0x1_0000_0000, u64::MAX - 11] {
        for max_vcpus in [1u8, 2, 8, 32] {
            let mut v = vec![9];
            let c = controller_at(mmio_addr, max_vcpus, 5);
            assert_eq!(c.append_aml_bytes(&mut v), Ok(()));
            let mut expected = vec![9];
            expected.append(&mut expected_controller(mmio_addr));
            expected.append(&mut expected_cpus(max_vcpus));
            assert_eq!(v, expected);
        }
    }
}

#[test]
fn restored_controller_aml_has_all_its_vcpus() {
    let state = CpuHotplugControllerState {
        boot_vcpus: 1,
        max_vcpus: 255,
        mmio_addr: 0x4000,
        gsi: 5,
        cpu_enabled: vec![true],
        cpu_ejected: vec![false],
    };
    let c = CpuHotplugController::restore(&state, event());
    let mut v = Vec::new();
    assert_eq!(c.append_aml_bytes(&mut v), Ok(()));
    let mut expected = expected_controller(0x4000);
    expected.append(&mut expected_cpus(255));
    assert_eq!(v, expected);
}

#[test]
fn controller_aml_needs_its_window_in_the_address_space() {
    for mmio_addr in [u64::MAX - 10, u64::MAX] {
        let mut v = vec![7, 8];
        let c = controller_at(mmio_addr, 4, 5);
        assert_eq!(c.append_aml_bytes(&mut v), Err(AmlError::AddressRange));
        assert_eq!(v, vec![7, 8]);
    }
}

fn manager(hotplug: Option<CpuHotplugController>) -> ACPIDeviceManager {
    ACPIDeviceManager::new(
        VmGenId { gsi: 5, aml: Ok(vec![0xa1, 0xa2]) },
        VmClock { gsi: 0x106, aml: Ok(vec![0xb1]) },
        hotplug,
    )
}

#[test]
fn manager_aml_without_hotplug() {
    let mut v = vec![0xee];
    assert_eq!(manager(None).append_aml_bytes(&mut v), Ok(()));
    let mut expected = vec![0xee, 0xa1, 0xa2, 0xb1];
    expected.append(&mut expected_ged(5, 0x106, None));
    assert_eq!(v, expected);
}

#[test]
fn manager_aml_with_hotplug() {
    let mut v = vec![0xee];
    let c = controller_at(0xd000_0000, 8, 0x207);
    assert_eq!(manager(Some(c)).append_aml_bytes(&mut v), Ok(()));
    let mut expected = vec![0xee, 0xa1, 0xa2, 0xb1];
    expected.append(&mut expected_controller(0xd000_0000));
    expected.append(&mut expected_cpus(8));
    expected.append(&mut expected_ged(5, 0x106, Some(0x207)));
    assert_eq!(v, expected);
}

#[test]
fn manager_aml_stops_at_the_first_error() {
    let m = ACPIDeviceManager::new(
        VmGenId { gsi: 5, aml: Err(AmlError::AddressRange) },
        VmClock { gsi: 6, aml: Ok(vec![0xb1]) },
        None,
    );
    let mut v = vec![0xee];
    assert_eq!(m.append_aml_bytes(&mut v), Err(AmlError::AddressRange));
    assert_eq!(v, vec![0xee]);

    let m = ACPIDeviceManager::new(
        VmGenId { gsi: 5, aml: Ok(vec![0xa1]) },
        VmClock { gsi: 6, aml: Err(AmlError::Other) },
        None,
    );
    let mut v = vec![0xee];
    assert_eq!(m.append_aml_bytes(&mut v), Err(AmlError::Other));
    assert_eq!(v, vec![0xee, 0xa1]);

    let mut v = vec![0xee];
    let m = manager(Some(controller_at(u64::MAX, 8, 7)));
    assert_eq!(m.append_aml_bytes(&mut v), Err(AmlError::AddressRange));
    assert_eq!(v, vec![0xee, 0xa1, 0xa2, 0xb1]);
}

#[test]
fn package_lengths_at_the_borders() {
    // The controller's vCPU device grows through all lengths of length that occur here.
    let mut one = Vec::new();
    CtfyMethod { max_vcpus: 2 }.append_aml_bytes(&mut one);
    assert_eq!(one[1], 50);
    let mut two = Vec::new();
    CtfyMethod { max_vcpus: 3 }.append_aml_bytes(&mut two);
    let length = usize::from(two[1] & 0x0f) + usize::from(two[2]) * 16;
    assert_eq!(two[1] >> 6, 1);
    assert_eq!(length, two.len() - 1);
    let mut three = Vec::new();
    CtfyMethod { max_vcpus: 255 }.append_aml_bytes(&mut three);
    let length = usize::from(three[1] & 0x0f)
        + usize::from(three[2]) * 16
        + usize::from(three[3]) * 4096;
    assert_eq!(three[1] >> 6, 2);
    assert_eq!(length, three.len() - 1);
}
