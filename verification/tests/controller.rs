use cpu_hotplug::controller::{
    CpuHotplugController, CpuHotplugControllerState, CpuState, CPU_EJECT_FLAG, CPU_ENABLE_FLAG,
    CPU_HOTPLUG_MMIO_SIZE, CPU_INSERTING_FLAG, CPU_REMOVING_FLAG, CPU_SELECTION_OFFSET,
    CPU_STATUS_OFFSET,
};
use vmm_sys_util::eventfd::EventFd;

fn event() -> EventFd {
    EventFd::new(libc::EFD_NONBLOCK).unwrap()
}

fn controller(boot: u8, max: u8) -> CpuHotplugController {
    CpuHotplugController::new(boot, max, 0xd000_1000, 7, event())
}

fn select(c: &mut CpuHotplugController, cpu: u32) {
    c.mmio_write(CPU_SELECTION_OFFSET, &cpu.to_le_bytes());
}

fn status(c: &mut CpuHotplugController, cpu: u32) -> u8 {
    select(c, cpu);
    let mut data = [0xffu8; 1];
    c.mmio_read(CPU_STATUS_OFFSET, &mut data);
    data[0]
}

fn write_flag(c: &mut CpuHotplugController, cpu: u32, flag: usize) {
    select(c, cpu);
    c.mmio_write(CPU_STATUS_OFFSET, &[1 << flag]);
}

/// What the guest's scan method does. Gives back whom it notifies, and of what.
fn scan(c: &mut CpuHotplugController) -> Vec<(u32, u8)> {
    let mut notifications: Vec<(u32, u8)> = Vec::new();
    for cpu in 0..u32::from(c.max_vcpus()) {
        if status(c, cpu) & (1 << CPU_INSERTING_FLAG) != 0 {
            notifications.push((cpu, 1));
            write_flag(c, cpu, CPU_INSERTING_FLAG);
        }
        if status(c, cpu) & (1 << CPU_REMOVING_FLAG) != 0 {
            notifications.push((cpu, 3));
            write_flag(c, cpu, CPU_REMOVING_FLAG);
        }
    }
    notifications
}

fn state(boot: u8, max: u8, enabled: Vec<bool>) -> CpuHotplugControllerState {
    CpuHotplugControllerState {
        boot_vcpus: boot,
        max_vcpus: max,
        mmio_addr: 0x1234,
        gsi: 9,
        cpu_enabled: enabled,
        cpu_ejected: Vec::new(),
    }
}

#[test]
fn new_keeps_what_it_is_given() {
    let c = controller(2, 8);
    assert_eq!(c.boot_vcpus(), 2);
    assert_eq!(c.max_vcpus(), 8);
    assert_eq!(c.mmio_addr(), 0xd000_1000);
    assert_eq!(c.gsi(), 7);
    assert_eq!(c.active_vcpus(), 2);
    assert_eq!(CPU_HOTPLUG_MMIO_SIZE, 12);
}

#[test]
fn new_cuts_down_to_what_is_supported() {
    let c = controller(40, 200);
    assert_eq!(c.max_vcpus(), 32);
    assert_eq!(c.boot_vcpus(), 32);
    assert_eq!(c.active_vcpus(), 32);

    let c = controller(6, 4);
    assert_eq!(c.max_vcpus(), 4);
    assert_eq!(c.boot_vcpus(), 4);

    let c = controller(0, 0);
    assert_eq!(c.active_vcpus(), 0);
    assert_eq!(c.ejected_cpus(), Vec::<u8>::new());
}

#[test]
fn interrupt_event_is_the_one_given() {
    let evt = event();
    let other = evt.try_clone().unwrap();
    let c = CpuHotplugController::new(1, 2, 0, 5, evt);
    c.interrupt_evt().write(3).unwrap();
    assert_eq!(other.read().unwrap(), 3);
}

#[test]
fn hotplug_enables_and_marks_inserting() {
    let mut c = controller(2, 8);
    c.hotplug_vcpus(2, 5);
    assert_eq!(c.active_vcpus(), 5);
    assert_eq!(status(&mut c, 1), 0b001);
    assert_eq!(status(&mut c, 2), 0b011);
    assert_eq!(status(&mut c, 4), 0b011);
    assert_eq!(status(&mut c, 5), 0);
}

#[test]
fn hotplug_beyond_the_slots_is_ignored() {
    let mut c = controller(2, 4);
    c.hotplug_vcpus(3, 255);
    assert_eq!(c.active_vcpus(), 3);
    assert_eq!(status(&mut c, 2), 0);
    assert_eq!(status(&mut c, 3), 0b011);
    c.hotplug_vcpus(4, 2);
    assert_eq!(c.active_vcpus(), 3);
}

#[test]
fn hotplug_takes_back_a_removal() {
    let mut c = controller(1, 4);
    c.hotplug_vcpus(1, 4);
    c.unplug_vcpus(1);
    assert_eq!(status(&mut c, 3), 0b111);
    c.hotplug_vcpus(3, 4);
    assert_eq!(status(&mut c, 3), 0b011);
}

#[test]
fn unplug_marks_and_leaves_enabled() {
    let mut c = controller(2, 8);
    c.hotplug_vcpus(2, 6);
    scan(&mut c);
    c.unplug_vcpus(4);
    assert_eq!(c.active_vcpus(), 6);
    assert_eq!(status(&mut c, 3), 0b001);
    assert_eq!(status(&mut c, 4), 0b101);
    assert_eq!(status(&mut c, 5), 0b101);
    assert_eq!(status(&mut c, 6), 0);
}

#[test]
fn unplug_spares_boot_vcpus() {
    let mut c = controller(3, 8);
    c.hotplug_vcpus(3, 5);
    scan(&mut c);
    c.unplug_vcpus(0);
    for cpu in 0..3 {
        assert_eq!(status(&mut c, cpu), 0b001);
    }
    assert_eq!(status(&mut c, 3), 0b101);
    assert_eq!(status(&mut c, 4), 0b101);
}

#[test]
fn unplug_to_the_same_or_more_marks_nothing() {
    let mut c = controller(1, 4);
    c.hotplug_vcpus(1, 3);
    scan(&mut c);
    c.unplug_vcpus(3);
    c.unplug_vcpus(200);
    for cpu in 0..3 {
        assert_eq!(status(&mut c, cpu), 0b001);
    }
}

#[test]
fn unplug_goes_by_the_number_of_active_vcpus() {
    // Slots 0, 1 and 3 run: three are active, so only slot 2 is looked at, and it is empty.
    let evt = event();
    let mut c =
        CpuHotplugController::restore(&state(1, 4, vec![true, true, false, true]), evt);
    assert_eq!(c.active_vcpus(), 3);
    c.unplug_vcpus(2);
    assert_eq!(status(&mut c, 3), 0b001);
    c.unplug_vcpus(1);
    assert_eq!(status(&mut c, 1), 0b101);
}

#[test]
fn full_removal_leaves_the_desired_number() {
    let mut c = controller(2, 8);
    c.hotplug_vcpus(2, 7);
    scan(&mut c);
    c.unplug_vcpus(4);
    scan(&mut c);
    for cpu in 4..7 {
        write_flag(&mut c, cpu, CPU_EJECT_FLAG);
    }
    assert_eq!(c.active_vcpus(), 4);
    assert_eq!(c.ejected_cpus(), vec![4, 5, 6]);
    c.hotplug_vcpus(4, 6);
    assert_eq!(c.active_vcpus(), 6);
    assert_eq!(c.ejected_cpus(), vec![6]);
}

#[test]
fn scan_acknowledges_everything() {
    let mut c = controller(1, 6);
    c.hotplug_vcpus(1, 6);
    c.unplug_vcpus(3);
    scan(&mut c);
    for cpu in 0..6 {
        assert_eq!(status(&mut c, cpu), 1 << CPU_ENABLE_FLAG);
    }
}

#[test]
fn ejected_lists_what_the_guest_has_let_go() {
    let mut c = controller(2, 6);
    assert_eq!(c.ejected_cpus(), Vec::<u8>::new());
    c.hotplug_vcpus(2, 5);
    assert_eq!(c.ejected_cpus(), Vec::<u8>::new());
    // Ejected with the insertion still to acknowledge.
    write_flag(&mut c, 3, CPU_EJECT_FLAG);
    assert_eq!(status(&mut c, 3), 0b010);
    assert_eq!(c.ejected_cpus(), Vec::<u8>::new());
    write_flag(&mut c, 3, CPU_INSERTING_FLAG);
    assert_eq!(c.ejected_cpus(), vec![3]);
    // A boot vCPU is neither ejected nor listed.
    write_flag(&mut c, 0, CPU_EJECT_FLAG);
    assert_eq!(c.active_vcpus(), 4);
    assert_eq!(c.ejected_cpus(), vec![3]);
}

#[test]
fn nothing_is_ejected_at_first() {
    assert_eq!(controller(2, 4).ejected_cpus(), Vec::<u8>::new());
}

#[test]
fn plugging_in_again_forgets_the_ejection() {
    let mut c = controller(1, 4);
    c.hotplug_vcpus(1, 4);
    scan(&mut c);
    write_flag(&mut c, 3, CPU_EJECT_FLAG);
    assert_eq!(c.ejected_cpus(), vec![3]);
    c.hotplug_vcpus(3, 4);
    scan(&mut c);
    assert_eq!(c.ejected_cpus(), Vec::<u8>::new());
    assert_eq!(c.active_vcpus(), 4);
}

#[test]
fn restoring_keeps_the_ejection() {
    let mut c = controller(2, 4);
    c.hotplug_vcpus(2, 4);
    scan(&mut c);
    write_flag(&mut c, 3, CPU_EJECT_FLAG);
    assert_eq!(c.ejected_cpus(), vec![3]);
    let mut r = CpuHotplugController::restore(&c.save(), event());
    assert_eq!(r.active_vcpus(), 3);
    assert_eq!(r.ejected_cpus(), vec![3]);
    assert_eq!(r.save().cpu_ejected, vec![false, false, false, true]);
    // Plugged in again, it is no longer ejected, there and after the next snapshot.
    r.hotplug_vcpus(3, 4);
    scan(&mut r);
    assert_eq!(r.ejected_cpus(), Vec::<u8>::new());
    let r = CpuHotplugController::restore(&r.save(), event());
    assert_eq!(r.ejected_cpus(), Vec::<u8>::new());
}

#[test]
fn restoring_ejects_nothing_more() {
    let r = CpuHotplugController::restore(&controller(2, 4).save(), event());
    assert_eq!(r.ejected_cpus(), Vec::<u8>::new());
    // The insertion that kept the slot off the list is gone.
    let mut c = controller(2, 4);
    c.hotplug_vcpus(2, 3);
    write_flag(&mut c, 2, CPU_EJECT_FLAG);
    assert_eq!(c.ejected_cpus(), Vec::<u8>::new());
    let r = CpuHotplugController::restore(&c.save(), event());
    assert_eq!(r.ejected_cpus(), vec![2]);
}

#[test]
fn restoring_without_a_record_lists_empty_slots() {
    let enabled = vec![true, false, true, false, false];
    let r = CpuHotplugController::restore(&state(2, 5, enabled.clone()), event());
    assert_eq!(r.ejected_cpus(), vec![3, 4]);
    assert_eq!(r.save().cpu_enabled, enabled);
    assert_eq!(r.save().cpu_ejected, vec![false, true, false, true, true]);
    // A record of the first slots speaks for them alone.
    let mut partial = state(2, 5, enabled);
    partial.cpu_ejected = vec![false; 4];
    let r = CpuHotplugController::restore(&partial, event());
    assert_eq!(r.ejected_cpus(), vec![4]);
}

#[test]
fn boot_vcpus_cannot_be_removed() {
    let mut c = controller(2, 4);
    select(&mut c, 0);
    c.mmio_write(CPU_STATUS_OFFSET, &[0b1000]);
    assert_eq!(c.active_vcpus(), 2);
    assert_eq!(status(&mut c, 0), 0b001);
    assert_eq!(c.ejected_cpus(), Vec::<u8>::new());
    c.unplug_vcpus(0);
    for cpu in 0..4 {
        select(&mut c, cpu);
        c.mmio_write(CPU_STATUS_OFFSET, &[0xff]);
    }
    assert_eq!(c.save().cpu_enabled, vec![true, true, false, false]);
}

#[test]
fn guest_writes_only_clear() {
    for value in 0..=255u8 {
        let mut c = controller(1, 3);
        c.hotplug_vcpus(1, 3);
        c.unplug_vcpus(2);
        for cpu in 0..3 {
            let before = status(&mut c, cpu);
            let active = c.active_vcpus();
            c.mmio_write(CPU_STATUS_OFFSET, &[value]);
            let after = status(&mut c, cpu);
            assert_eq!(after & !before, 0);
            assert!(c.active_vcpus() <= active);
        }
    }
}

#[test]
fn scan_notifies_in_order() {
    let mut c = controller(1, 6);
    c.hotplug_vcpus(1, 5);
    assert_eq!(scan(&mut c), vec![(1, 1), (2, 1), (3, 1), (4, 1)]);
    assert_eq!(scan(&mut c), Vec::new());
    c.unplug_vcpus(3);
    c.hotplug_vcpus(5, 6);
    assert_eq!(scan(&mut c), vec![(3, 3), (4, 3), (5, 1)]);
    c.hotplug_vcpus(2, 3);
    c.unplug_vcpus(2);
    assert_eq!(scan(&mut c), vec![(2, 1), (2, 3), (3, 3), (4, 3), (5, 3)]);
}

#[test]
fn ejecting_lowers_the_number_by_one() {
    let mut c = controller(1, 4);
    c.hotplug_vcpus(1, 4);
    write_flag(&mut c, 2, CPU_EJECT_FLAG);
    assert_eq!(c.active_vcpus(), 3);
    write_flag(&mut c, 2, CPU_EJECT_FLAG);
    assert_eq!(c.active_vcpus(), 3);
}

#[test]
fn selection_reads_back() {
    let mut c = controller(1, 2);
    c.mmio_write(0, &[0x78, 0x56, 0x34, 0x12, 0xff]);
    let mut data = [0xaau8; 6];
    c.mmio_read(0, &mut data);
    assert_eq!(data, [0x78, 0x56, 0x34, 0x12, 0, 0]);
}

#[test]
fn short_accesses_to_the_selection_do_nothing() {
    let mut c = controller(1, 2);
    select(&mut c, 1);
    c.mmio_write(0, &[5, 0, 0]);
    let mut data = [0xaau8; 3];
    c.mmio_read(0, &mut data);
    assert_eq!(data, [0, 0, 0]);
    let mut data = [0xaau8; 4];
    c.mmio_read(0, &mut data);
    assert_eq!(data, [1, 0, 0, 0]);
}

#[test]
fn status_of_a_vcpu_that_there_is_not() {
    let mut c = controller(2, 2);
    assert_eq!(status(&mut c, 2), 0);
    assert_eq!(status(&mut c, u32::MAX), 0);
    c.mmio_write(CPU_STATUS_OFFSET, &[0xff]);
    assert_eq!(c.active_vcpus(), 2);
}

#[test]
fn status_fills_the_rest_with_zeros() {
    let mut c = controller(1, 2);
    select(&mut c, 0);
    let mut data = [0xaau8; 4];
    c.mmio_read(CPU_STATUS_OFFSET, &mut data);
    assert_eq!(data, [1, 0, 0, 0]);
    let mut data: [u8; 0] = [];
    c.mmio_read(CPU_STATUS_OFFSET, &mut data);
    c.mmio_write(CPU_STATUS_OFFSET, &data);
    assert_eq!(c.active_vcpus(), 1);
}

#[test]
fn other_offsets_read_zero_and_ignore_writes() {
    let mut c = controller(1, 4);
    c.hotplug_vcpus(1, 2);
    select(&mut c, 1);
    for offset in [1u64, 2, 3, 5, 8, 11, 12, u64::MAX] {
        let mut data = [0xaau8; 5];
        c.mmio_read(offset, &mut data);
        assert_eq!(data, [0; 5]);
        c.mmio_write(offset, &[0xff; 5]);
    }
    assert_eq!(status(&mut c, 1), 0b011);
}

#[test]
fn acknowledging_one_flag_keeps_the_other() {
    let mut c = controller(1, 3);
    c.hotplug_vcpus(1, 3);
    c.unplug_vcpus(1);
    assert_eq!(status(&mut c, 2), 0b111);
    write_flag(&mut c, 2, CPU_INSERTING_FLAG);
    assert_eq!(status(&mut c, 2), 0b101);
    write_flag(&mut c, 2, CPU_INSERTING_FLAG);
    assert_eq!(status(&mut c, 2), 0b101);
    write_flag(&mut c, 2, CPU_REMOVING_FLAG);
    assert_eq!(status(&mut c, 2), 0b001);
    assert_eq!(status(&mut c, 1), 0b111);
    // The bit of presence is not written.
    write_flag(&mut c, 2, CPU_ENABLE_FLAG);
    assert_eq!(status(&mut c, 2), 0b001);
}

#[test]
fn one_write_can_set_several_bits() {
    let mut c = controller(1, 3);
    c.hotplug_vcpus(1, 3);
    c.unplug_vcpus(1);
    select(&mut c, 1);
    c.mmio_write(CPU_STATUS_OFFSET, &[0b1110]);
    assert_eq!(status(&mut c, 1), 0);
    assert_eq!(c.ejected_cpus(), vec![1]);
}

#[test]
fn save_keeps_what_is_enabled() {
    let mut c = controller(1, 4);
    c.hotplug_vcpus(1, 3);
    write_flag(&mut c, 1, CPU_EJECT_FLAG);
    let saved = c.save();
    assert_eq!(saved.boot_vcpus, 1);
    assert_eq!(saved.max_vcpus, 4);
    assert_eq!(saved.mmio_addr, 0xd000_1000);
    assert_eq!(saved.gsi, 7);
    assert_eq!(saved.cpu_enabled, vec![true, false, true, false]);
    assert_eq!(saved.cpu_ejected, vec![false, true, false, false]);
}

#[test]
fn restore_brings_the_snapshot_back() {
    let mut c = controller(1, 4);
    c.hotplug_vcpus(1, 3);
    select(&mut c, 2);
    let mut r = CpuHotplugController::restore(&c.save(), event());
    assert_eq!(r.boot_vcpus(), 1);
    assert_eq!(r.max_vcpus(), 4);
    assert_eq!(r.mmio_addr(), 0xd000_1000);
    assert_eq!(r.gsi(), 7);
    assert_eq!(r.active_vcpus(), 3);
    let mut data = [0xaau8; 4];
    r.mmio_read(CPU_SELECTION_OFFSET, &mut data);
    assert_eq!(data, [0, 0, 0, 0]);
    assert_eq!(status(&mut r, 2), 0b001);
    assert_eq!(r.save().cpu_enabled, c.save().cpu_enabled);
}

#[test]
fn restore_takes_any_snapshot() {
    let mut r = CpuHotplugController::restore(&state(3, 200, vec![true; 260]), event());
    assert_eq!(r.boot_vcpus(), 3);
    assert_eq!(r.max_vcpus(), 200);
    assert_eq!(r.active_vcpus(), 4);
    assert_eq!(r.ejected_cpus(), Vec::<u8>::new());
    write_flag(&mut r, 259, CPU_EJECT_FLAG);
    write_flag(&mut r, 258, CPU_EJECT_FLAG);
    write_flag(&mut r, 9, CPU_EJECT_FLAG);
    // Indices are bytes: 258 is listed as 2, which is below the boot vCPUs, and 259 as 3.
    assert_eq!(r.ejected_cpus(), vec![9, 3]);
    assert_eq!(r.active_vcpus(), 1);
}

#[test]
fn defaults_are_empty() {
    let s = CpuHotplugControllerState::default();
    assert_eq!(s.boot_vcpus, 0);
    assert_eq!(s.max_vcpus, 0);
    assert_eq!(s.mmio_addr, 0);
    assert_eq!(s.gsi, 0);
    assert!(s.cpu_enabled.is_empty());
    assert!(s.cpu_ejected.is_empty());
    let cpu = CpuState::default();
    assert!(!cpu.enabled && !cpu.inserting && !cpu.removing && !cpu.ejected);
}

#[test]
fn operations_keep_the_shape() {
    let mut c = controller(2, 6);
    c.hotplug_vcpus(0, 255);
    c.unplug_vcpus(0);
    c.mmio_write(0, &[0xff; 8]);
    c.mmio_write(4, &[0xff; 8]);
    assert_eq!(c.boot_vcpus(), 2);
    assert_eq!(c.max_vcpus(), 6);
    assert_eq!(c.mmio_addr(), 0xd000_1000);
    assert_eq!(c.gsi(), 7);
    assert_eq!(c.save().cpu_enabled.len(), 6);
}

#[test]
fn only_ejection_disables() {
    let mut c = controller(2, 4);
    c.hotplug_vcpus(2, 4);
    c.unplug_vcpus(0);
    for cpu in 0..4 {
        select(&mut c, cpu);
        c.mmio_write(CPU_STATUS_OFFSET, &[0b1111_0111]);
    }
    assert_eq!(c.active_vcpus(), 4);
    write_flag(&mut c, 0, CPU_EJECT_FLAG);
    assert_eq!(c.save().cpu_enabled, vec![true, true, true, true]);
    write_flag(&mut c, 2, CPU_EJECT_FLAG);
    assert_eq!(c.save().cpu_enabled, vec![true, true, false, true]);
}
