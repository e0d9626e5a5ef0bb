//! What the manager of a machine's devices does, as relations between what it is told, what it
//! answers and what the tables say afterwards.

use vmm_sys_util::eventfd::EventFd;
use vstd::prelude::*;

use crate::controller::CpuHotplugController;
use crate::cpu_aml;
use crate::cpu_aml::{AmlError, CpuAml, CpuNotify, CscnMethod, CstaMethod, CtfyMethod};
use crate::guest;
use crate::laws;
use crate::manager;
use crate::manager::{
    ACPIDeviceError, ACPIDeviceManager, ActivateAction, ActivateEvent, AttachAction, AttachEvent,
    VmClock, VmClockError, VmGenId, VmGenIdError,
};
use crate::reader;
use crate::reader::{Effect, Object};
use crate::tables;

verus! {

/// A manager gives back the devices that it was made with.
pub proof fn devices_are_kept(
    vmgenid: VmGenId,
    vmclock: VmClock,
    cpu_hotplug: Option<CpuHotplugController>,
    m: ACPIDeviceManager,
    first: VmGenId,
    second: VmClock,
    third: Option<&CpuHotplugController>,
    has: (bool, bool),
)
    requires
        call_ensures(ACPIDeviceManager::new, (vmgenid, vmclock, cpu_hotplug), m),
        call_ensures(ACPIDeviceManager::vmgenid, (&m,), &first),
        call_ensures(ACPIDeviceManager::vmclock, (&m,), &second),
        call_ensures(ACPIDeviceManager::cpu_hotplug, (&m,), third),
        call_ensures(ACPIDeviceManager::has_vmgenid, (&m,), has.0),
        call_ensures(ACPIDeviceManager::has_vmclock, (&m,), has.1),
    ensures
        first == vmgenid,
        second == vmclock,
        match third {
            Some(controller) => cpu_hotplug == Some(*controller),
            None => cpu_hotplug is None,
        },
        has == (true, true),
{
}

/// What a manager hands out is what it has, whatever that is.
pub proof fn devices_are_handed_out(
    m: ACPIDeviceManager,
    first: VmGenId,
    second: VmClock,
    third: Option<&CpuHotplugController>,
    has: (bool, bool),
)
    requires
        m.vmgenid_slot() is Some,
        m.vmclock_slot() is Some,
        call_ensures(ACPIDeviceManager::vmgenid, (&m,), &first),
        call_ensures(ACPIDeviceManager::vmclock, (&m,), &second),
        call_ensures(ACPIDeviceManager::cpu_hotplug, (&m,), third),
        call_ensures(ACPIDeviceManager::has_vmgenid, (&m,), has.0),
        call_ensures(ACPIDeviceManager::has_vmclock, (&m,), has.1),
    ensures
        m.vmgenid_slot() == Some(first),
        m.vmclock_slot() == Some(second),
        match third {
            Some(controller) => m.hotplug_slot() == Some(*controller),
            None => m.hotplug_slot() is None,
        },
        has == (true, true),
{
}

/// A new machine has no devices.
pub proof fn no_devices_at_first(
    m: ACPIDeviceManager,
    third: Option<&CpuHotplugController>,
    has: (bool, bool),
)
    requires
        call_ensures(<ACPIDeviceManager as Default>::default, (), m),
        call_ensures(ACPIDeviceManager::cpu_hotplug, (&m,), third),
        call_ensures(ACPIDeviceManager::has_vmgenid, (&m,), has.0),
        call_ensures(ACPIDeviceManager::has_vmclock, (&m,), has.1),
    ensures
        third is None,
        has == (false, false),
{
}

/// VMGenID is there once it was attached; if it could not be made, the error says so and nothing
/// changes. The other devices stay as they are.
pub proof fn vmgenid_is_attached(
    m: &mut ACPIDeviceManager,
    device: Result<VmGenId, VmGenIdError>,
    r: Result<(), ACPIDeviceError>,
    has: bool,
)
    requires
        call_ensures(ACPIDeviceManager::attach_vmgenid, (m, device), r),
        call_ensures(ACPIDeviceManager::has_vmgenid, (&*final(m),), has),
    ensures
        match device {
            Ok(vmgenid) => r is Ok && has && final(m).vmgenid_slot() == Some(vmgenid),
            Err(e) => r is Err && r->Err_0 == ACPIDeviceError::VmGenId(e) && has == (
            old(m).vmgenid_slot() is Some) && final(m).vmgenid_slot() == old(m).vmgenid_slot(),
        },
        final(m).vmclock_slot() == old(m).vmclock_slot(),
        final(m).hotplug_slot() == old(m).hotplug_slot(),
{
}

/// VMClock is there once it was attached; if it could not be made, the error says so and nothing
/// changes. The other devices stay as they are.
pub proof fn vmclock_is_attached(
    m: &mut ACPIDeviceManager,
    device: Result<VmClock, VmClockError>,
    r: Result<(), ACPIDeviceError>,
    has: bool,
)
    requires
        call_ensures(ACPIDeviceManager::attach_vmclock, (m, device), r),
        call_ensures(ACPIDeviceManager::has_vmclock, (&*final(m),), has),
    ensures
        match device {
            Ok(vmclock) => r is Ok && has && final(m).vmclock_slot() == Some(vmclock),
            Err(e) => r is Err && r->Err_0 == ACPIDeviceError::VmClock(e) && has == (
            old(m).vmclock_slot() is Some) && final(m).vmclock_slot() == old(m).vmclock_slot(),
        },
        final(m).vmgenid_slot() == old(m).vmgenid_slot(),
        final(m).hotplug_slot() == old(m).hotplug_slot(),
{
}

/// The host is led through attaching a controller: one interrupt line, twelve bytes of addresses
/// aligned to eight, an event descriptor. The controller that is then there has the first of the
/// lines, the addresses, the descriptor and the numbers that were given; before, nothing changes.
pub proof fn hotplug_is_attached_step_by_step(
    m: &mut ACPIDeviceManager,
    n: &mut ACPIDeviceManager,
    o: &mut ACPIDeviceManager,
    p: &mut ACPIDeviceManager,
    boot_vcpus: u8,
    max_vcpus: u8,
    lines: Vec<u32>,
    window: u64,
    interrupt_evt: EventFd,
    first: Result<AttachAction, ACPIDeviceError>,
    second: Result<AttachAction, ACPIDeviceError>,
    third: Result<AttachAction, ACPIDeviceError>,
    fourth: Result<AttachAction, ACPIDeviceError>,
)
    requires
        lines@.len() > 0,
        call_ensures(
            ACPIDeviceManager::attach_cpu_hotplug,
            (m, boot_vcpus, max_vcpus, AttachEvent::Begin),
            first,
        ),
        call_ensures(
            ACPIDeviceManager::attach_cpu_hotplug,
            (n, boot_vcpus, max_vcpus, AttachEvent::Gsi(Some(lines))),
            second,
        ),
        call_ensures(
            ACPIDeviceManager::attach_cpu_hotplug,
            (
                o,
                boot_vcpus,
                max_vcpus,
                (AttachEvent::Mmio { gsi: lines@[0], window: Some(window) }),
            ),
            third,
        ),
        call_ensures(
            ACPIDeviceManager::attach_cpu_hotplug,
            (
                p,
                boot_vcpus,
                max_vcpus,
                (AttachEvent::Interrupt {
                    gsi: lines@[0],
                    mmio_addr: window,
                    interrupt_evt: Some(interrupt_evt),
                }),
            ),
            fourth,
        ),
    ensures
        first is Ok && first->Ok_0 == (AttachAction::AllocateGsi { count: 1 }),
        second is Ok && second->Ok_0 == (AttachAction::AllocateMmio {
            gsi: lines@[0],
            size: 12,
            alignment: 8,
        }),
        third is Ok && third->Ok_0 == (AttachAction::CreateEvent {
            gsi: lines@[0],
            mmio_addr: window,
        }),
        fourth is Ok && fourth->Ok_0 == AttachAction::Attached,
        same_devices(*final(m), *old(m)),
        same_devices(*final(n), *old(n)),
        same_devices(*final(o), *old(o)),
        final(p).vmgenid_slot() == old(p).vmgenid_slot(),
        final(p).vmclock_slot() == old(p).vmclock_slot(),
        final(p).hotplug_slot() is Some,
        ({
            let c = final(p).hotplug_slot()->0;
            let max = if max_vcpus < 32 {
                max_vcpus
            } else {
                32
            };
            let boot = if boot_vcpus < max {
                boot_vcpus
            } else {
                max
            };
            &&& c@.gsi == lines@[0]
            &&& c@.mmio_addr == window
            &&& c.event() == interrupt_evt
            &&& c@.max_vcpus == max
            &&& c@.boot_vcpus == boot
            &&& c@.active() == boot
            &&& c@.cpus.len() == max
            &&& forall|i: int|
                0 <= i < max ==> (#[trigger] c@.cpus[i]).enabled == (i < boot)
        }),
{
    laws::boot_runs_boot_vcpus(boot_vcpus, max_vcpus, window, lines@[0]);
}

/// Two managers have the same devices.
pub open spec fn same_devices(a: ACPIDeviceManager, b: ACPIDeviceManager) -> bool {
    &&& a.vmgenid_slot() == b.vmgenid_slot()
    &&& a.vmclock_slot() == b.vmclock_slot()
    &&& a.hotplug_slot() == b.hotplug_slot()
}

/// What the host could not provide ends the attaching as if there were no memory, which is error
/// number 12, and leaves the devices as they were.
pub proof fn hotplug_may_fail_to_attach(
    m: &mut ACPIDeviceManager,
    boot_vcpus: u8,
    max_vcpus: u8,
    event: AttachEvent,
    r: Result<AttachAction, ACPIDeviceError>,
)
    requires
        call_ensures(
            ACPIDeviceManager::attach_cpu_hotplug,
            (m, boot_vcpus, max_vcpus, event),
            r,
        ),
        match event {
            AttachEvent::Begin => false,
            AttachEvent::Gsi(lines) => lines is None,
            AttachEvent::Mmio { gsi, window } => window is None,
            AttachEvent::Interrupt { gsi, mmio_addr, interrupt_evt } => interrupt_evt is None,
        },
    ensures
        r is Err && r->Err_0 == ACPIDeviceError::RegisterIrq(12),
        same_devices(*final(m), *old(m)),
{
}

/// Each device is activated with its own interrupt line: that of VMGenID, of VMClock, and of the
/// controller, where there is one.
pub proof fn activation_registers_the_lines(
    m: ACPIDeviceManager,
    first: Result<ActivateAction, ACPIDeviceError>,
    second: Result<ActivateAction, ACPIDeviceError>,
    third: Result<ActivateAction, ACPIDeviceError>,
)
    requires
        m.vmgenid_slot() is Some,
        m.vmclock_slot() is Some,
        call_ensures(ACPIDeviceManager::activate_vmgenid, (&m, ActivateEvent::Begin), first),
        call_ensures(ACPIDeviceManager::activate_vmclock, (&m, ActivateEvent::Begin), second),
        call_ensures(ACPIDeviceManager::activate_cpu_hotplug, (&m, ActivateEvent::Begin), third),
    ensures
        first is Ok && first->Ok_0 == (ActivateAction::RegisterIrq {
            gsi: m.vmgenid_slot()->0.gsi,
        }),
        second is Ok && second->Ok_0 == (ActivateAction::RegisterIrq {
            gsi: m.vmclock_slot()->0.gsi,
        }),
        third is Ok,
        m.hotplug_slot() matches Some(controller) ==> third->Ok_0 == (
        ActivateAction::RegisterIrq { gsi: controller@.gsi }),
        m.hotplug_slot() is None ==> third->Ok_0 == ActivateAction::Done,
{
}

/// After its interrupt line a device writes to guest memory, and then it is active; the controller
/// has nothing to write. An error number of the host comes back as it is.
pub proof fn activation_goes_on(
    m: ACPIDeviceManager,
    registered: Result<(), i32>,
    first: Result<ActivateAction, ACPIDeviceError>,
    second: Result<ActivateAction, ACPIDeviceError>,
    third: Result<ActivateAction, ACPIDeviceError>,
)
    requires
        m.vmgenid_slot() is Some,
        m.vmclock_slot() is Some,
        call_ensures(
            ACPIDeviceManager::activate_vmgenid,
            (&m, ActivateEvent::IrqRegistered(registered)),
            first,
        ),
        call_ensures(
            ACPIDeviceManager::activate_vmclock,
            (&m, ActivateEvent::IrqRegistered(registered)),
            second,
        ),
        call_ensures(
            ACPIDeviceManager::activate_cpu_hotplug,
            (&m, ActivateEvent::IrqRegistered(registered)),
            third,
        ),
    ensures
        registered is Ok ==> first is Ok && first->Ok_0 == ActivateAction::Activate,
        registered is Ok ==> second is Ok && second->Ok_0 == ActivateAction::Activate,
        registered is Ok ==> third is Ok && third->Ok_0 == ActivateAction::Done,
        registered matches Err(errno) ==> {
            &&& first is Err && first->Err_0 == ACPIDeviceError::RegisterIrq(errno)
            &&& second is Err && second->Err_0 == ACPIDeviceError::RegisterIrq(errno)
            &&& third is Err && third->Err_0 == ACPIDeviceError::RegisterIrq(errno)
        },
{
}

/// How the writing to guest memory ends is how the activation ends, and how a restore ends: each
/// device with its own error.
pub proof fn outcomes_are_passed_on(
    m: ACPIDeviceManager,
    vmgenid: Result<(), VmGenIdError>,
    vmclock: Result<(), VmClockError>,
    first: Result<ActivateAction, ACPIDeviceError>,
    second: Result<ActivateAction, ACPIDeviceError>,
    third: Result<(), ACPIDeviceError>,
    fourth: Result<(), ACPIDeviceError>,
)
    requires
        m.vmgenid_slot() is Some,
        m.vmclock_slot() is Some,
        call_ensures(
            ACPIDeviceManager::activate_vmgenid,
            (&m, ActivateEvent::Activated(vmgenid)),
            first,
        ),
        call_ensures(
            ACPIDeviceManager::activate_vmclock,
            (&m, ActivateEvent::Activated(vmclock)),
            second,
        ),
        call_ensures(ACPIDeviceManager::do_post_restore_vmgenid, (&m, vmgenid), third),
        call_ensures(ACPIDeviceManager::do_post_restore_vmclock, (&m, vmclock), fourth),
    ensures
        match vmgenid {
            Ok(_) => first is Ok && first->Ok_0 == ActivateAction::Done && third is Ok,
            Err(e) => first is Err && first->Err_0 == ACPIDeviceError::VmGenId(e) && third is Err
                && third->Err_0 == ACPIDeviceError::VmGenId(e),
        },
        match vmclock {
            Ok(_) => second is Ok && second->Ok_0 == ActivateAction::Done && fourth is Ok,
            Err(e) => second is Err && second->Err_0 == ACPIDeviceError::VmClock(e) && fourth is Err
                && fourth->Err_0 == ACPIDeviceError::VmClock(e),
        },
{
}

/// What was there before is still there, and what came after it.
pub open spec fn appended(before: Seq<u8>, after: Seq<u8>) -> Seq<u8> {
    after.skip(before.len() as int)
}

/// Appending keeps what was there.
proof fn lemma_appended(before: Seq<u8>, more: Seq<u8>)
    ensures
        before.is_prefix_of(before + more),
        appended(before, before + more) == more,
{
    assert(before =~= (before + more).subrange(0, before.len() as int));
    assert(appended(before, before + more) =~= more);
}

/// The tables of a controller tell the guest where its registers are and which vCPUs it can have:
/// the region that the fields lie over starts at the controller's address and is twelve bytes
/// long, as is the range that is announced, and the vCPUs are those below the controller's
/// maximum. Tables there are if and only if the registers end within the address space and their
/// address can be pointed to; else nothing is appended.
pub proof fn controller_tables_fit_the_controller(
    c: CpuHotplugController,
    v: &mut Vec<u8>,
    r: Result<(), AmlError>,
    address: u64,
    max: u8,
)
    requires
        call_ensures(CpuHotplugController::mmio_addr, (&c,), address),
        call_ensures(CpuHotplugController::max_vcpus, (&c,), max),
        call_ensures(CpuHotplugController::append_aml_bytes, (&c, v), r),
    ensures
        r is Ok <==> address + 11 <= u64::MAX && address <= usize::MAX,
        r is Err ==> r->Err_0 == AmlError::AddressRange && final(v)@ == old(v)@,
        r is Ok ==> old(v)@.is_prefix_of(final(v)@) && describe_the_controller(
            reader::read_objects(appended(old(v)@, final(v)@)),
            address as int,
            max,
        ),
{
    if r is Ok {
        lemma_appended(old(v)@, cpu_aml::hotplug_aml(address, max));
        lemma_controller_described(address, max);
    }
}

/// The two devices describe a controller at the address and the vCPUs below the maximum.
pub open spec fn describe_the_controller(devices: Seq<Object>, address: int, max: u8) -> bool {
    &&& devices.len() == 2
    &&& tables::describes_registers(devices[0], address)
    &&& tables::describes_vcpus(devices[1], max)
}

/// The tables of a controller describe it.
proof fn lemma_controller_described(address: u64, max: u8)
    requires
        address + 11 <= u64::MAX,
    ensures
        describe_the_controller(
            reader::read_objects(cpu_aml::hotplug_aml(address, max)),
            address as int,
            max,
        ),
{
    tables::devices_are_read_in_turn(address, max, 0, 0, None);
    tables::registers_are_described(address);
    tables::vcpus_are_described(max);
    lemma_in_turn(
        cpu_aml::controller_device(address),
        cpu_aml::cpus_device(max),
        manager::ged_device(0, 0, None),
    );
}

/// What is read in turn, one by one.
proof fn lemma_in_turn(a: Seq<u8>, b: Seq<u8>, c: Seq<u8>)
    requires
        tables::are_read_in_turn(a, b, c),
    ensures
        reader::read_objects(a + b).len() == 2,
        reader::read_objects(a + b)[0] == reader::read_objects(a)[0],
        reader::read_objects(a + b)[1] == reader::read_objects(b)[0],
        reader::read_objects(a + b + c).len() == 3,
        reader::read_objects(a + b + c)[0] == reader::read_objects(a)[0],
        reader::read_objects(a + b + c)[1] == reader::read_objects(b)[0],
        reader::read_objects(a + b + c)[2] == reader::read_objects(c)[0],
{
}

/// The parts of the tables of the vCPUs, each alone: the device of a vCPU, the branch that notifies
/// it, and the methods that the vCPUs share.
pub proof fn parts_describe_themselves(
    device: CpuAml,
    branch: CpuNotify,
    notify: CtfyMethod,
    scan: CscnMethod,
    v: &mut Vec<u8>,
    w: &mut Vec<u8>,
    x: &mut Vec<u8>,
    y: &mut Vec<u8>,
    z: &mut Vec<u8>,
    i: int,
    event: int,
)
    requires
        call_ensures(CpuAml::append_aml_bytes, (&device, v), ()),
        call_ensures(CpuNotify::append_aml_bytes, (&branch, w), ()),
        call_ensures(CstaMethod::append_aml_bytes, (&CstaMethod, x), ()),
        call_ensures(CtfyMethod::append_aml_bytes, (&notify, y), ()),
        call_ensures(CscnMethod::append_aml_bytes, (&scan, z), ()),
    ensures
        old(v)@.is_prefix_of(final(v)@),
        old(w)@.is_prefix_of(final(w)@),
        old(x)@.is_prefix_of(final(x)@),
        old(y)@.is_prefix_of(final(y)@),
        old(z)@.is_prefix_of(final(z)@),
        reader::read_objects(appended(old(v)@, final(v)@)).len() == 1,
        tables::is_vcpu(
            reader::read_objects(appended(old(v)@, final(v)@))[0],
            device.cpu_id as int,
        ),
        ({
            let made = reader::effects(appended(old(w)@, final(w)@), (i, event));
            if i == branch.cpu_id {
                &&& made.len() == 1
                &&& made[0] is Notify
                &&& made[0]->value == event
                &&& made[0]->object.len() == 15
                &&& made[0]->object.take(11) == "\\_SB_.CPUS."@
                &&& tables::names_vcpu(made[0]->object.skip(11), branch.cpu_id as int)
            } else {
                made.len() == 0
            }
        }),
        reader::read_objects(appended(old(x)@, final(x)@)) == seq![
            Object::Method { name: "CSTA"@, flags: 9, body: guest::encode(guest::csta_body()) },
        ],
        reader::read_objects(appended(old(y)@, final(y)@)) == seq![
            Object::Method {
                name: "CTFY"@,
                flags: 10,
                body: cpu_aml::cpu_notifies(notify.max_vcpus as nat),
            },
        ],
        reader::read_objects(appended(old(z)@, final(z)@)) == seq![
            Object::Method {
                name: "CSCN"@,
                flags: 8,
                body: guest::encode(guest::cscn_body(scan.max_vcpus)),
            },
        ],
{
    lemma_appended(old(v)@, cpu_aml::cpu_device(device.cpu_id));
    lemma_appended(old(w)@, cpu_aml::cpu_notify(branch.cpu_id));
    lemma_appended(old(x)@, cpu_aml::csta_method());
    lemma_appended(old(y)@, cpu_aml::ctfy_method(notify.max_vcpus));
    lemma_appended(old(z)@, cpu_aml::cscn_method(scan.max_vcpus));
    tables::vcpu_device_is_described(device.cpu_id);
    tables::branch_notifies_its_vcpu(branch.cpu_id, i, event);
    tables::shared_methods_are_described(notify.max_vcpus);
    tables::shared_methods_are_described(scan.max_vcpus);
}

/// The tables of a machine whose devices can all be described: those of VMGenID and VMClock as they
/// are, then those of the controller, where there is one, then the event device. It announces the
/// interrupt lines of these devices, and an interrupt on a line below 256 notifies the device whose
/// line it is.
pub proof fn machine_tables_fit_the_devices(
    m: ACPIDeviceManager,
    v: &mut Vec<u8>,
    r: Result<(), AmlError>,
    event: int,
    other: int,
)
    requires
        m.vmgenid_slot() is Some,
        m.vmclock_slot() is Some,
        m.vmgenid_slot()->0.aml is Ok,
        m.vmclock_slot()->0.aml is Ok,
        m.hotplug_slot() matches Some(c) ==> c@.mmio_addr + 11 <= u64::MAX && c@.mmio_addr
            <= usize::MAX,
        call_ensures(ACPIDeviceManager::append_aml_bytes, (&m, v), r),
    ensures
        r is Ok,
        ({
            let vmgenid = m.vmgenid_slot()->0;
            let vmclock = m.vmclock_slot()->0;
            let before = old(v)@ + vmgenid.aml->Ok_0@ + vmclock.aml->Ok_0@;
            let devices = reader::read_objects(appended(before, final(v)@));
            let last = devices[devices.len() - 1];
            let made = tables::handled(last, event, other);
            &&& before.is_prefix_of(final(v)@)
            &&& devices.len() == if m.hotplug_slot() is Some {
                3int
            } else {
                1
            }
            &&& m.hotplug_slot() matches Some(c) ==> {
                &&& tables::describes_registers(devices[0], c@.mmio_addr as int)
                &&& tables::describes_vcpus(devices[1], c@.max_vcpus)
            }
            &&& tables::describes_events(
                last,
                vmgenid.gsi,
                vmclock.gsi,
                match m.hotplug_slot() {
                    Some(c) => Some(c@.gsi),
                    None => None,
                },
            )
            &&& vmgenid.gsi < 0x100 ==> (made.contains(
                Effect::Notify { object: "\\_SB_.VGEN"@, value: 0x80 },
            ) <==> event == vmgenid.gsi)
            &&& vmclock.gsi < 0x100 ==> (made.contains(
                Effect::Notify { object: "\\_SB_.VCLK"@, value: 0x80 },
            ) <==> event == vmclock.gsi)
            &&& made.contains(Effect::Call { method: "\\_SB_.CPUS.CSCN"@ }) <==> m.hotplug_slot()
                is Some
        }),
{
    let vmgenid = m.vmgenid_slot()->0;
    let vmclock = m.vmclock_slot()->0;
    let before = old(v)@ + vmgenid.aml->Ok_0@ + vmclock.aml->Ok_0@;
    let line = match m.hotplug_slot() {
        Some(c) => Some(c@.gsi),
        None => None,
    };
    let events = manager::ged_device(vmgenid.gsi, vmclock.gsi, line);
    tables::events_are_handled(vmgenid.gsi, vmclock.gsi, line, event, other);
    lemma_event_effects(vmgenid.gsi, vmclock.gsi, line, event, other);
    match m.hotplug_slot() {
        Some(c) => {
            let pres = cpu_aml::controller_device(c@.mmio_addr);
            let cpus = cpu_aml::cpus_device(c@.max_vcpus);
            tables::devices_are_read_in_turn(
                c@.mmio_addr,
                c@.max_vcpus,
                vmgenid.gsi,
                vmclock.gsi,
                line,
            );
            tables::registers_are_described(c@.mmio_addr);
            tables::vcpus_are_described(c@.max_vcpus);
            lemma_in_turn(pres, cpus, events);
            lemma_appended(before, pres + cpus + events);
            lemma_grouped(
                old(v)@,
                vmgenid.aml->Ok_0@,
                vmclock.aml->Ok_0@,
                pres + cpus,
                events,
            );
        },
        None => {
            lemma_appended(before, events);
            lemma_grouped(old(v)@, vmgenid.aml->Ok_0@, vmclock.aml->Ok_0@, seq![], events);
            assert(Seq::<u8>::empty() + events =~= events);
        },
    }
}

/// Five pieces, however they are grouped.
proof fn lemma_grouped(a: Seq<u8>, b: Seq<u8>, c: Seq<u8>, d: Seq<u8>, e: Seq<u8>)
    ensures
        a + (b + c + d + e) == a + b + c + (d + e),
{
    assert(a + (b + c + d + e) =~= a + b + c + (d + e));
}

/// What the handler of the event device does, effect by effect.
proof fn lemma_event_effects(
    vmgenid_gsi: u32,
    vmclock_gsi: u32,
    hotplug_gsi: Option<u32>,
    event: int,
    other: int,
)
    ensures
        ({
            let read = reader::read_objects(
                manager::ged_device(vmgenid_gsi, vmclock_gsi, hotplug_gsi),
            );
            let made = tables::handled(read[0], event, other);
            &&& made.contains(Effect::Notify { object: "\\_SB_.VGEN"@, value: 0x80 }) <==> event
                == vmgenid_gsi % 0x100
            &&& made.contains(Effect::Notify { object: "\\_SB_.VCLK"@, value: 0x80 }) <==> event
                == vmclock_gsi % 0x100
            &&& made.contains(Effect::Call { method: "\\_SB_.CPUS.CSCN"@ }) <==> hotplug_gsi
                is Some
        }),
{
    tables::events_are_handled(vmgenid_gsi, vmclock_gsi, hotplug_gsi, event, other);
    let read = reader::read_objects(manager::ged_device(vmgenid_gsi, vmclock_gsi, hotplug_gsi));
    let made = tables::handled(read[0], event, other);
    let vgen = Effect::Notify { object: "\\_SB_.VGEN"@, value: 0x80 };
    let vclk = Effect::Notify { object: "\\_SB_.VCLK"@, value: 0x80 };
    let scan = Effect::Call { method: "\\_SB_.CPUS.CSCN"@ };
    reveal_strlit("\\_SB_.VGEN");
    reveal_strlit("\\_SB_.VCLK");
    assert("\\_SB_.VGEN"@[7] == 'G' && "\\_SB_.VCLK"@[7] == 'C');
    assert(vgen != vclk);
    let first = if event == vmgenid_gsi % 0x100 {
        seq![vgen]
    } else {
        seq![]
    };
    let second = if event == vmclock_gsi % 0x100 {
        seq![vclk]
    } else {
        seq![]
    };
    let third = if hotplug_gsi is Some {
        seq![scan]
    } else {
        seq![]
    };
    assert(made == first + second + third);
    if event == vmgenid_gsi % 0x100 {
        assert(made[0] == vgen);
    }
    if event == vmclock_gsi % 0x100 {
        assert(made[first.len() as int] == vclk);
    }
    if hotplug_gsi is Some {
        assert(made[first.len() + second.len() as int] == scan);
    }
}

/// The tables end before the first device that cannot be described, and its error comes back.
pub proof fn machine_tables_end_at_an_error(
    m: ACPIDeviceManager,
    v: &mut Vec<u8>,
    r: Result<(), AmlError>,
)
    requires
        m.vmgenid_slot() is Some,
        m.vmclock_slot() is Some,
        call_ensures(ACPIDeviceManager::append_aml_bytes, (&m, v), r),
    ensures
        match (m.vmgenid_slot()->0.aml, m.vmclock_slot()->0.aml) {
            (Err(e), _) => r is Err && r->Err_0 == e && final(v)@ == old(v)@,
            (Ok(vmgenid), Err(e)) => r is Err && r->Err_0 == e && final(v)@ == old(v)@ + vmgenid@,
            (Ok(vmgenid), Ok(vmclock)) => match m.hotplug_slot() {
                Some(c) => {
                    if c@.mmio_addr + 11 > u64::MAX || c@.mmio_addr > usize::MAX {
                        &&& r is Err
                        &&& r->Err_0 == AmlError::AddressRange
                        &&& final(v)@ == old(v)@ + vmgenid@ + vmclock@
                    } else {
                        r is Ok
                    }
                },
                None => r is Ok,
            },
        },
{
    let vmgenid = m.vmgenid_slot()->0.aml;
    let vmclock = m.vmclock_slot()->0.aml;
    assert(old(v)@ + seq![] =~= old(v)@);
    if vmgenid is Ok && vmclock is Ok {
        assert(old(v)@ + (vmgenid->Ok_0@ + vmclock->Ok_0@) =~= old(v)@ + vmgenid->Ok_0@
            + vmclock->Ok_0@);
    }
}

/// The controller that the manager hands out to operate is the one that it has, and what is done to
/// it is done to that one. The other devices stay as they are.
pub proof fn operating_the_controller(
    m: &mut ACPIDeviceManager,
    r: Option<&mut CpuHotplugController>,
)
    requires
        call_ensures(ACPIDeviceManager::cpu_hotplug_mut, (m,), r),
    ensures
        match r {
            Some(c) => old(m).hotplug_slot() == Some(*c) && final(m).hotplug_slot() == Some(
                *final(c),
            ),
            None => old(m).hotplug_slot() is None && final(m).hotplug_slot() is None,
        },
        final(m).vmgenid_slot() == old(m).vmgenid_slot(),
        final(m).vmclock_slot() == old(m).vmclock_slot(),
{
}

} // verus!
