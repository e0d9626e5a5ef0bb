//! The ACPI devices of one machine: VMGenID, VMClock and, where it is configured, the CPU hotplug
//! controller, with the generic event device through which all of them reach the guest.
//!
//! Allocating resources and registering interrupts is work of the host. An operation that needs
//! it takes an event, what the host has just done, and returns an action, what it is to do next.

use vmm_sys_util::eventfd::EventFd;
use vstd::prelude::*;

use crate::aml::grammar;
use crate::aml::objects;
use crate::aml::terms;
use crate::controller::{CpuHotplugController, CPU_HOTPLUG_MMIO_SIZE};
use crate::cpu_aml;
use crate::cpu_aml::AmlError;

verus! {

/// Error number of the host for "out of memory".
pub const ENOMEM: i32 = 12;

/// Alignment of the register window.
pub const CPU_HOTPLUG_MMIO_ALIGNMENT: u64 = 8;

/// What the VMGenID device failed on, in words.
#[derive(Debug)]
pub struct VmGenIdError {
    pub message: String,
}

/// What the VMClock device failed on, in words.
#[derive(Debug)]
pub struct VmClockError {
    pub message: String,
}

/// Why an ACPI device could not be attached, activated or restored.
#[derive(Debug)]
pub enum ACPIDeviceError {
    /// VMGenID failed.
    VmGenId(VmGenIdError),
    /// VMClock failed.
    VmClock(VmClockError),
    /// The interrupt could not be registered; the error number says why.
    RegisterIrq(i32),
}

/// The VMGenID device as the manager sees it: its interrupt line, and its AML or why there is
/// none.
#[derive(Debug)]
pub struct VmGenId {
    pub gsi: u32,
    pub aml: Result<Vec<u8>, AmlError>,
}

/// The VMClock device as the manager sees it: its interrupt line, and its AML or why there is
/// none.
#[derive(Debug)]
pub struct VmClock {
    pub gsi: u32,
    pub aml: Result<Vec<u8>, AmlError>,
}

/// What the host has done to attach the CPU hotplug controller.
#[derive(Debug)]
pub enum AttachEvent {
    /// Nothing yet.
    Begin,
    /// It has allocated interrupt lines, or failed to.
    Gsi(Option<Vec<u32>>),
    /// It has allocated the register window, or failed to.
    Mmio { gsi: u32, window: Option<u64> },
    /// It has made an event descriptor, or failed to.
    Interrupt { gsi: u32, mmio_addr: u64, interrupt_evt: Option<EventFd> },
}

/// What the host is to do to attach the CPU hotplug controller.
#[derive(Debug)]
pub enum AttachAction {
    /// Allocate `count` interrupt lines.
    AllocateGsi { count: u32 },
    /// Allocate addresses below 4 GiB, the first that fit.
    AllocateMmio { gsi: u32, size: u64, alignment: u64 },
    /// Make an event descriptor.
    CreateEvent { gsi: u32, mmio_addr: u64 },
    /// Nothing: the controller is attached.
    Attached,
}

/// What the host has done to activate a device.
#[derive(Debug)]
pub enum ActivateEvent<E> {
    /// Nothing yet.
    Begin,
    /// It has registered the interrupt, or failed to with an error number.
    IrqRegistered(Result<(), i32>),
    /// It has had the device write to guest memory, or failed to.
    Activated(Result<(), E>),
}

/// What the host is to do to activate a device.
#[derive(Debug)]
pub enum ActivateAction {
    /// Register the device's event descriptor for this interrupt line.
    RegisterIrq { gsi: u32 },
    /// Have the device write to guest memory.
    Activate,
    /// Nothing: the device is active.
    Done,
}

/// The devices of one machine. VMGenID and VMClock are always there once they are attached; they
/// are attached one by one so that interrupt lines are given out in a fixed order.
#[derive(Debug)]
pub struct ACPIDeviceManager {
    /// VMGenID device.
    vmgenid: Option<VmGenId>,
    /// VMClock device.
    vmclock: Option<VmClock>,
    /// CPU hotplug controller, where there is one.
    cpu_hotplug: Option<CpuHotplugController>,
}

/// The low byte of an interrupt line, which is what the event method compares.
pub open spec fn gsi_byte(gsi: u32) -> u8 {
    (gsi % 0x100) as u8
}

/// Descriptor of a device's interrupt: consumed, edge-triggered, active high, not shared.
pub open spec fn device_interrupt(gsi: u32) -> Seq<u8> {
    grammar::interrupt(true, true, false, false, gsi)
}

/// The branch of the event method for one device: if the event is its interrupt, notify it.
pub open spec fn event_branch(gsi: u32, device: Seq<char>) -> Seq<u8> {
    grammar::if_then(
        grammar::equal(grammar::arg(0), grammar::integer(gsi_byte(gsi) as u64)),
        grammar::notify(grammar::path(device), grammar::integer(0x80)),
    )
}

/// The generic event device: the interrupts of the devices, and the method that handles them.
/// With CPU hotplug it also has the vCPUs scanned, whatever the event is.
pub open spec fn ged_device(vmgenid_gsi: u32, vmclock_gsi: u32, hotplug_gsi: Option<u32>) -> Seq<
    u8,
> {
    let two = device_interrupt(vmgenid_gsi) + device_interrupt(vmclock_gsi);
    let interrupts = match hotplug_gsi {
        Some(gsi) => two + device_interrupt(gsi),
        None => two,
    };
    let branches = event_branch(vmgenid_gsi, "\\_SB_.VGEN"@) + event_branch(
        vmclock_gsi,
        "\\_SB_.VCLK"@,
    );
    let handler = match hotplug_gsi {
        Some(gsi) => branches + grammar::call("\\_SB_.CPUS.CSCN"@, seq![]),
        None => branches,
    };
    grammar::device(
        "_SB_.GED_"@,
        grammar::named("_HID"@, grammar::string("ACPI0013"@)) + grammar::named(
            "_CRS"@,
            grammar::resource_template(interrupts),
        ) + grammar::method("_EVT"@, 1, true, handler),
    )
}

/// The AML that a CPU hotplug controller, where there is one, contributes; nothing if it cannot
/// be made.
pub open spec fn hotplug_part(cpu_hotplug: Option<CpuHotplugController>) -> Result<
    Seq<u8>,
    AmlError,
> {
    match cpu_hotplug {
        Some(controller) => if cpu_aml::window_fits(controller@.mmio_addr) {
            Ok(cpu_aml::hotplug_aml(controller@.mmio_addr, controller@.max_vcpus))
        } else {
            Err(AmlError::AddressRange)
        },
        None => Ok(seq![]),
    }
}

/// The interrupt line of a CPU hotplug controller, where there is one.
pub open spec fn hotplug_gsi(cpu_hotplug: Option<CpuHotplugController>) -> Option<u32> {
    match cpu_hotplug {
        Some(controller) => Some(controller@.gsi),
        None => None,
    }
}

/// The AML of all devices, up to the first that cannot be made, and its error.
pub open spec fn devices_aml(
    vmgenid: VmGenId,
    vmclock: VmClock,
    cpu_hotplug: Option<CpuHotplugController>,
) -> (Seq<u8>, Result<(), AmlError>) {
    match vmgenid.aml {
        Err(e) => (seq![], Err(e)),
        Ok(vmgenid_aml) => match vmclock.aml {
            Err(e) => (vmgenid_aml@, Err(e)),
            Ok(vmclock_aml) => match hotplug_part(cpu_hotplug) {
                Err(e) => (vmgenid_aml@ + vmclock_aml@, Err(e)),
                Ok(hotplug_aml) => (
                    vmgenid_aml@ + vmclock_aml@ + hotplug_aml + ged_device(
                        vmgenid.gsi,
                        vmclock.gsi,
                        hotplug_gsi(cpu_hotplug),
                    ),
                    Ok(()),
                ),
            },
        },
    }
}

/// The names in the event device.
proof fn lemma_ged_names()
    ensures
        grammar::is_path("_SB_.GED_"@),
        grammar::is_path("_HID"@),
        grammar::is_path("_CRS"@),
        grammar::is_path("_EVT"@),
        grammar::is_path("\\_SB_.VGEN"@),
        grammar::is_path("\\_SB_.VCLK"@),
        grammar::is_path("\\_SB_.CPUS.CSCN"@),
        grammar::path("_HID"@).len() == 4,
        grammar::path("_CRS"@).len() == 4,
        grammar::path("_EVT"@).len() == 4,
        grammar::path("\\_SB_.VGEN"@).len() == 10,
        grammar::path("\\_SB_.VCLK"@).len() == 10,
        grammar::path("\\_SB_.CPUS.CSCN"@).len() == 15,
        grammar::is_ascii("ACPI0013"@),
        "ACPI0013"@.len() == 8,
{
    reveal_strlit("_SB_.GED_");
    reveal_strlit("_HID");
    reveal_strlit("_CRS");
    reveal_strlit("_EVT");
    reveal_strlit("\\_SB_.VGEN");
    reveal_strlit("\\_SB_.VCLK");
    reveal_strlit("\\_SB_.CPUS.CSCN");
    reveal_strlit("ACPI0013");
    grammar::lemma_two_segments("_SB_.GED_"@);
    grammar::lemma_one_segment("_HID"@);
    grammar::lemma_one_segment("_CRS"@);
    grammar::lemma_one_segment("_EVT"@);
    grammar::lemma_two_rooted_segments("\\_SB_.VGEN"@);
    grammar::lemma_two_rooted_segments("\\_SB_.VCLK"@);
    grammar::lemma_three_rooted_segments("\\_SB_.CPUS.CSCN"@);
}

impl Default for ACPIDeviceManager {
    fn default() -> (r: Self)
        ensures
            r.vmgenid_slot() is None,
            r.vmclock_slot() is None,
            r.hotplug_slot() is None,
    {
        ACPIDeviceManager { vmgenid: None, vmclock: None, cpu_hotplug: None }
    }
}

impl ACPIDeviceManager {
    /// The VMGenID device, once it is attached.
    pub closed spec fn vmgenid_slot(&self) -> Option<VmGenId> {
        self.vmgenid
    }

    /// The VMClock device, once it is attached.
    pub closed spec fn vmclock_slot(&self) -> Option<VmClock> {
        self.vmclock
    }

    /// The CPU hotplug controller, where there is one.
    pub closed spec fn hotplug_slot(&self) -> Option<CpuHotplugController> {
        self.cpu_hotplug
    }

    /// A manager of devices that exist already, as after a restore.
    pub fn new(
        vmgenid: VmGenId,
        vmclock: VmClock,
        cpu_hotplug: Option<CpuHotplugController>,
    ) -> (r: Self)
        ensures
            r.vmgenid_slot() == Some(vmgenid),
            r.vmclock_slot() == Some(vmclock),
            r.hotplug_slot() == cpu_hotplug,
    {
        ACPIDeviceManager { vmgenid: Some(vmgenid), vmclock: Some(vmclock), cpu_hotplug }
    }

    /// Attaches the VMGenID device that the host has made, or passes on why it could not.
    pub fn attach_vmgenid(&mut self, device: Result<VmGenId, VmGenIdError>) -> (r: Result<
        (),
        ACPIDeviceError,
    >)
        ensures
            final(self).vmclock_slot() == old(self).vmclock_slot(),
            final(self).hotplug_slot() == old(self).hotplug_slot(),
            match device {
                Ok(vmgenid) => r is Ok && final(self).vmgenid_slot() == Some(vmgenid),
                Err(e) => r == Err::<(), ACPIDeviceError>(ACPIDeviceError::VmGenId(e))
                    && final(self).vmgenid_slot() == old(self).vmgenid_slot(),
            },
    {
        match device {
            Ok(vmgenid) => {
                self.vmgenid = Some(vmgenid);
                Ok(())
            },
            Err(e) => Err(ACPIDeviceError::VmGenId(e)),
        }
    }

    /// Attaches the VMClock device that the host has made, or passes on why it could not.
    pub fn attach_vmclock(&mut self, device: Result<VmClock, VmClockError>) -> (r: Result<
        (),
        ACPIDeviceError,
    >)
        ensures
            final(self).vmgenid_slot() == old(self).vmgenid_slot(),
            final(self).hotplug_slot() == old(self).hotplug_slot(),
            match device {
                Ok(vmclock) => r is Ok && final(self).vmclock_slot() == Some(vmclock),
                Err(e) => r == Err::<(), ACPIDeviceError>(ACPIDeviceError::VmClock(e))
                    && final(self).vmclock_slot() == old(self).vmclock_slot(),
            },
    {
        match device {
            Ok(vmclock) => {
                self.vmclock = Some(vmclock);
                Ok(())
            },
            Err(e) => Err(ACPIDeviceError::VmClock(e)),
        }
    }

    /// Whether the VMGenID device is attached.
    pub fn has_vmgenid(&self) -> (r: bool)
        ensures
            r == (self.vmgenid_slot() is Some),
    {
        self.vmgenid.is_some()
    }

    /// Whether the VMClock device is attached.
    pub fn has_vmclock(&self) -> (r: bool)
        ensures
            r == (self.vmclock_slot() is Some),
    {
        self.vmclock.is_some()
    }

    /// The VMGenID device.
    pub fn vmgenid(&self) -> (r: &VmGenId)
        requires
            self.vmgenid_slot() is Some,
        ensures
            Some(*r) == self.vmgenid_slot(),
    {
        self.vmgenid.as_ref().unwrap()
    }

    /// The VMClock device.
    pub fn vmclock(&self) -> (r: &VmClock)
        requires
            self.vmclock_slot() is Some,
        ensures
            Some(*r) == self.vmclock_slot(),
    {
        self.vmclock.as_ref().unwrap()
    }

    /// The CPU hotplug controller, where there is one.
    pub fn cpu_hotplug(&self) -> (r: Option<&CpuHotplugController>)
        ensures
            r matches Some(controller) ==> self.hotplug_slot() == Some(*controller),
            r is None ==> self.hotplug_slot() is None,
    {
        self.cpu_hotplug.as_ref()
    }

    /// The CPU hotplug controller, where there is one, to operate it.
    pub fn cpu_hotplug_mut(&mut self) -> (r: Option<&mut CpuHotplugController>)
        ensures
            final(self).vmgenid_slot() == old(self).vmgenid_slot(),
            final(self).vmclock_slot() == old(self).vmclock_slot(),
            match r {
                Some(controller) => old(self).hotplug_slot() == Some(*controller)
                    && final(self).hotplug_slot() == Some(*final(controller)),
                None => old(self).hotplug_slot() is None && final(self).hotplug_slot() is None,
            },
    {
        match &mut self.cpu_hotplug {
            Some(controller) => Some(controller),
            None => None,
        }
    }

    /// Attaches a CPU hotplug controller, step by step: one interrupt line, then the register
    /// window, then an event descriptor. What the host could not provide ends it with an error
    /// and leaves the manager as it was.
    pub fn attach_cpu_hotplug(&mut self, boot_vcpus: u8, max_vcpus: u8, event: AttachEvent) -> (r:
        Result<AttachAction, ACPIDeviceError>)
        requires
            event matches AttachEvent::Gsi(Some(gsis)) ==> gsis@.len() > 0,
        ensures
            final(self).vmgenid_slot() == old(self).vmgenid_slot(),
            final(self).vmclock_slot() == old(self).vmclock_slot(),
            match event {
                AttachEvent::Begin => r == Ok::<AttachAction, ACPIDeviceError>(
                    AttachAction::AllocateGsi { count: 1 },
                ),
                AttachEvent::Gsi(Some(gsis)) => r == Ok::<AttachAction, ACPIDeviceError>(
                    AttachAction::AllocateMmio {
                        gsi: gsis@[0],
                        size: CPU_HOTPLUG_MMIO_SIZE,
                        alignment: CPU_HOTPLUG_MMIO_ALIGNMENT,
                    },
                ),
                AttachEvent::Mmio { gsi, window: Some(mmio_addr) } => r == Ok::<
                    AttachAction,
                    ACPIDeviceError,
                >(AttachAction::CreateEvent { gsi, mmio_addr }),
                AttachEvent::Interrupt { interrupt_evt: Some(_), .. } => r == Ok::<
                    AttachAction,
                    ACPIDeviceError,
                >(AttachAction::Attached),
                AttachEvent::Gsi(None)
                | AttachEvent::Mmio { window: None, .. }
                | AttachEvent::Interrupt { interrupt_evt: None, .. } => r == Err::<
                    AttachAction,
                    ACPIDeviceError,
                >(ACPIDeviceError::RegisterIrq(ENOMEM)),
            },
            match event {
                AttachEvent::Interrupt { gsi, mmio_addr, interrupt_evt: Some(interrupt_evt) } => {
                    &&& final(self).hotplug_slot() matches Some(controller)
                    &&& controller@ == crate::controller::Controller::booted(
                        boot_vcpus,
                        max_vcpus,
                        mmio_addr,
                        gsi,
                    )
                    &&& controller.event() == interrupt_evt
                },
                _ => final(self).hotplug_slot() == old(self).hotplug_slot(),
            },
    {
        match event {
            AttachEvent::Begin => Ok(AttachAction::AllocateGsi { count: 1 }),
            AttachEvent::Gsi(Some(gsis)) => Ok(
                AttachAction::AllocateMmio {
                    gsi: gsis[0],
                    size: CPU_HOTPLUG_MMIO_SIZE,
                    alignment: CPU_HOTPLUG_MMIO_ALIGNMENT,
                },
            ),
            AttachEvent::Mmio { gsi, window: Some(mmio_addr) } => Ok(
                AttachAction::CreateEvent { gsi, mmio_addr },
            ),
            AttachEvent::Interrupt { gsi, mmio_addr, interrupt_evt: Some(interrupt_evt) } => {
                let controller = CpuHotplugController::new(
                    boot_vcpus,
                    max_vcpus,
                    mmio_addr,
                    gsi,
                    interrupt_evt,
                );
                self.cpu_hotplug = Some(controller);
                Ok(AttachAction::Attached)
            },
            _ => Err(ACPIDeviceError::RegisterIrq(ENOMEM)),
        }
    }

    /// Activates the CPU hotplug controller, where there is one: its interrupt is registered.
    pub fn activate_cpu_hotplug(&self, event: ActivateEvent<()>) -> (r: Result<
        ActivateAction,
        ACPIDeviceError,
    >)
        ensures
            r == (match event {
                ActivateEvent::Begin => Ok::<ActivateAction, ACPIDeviceError>(
                    match self.hotplug_slot() {
                        Some(controller) => ActivateAction::RegisterIrq { gsi: controller@.gsi },
                        None => ActivateAction::Done,
                    },
                ),
                ActivateEvent::IrqRegistered(Err(errno)) => Err::<ActivateAction, ACPIDeviceError>(
                    ACPIDeviceError::RegisterIrq(errno),
                ),
                _ => Ok::<ActivateAction, ACPIDeviceError>(ActivateAction::Done),
            }),
    {
        match event {
            ActivateEvent::Begin => match &self.cpu_hotplug {
                Some(controller) => Ok(ActivateAction::RegisterIrq { gsi: controller.gsi() }),
                None => Ok(ActivateAction::Done),
            },
            ActivateEvent::IrqRegistered(Err(errno)) => Err(ACPIDeviceError::RegisterIrq(errno)),
            _ => Ok(ActivateAction::Done),
        }
    }

    /// Activates VMGenID: its interrupt is registered, then it writes to guest memory.
    pub fn activate_vmgenid(&self, event: ActivateEvent<VmGenIdError>) -> (r: Result<
        ActivateAction,
        ACPIDeviceError,
    >)
        requires
            self.vmgenid_slot() is Some,
        ensures
            r == (match event {
                ActivateEvent::Begin => Ok::<ActivateAction, ACPIDeviceError>(
                    ActivateAction::RegisterIrq { gsi: self.vmgenid_slot()->0.gsi },
                ),
                ActivateEvent::IrqRegistered(Ok(_)) => Ok::<ActivateAction, ACPIDeviceError>(
                    ActivateAction::Activate,
                ),
                ActivateEvent::IrqRegistered(Err(errno)) => Err::<ActivateAction, ACPIDeviceError>(
                    ACPIDeviceError::RegisterIrq(errno),
                ),
                ActivateEvent::Activated(Ok(_)) => Ok::<ActivateAction, ACPIDeviceError>(
                    ActivateAction::Done,
                ),
                ActivateEvent::Activated(Err(e)) => Err::<ActivateAction, ACPIDeviceError>(
                    ACPIDeviceError::VmGenId(e),
                ),
            }),
    {
        match event {
            ActivateEvent::Begin => Ok(ActivateAction::RegisterIrq { gsi: self.vmgenid().gsi }),
            ActivateEvent::IrqRegistered(Ok(_)) => Ok(ActivateAction::Activate),
            ActivateEvent::IrqRegistered(Err(errno)) => Err(ACPIDeviceError::RegisterIrq(errno)),
            ActivateEvent::Activated(Ok(_)) => Ok(ActivateAction::Done),
            ActivateEvent::Activated(Err(e)) => Err(ACPIDeviceError::VmGenId(e)),
        }
    }

    /// Activates VMClock: its interrupt is registered, then it writes to guest memory.
    pub fn activate_vmclock(&self, event: ActivateEvent<VmClockError>) -> (r: Result<
        ActivateAction,
        ACPIDeviceError,
    >)
        requires
            self.vmclock_slot() is Some,
        ensures
            r == (match event {
                ActivateEvent::Begin => Ok::<ActivateAction, ACPIDeviceError>(
                    ActivateAction::RegisterIrq { gsi: self.vmclock_slot()->0.gsi },
                ),
                ActivateEvent::IrqRegistered(Ok(_)) => Ok::<ActivateAction, ACPIDeviceError>(
                    ActivateAction::Activate,
                ),
                ActivateEvent::IrqRegistered(Err(errno)) => Err::<ActivateAction, ACPIDeviceError>(
                    ACPIDeviceError::RegisterIrq(errno),
                ),
                ActivateEvent::Activated(Ok(_)) => Ok::<ActivateAction, ACPIDeviceError>(
                    ActivateAction::Done,
                ),
                ActivateEvent::Activated(Err(e)) => Err::<ActivateAction, ACPIDeviceError>(
                    ACPIDeviceError::VmClock(e),
                ),
            }),
    {
        match event {
            ActivateEvent::Begin => Ok(ActivateAction::RegisterIrq { gsi: self.vmclock().gsi }),
            ActivateEvent::IrqRegistered(Ok(_)) => Ok(ActivateAction::Activate),
            ActivateEvent::IrqRegistered(Err(errno)) => Err(ACPIDeviceError::RegisterIrq(errno)),
            ActivateEvent::Activated(Ok(_)) => Ok(ActivateAction::Done),
            ActivateEvent::Activated(Err(e)) => Err(ACPIDeviceError::VmClock(e)),
        }
    }

    /// Passes on how VMGenID came through a restore.
    pub fn do_post_restore_vmgenid(&self, outcome: Result<(), VmGenIdError>) -> (r: Result<
        (),
        ACPIDeviceError,
    >)
        requires
            self.vmgenid_slot() is Some,
        ensures
            r == (match outcome {
                Ok(_) => Ok::<(), ACPIDeviceError>(()),
                Err(e) => Err::<(), ACPIDeviceError>(ACPIDeviceError::VmGenId(e)),
            }),
    {
        match outcome {
            Ok(_) => Ok(()),
            Err(e) => Err(ACPIDeviceError::VmGenId(e)),
        }
    }

    /// Passes on how VMClock came through a restore.
    pub fn do_post_restore_vmclock(&self, outcome: Result<(), VmClockError>) -> (r: Result<
        (),
        ACPIDeviceError,
    >)
        requires
            self.vmclock_slot() is Some,
        ensures
            r == (match outcome {
                Ok(_) => Ok::<(), ACPIDeviceError>(()),
                Err(e) => Err::<(), ACPIDeviceError>(ACPIDeviceError::VmClock(e)),
            }),
    {
        match outcome {
            Ok(_) => Ok(()),
            Err(e) => Err(ACPIDeviceError::VmClock(e)),
        }
    }

    /// The branch of the event method for one device.
    fn event_branch(gsi: u32, device: &str) -> (r: Vec<u8>)
        requires
            grammar::is_path(device@),
            grammar::path(device@).len() == 10,
        ensures
            r@ == event_branch(gsi, device@),
            r@.len() < 0x40,
    {
        let gsi_u8 = (gsi % 0x100) as u8;
        let notify = terms::notify(objects::path(device), objects::size(0x80));
        let is_device = terms::equal(objects::arg(0), objects::byte(gsi_u8));
        terms::if_then(is_device, notify)
    }

    /// The generic event device.
    fn ged_aml(vmgenid_gsi: u32, vmclock_gsi: u32, hotplug_gsi: Option<u32>) -> (r: Vec<u8>)
        ensures
            r@ == ged_device(vmgenid_gsi, vmclock_gsi, hotplug_gsi),
    {
        proof {
            lemma_ged_names();
        }
        let mut interrupts = terms::join(
            objects::interrupt(true, true, false, false, vmgenid_gsi),
            objects::interrupt(true, true, false, false, vmclock_gsi),
        );
        let mut handler = terms::join(
            Self::event_branch(vmgenid_gsi, "\\_SB_.VGEN"),
            Self::event_branch(vmclock_gsi, "\\_SB_.VCLK"),
        );
        if let Some(gsi) = hotplug_gsi {
            interrupts = terms::join(
                interrupts,
                objects::interrupt(true, true, false, false, gsi),
            );
            handler = terms::join(handler, terms::call("\\_SB_.CPUS.CSCN", Vec::new()));
        }
        let ged_hid = terms::named("_HID", objects::string("ACPI0013"));
        let ged_crs = terms::named("_CRS", terms::resource_template(interrupts));
        let ged_evt = terms::method("_EVT", 1, true, handler);
        let body = terms::join(ged_hid, ged_crs);
        let body = terms::join(body, ged_evt);
        terms::device("_SB_.GED_", body)
    }

    /// Appends the AML of all devices and of the event device, up to the first that has none.
    pub fn append_aml_bytes(&self, v: &mut Vec<u8>) -> (r: Result<(), AmlError>)
        requires
            self.vmgenid_slot() is Some,
            self.vmclock_slot() is Some,
        ensures
            r == devices_aml(
                self.vmgenid_slot()->0,
                self.vmclock_slot()->0,
                self.hotplug_slot(),
            ).1,
            final(v)@ == old(v)@ + devices_aml(
                self.vmgenid_slot()->0,
                self.vmclock_slot()->0,
                self.hotplug_slot(),
            ).0,
    {
        let ghost start = v@;
        match &self.vmgenid().aml {
            Ok(aml) => append_copy(v, aml),
            Err(e) => {
                assert(v@ =~= start + seq![]);
                return Err(*e);
            },
        }
        let ghost vmgenid_aml = self.vmgenid_slot()->0.aml->Ok_0@;
        match &self.vmclock().aml {
            Ok(aml) => append_copy(v, aml),
            Err(e) => return Err(*e),
        }
        let ghost vmclock_aml = self.vmclock_slot()->0.aml->Ok_0@;
        let mut hotplug_gsi: Option<u32> = None;
        proof {
            lemma_concat(start, vmgenid_aml, vmclock_aml, seq![], seq![]);
        }
        if let Some(controller) = &self.cpu_hotplug {
            match controller.append_aml_bytes(v) {
                Ok(_) => {},
                Err(e) => return Err(e),
            }
            hotplug_gsi = Some(controller.gsi());
        }
        let mut ged = Self::ged_aml(self.vmgenid().gsi, self.vmclock().gsi, hotplug_gsi);
        proof {
            let hotplug_aml = hotplug_part(self.hotplug_slot())->Ok_0;
            lemma_concat(start, vmgenid_aml, vmclock_aml, hotplug_aml, ged@);
        }
        v.append(&mut ged);
        Ok(())
    }
}

/// Appends a copy of `bytes`.
fn append_copy(v: &mut Vec<u8>, bytes: &Vec<u8>)
    ensures
        final(v)@ == old(v)@ + bytes@,
{
    v.extend_from_slice(bytes.as_slice());
    assert(v@ =~= old(v)@ + bytes@);
}

/// Appending parts one by one appends them all.
proof fn lemma_concat(start: Seq<u8>, a: Seq<u8>, b: Seq<u8>, c: Seq<u8>, d: Seq<u8>)
    ensures
        start + a + b == start + (a + b),
        start + a + b + c + d == start + (a + b + c + d),
        start + a + b + seq![] == start + a + b,
{
    assert(start + a + b =~= start + (a + b));
    assert(start + a + b + c + d =~= start + (a + b + c + d));
    assert(start + a + b + seq![] =~= start + a + b);
}

} // verus!
