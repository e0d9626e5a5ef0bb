//! The CPU hotplug controller: a 12-byte register window through which the guest's ACPI code
//! finds out which vCPUs came and went, and tells the monitor that it has seen it.
//!
//! | offset | size | register |
//! |--------|------|----------|
//! | 0      | 4    | index of the vCPU that the other registers speak of |
//! | 4      | 1    | status bits of that vCPU |

use vmm_sys_util::eventfd::EventFd;
use vstd::prelude::*;

use crate::bytes;
use crate::config::MAX_SUPPORTED_VCPUS;

verus! {

/// Size in bytes of the register window.
pub const CPU_HOTPLUG_MMIO_SIZE: u64 = 12;

/// Offset of the four-byte register that selects a vCPU.
pub const CPU_SELECTION_OFFSET: u64 = 0;

/// Offset of the status byte of the selected vCPU.
pub const CPU_STATUS_OFFSET: u64 = 4;

/// Status bit: the vCPU is present.
pub const CPU_ENABLE_FLAG: usize = 0;

/// Status bit: the vCPU was inserted and the guest has not acknowledged it.
pub const CPU_INSERTING_FLAG: usize = 1;

/// Status bit: the vCPU is to be removed and the guest has not acknowledged it.
pub const CPU_REMOVING_FLAG: usize = 2;

/// Status bit, only written: the guest has let go of the vCPU.
pub const CPU_EJECT_FLAG: usize = 3;

/// The event descriptor of the host kernel, carried and never looked into.
#[verifier::external_type_specification]
#[verifier::external_body]
pub struct ExEventFd(EventFd);

/// State of one vCPU slot.
#[derive(Clone, Copy, Debug, PartialEq, Eq, Structural)]
pub struct CpuState {
    /// The vCPU is present.
    pub enabled: bool,
    /// An insertion that the guest has not acknowledged.
    pub inserting: bool,
    /// A removal that the guest has not acknowledged.
    pub removing: bool,
    /// The guest has ejected the vCPU, and it was not plugged in again.
    pub ejected: bool,
}

/// A slot on which nothing is pending and which the guest has not ejected.
pub open spec fn quiet(enabled: bool) -> CpuState {
    CpuState { enabled, inserting: false, removing: false, ejected: false }
}

impl Default for CpuState {
    fn default() -> (r: Self)
        ensures
            r == quiet(false),
    {
        CpuState { enabled: false, inserting: false, removing: false, ejected: false }
    }
}

/// What a snapshot keeps of a controller.
#[derive(Clone, Debug)]
pub struct CpuHotplugControllerState {
    pub boot_vcpus: u8,
    pub max_vcpus: u8,
    pub mmio_addr: u64,
    pub gsi: u32,
    pub cpu_enabled: Vec<bool>,
    /// Which slots the guest has ejected. A snapshot may hold no such record.
    pub cpu_ejected: Vec<bool>,
}

impl Default for CpuHotplugControllerState {
    fn default() -> (r: Self)
        ensures
            r.boot_vcpus == 0,
            r.max_vcpus == 0,
            r.mmio_addr == 0,
            r.gsi == 0,
            r.cpu_enabled@ == Seq::<bool>::empty(),
            r.cpu_ejected@ == Seq::<bool>::empty(),
    {
        CpuHotplugControllerState {
            boot_vcpus: 0,
            max_vcpus: 0,
            mmio_addr: 0,
            gsi: 0,
            cpu_enabled: Vec::new(),
            cpu_ejected: Vec::new(),
        }
    }
}

impl CpuHotplugControllerState {
    /// The guest has ejected slot `i`. Where the snapshot has no record of that, an ejected slot
    /// cannot be told from one that never held a vCPU: each that holds none counts as ejected.
    pub open spec fn ejected(self, i: int) -> bool {
        if i < self.cpu_ejected@.len() {
            self.cpu_ejected@[i]
        } else {
            !self.cpu_enabled@[i]
        }
    }

    /// Slot `i` as the snapshot brings it back, with nothing pending.
    pub open spec fn slot(self, i: int) -> CpuState {
        CpuState { ejected: self.ejected(i), ..quiet(self.cpu_enabled@[i]) }
    }
}

/// The controller, without the event descriptor that it carries.
pub struct Controller {
    pub mmio_addr: u64,
    pub boot_vcpus: u8,
    pub max_vcpus: u8,
    pub selected_cpu: u32,
    pub cpus: Seq<CpuState>,
    pub gsi: u32,
}

/// The smaller of two numbers of vCPUs.
pub open spec fn at_most(n: u8, limit: u8) -> u8 {
    if n <= limit {
        n
    } else {
        limit
    }
}

/// The number of enabled vCPUs.
pub open spec fn enabled_count(cpus: Seq<CpuState>) -> nat
    decreases cpus.len(),
{
    if cpus.len() == 0 {
        0
    } else {
        enabled_count(cpus.drop_last()) + if cpus.last().enabled {
            1nat
        } else {
            0nat
        }
    }
}

/// The slot has completed ejection: the guest has written the eject bit, no vCPU is left in it
/// and there is nothing to acknowledge on it.
pub open spec fn is_out(cpu: CpuState) -> bool {
    cpu.ejected && !cpu.enabled && !cpu.inserting && !cpu.removing
}

/// The low byte of a slot's index.
pub open spec fn low_byte(index: int) -> u8 {
    (index % 0x100) as u8
}

/// The indices, as bytes and in increasing order of slot, of the slots that have completed
/// ejection and whose index byte is not below `boot_vcpus`.
pub open spec fn out_slots(cpus: Seq<CpuState>, boot_vcpus: u8) -> Seq<u8>
    decreases cpus.len(),
{
    if cpus.len() == 0 {
        Seq::empty()
    } else {
        let below = out_slots(cpus.drop_last(), boot_vcpus);
        let index = low_byte(cpus.len() - 1);
        if is_out(cpus.last()) && index >= boot_vcpus {
            below.push(index)
        } else {
            below
        }
    }
}

/// The status byte that the guest reads.
pub open spec fn status_byte(cpu: CpuState) -> u8 {
    ((if cpu.enabled {
        1int
    } else {
        0
    }) + (if cpu.inserting {
        2int
    } else {
        0
    }) + (if cpu.removing {
        4int
    } else {
        0
    })) as u8
}

/// The guest's status byte has the bit of an acknowledged insertion.
pub open spec fn acks_insertion(status: u8) -> bool {
    status / 2 % 2 == 1
}

/// The guest's status byte has the bit of an acknowledged removal.
pub open spec fn acks_removal(status: u8) -> bool {
    status / 4 % 2 == 1
}

/// The guest's status byte has the bit that ejects.
pub open spec fn ejects(status: u8) -> bool {
    status / 8 % 2 == 1
}

/// A slot after the guest wrote a status byte to it. A vCPU that the machine booted with, which
/// is what `boot` says, cannot be ejected.
pub open spec fn after_status_write(cpu: CpuState, boot: bool, status: u8) -> CpuState {
    CpuState {
        enabled: cpu.enabled && (boot || !ejects(status)),
        inserting: cpu.inserting && !acks_insertion(status),
        removing: cpu.removing && !acks_removal(status),
        ejected: cpu.ejected || (!boot && ejects(status)),
    }
}

/// `n` zero bytes.
pub open spec fn zeros(n: int) -> Seq<u8> {
    Seq::new(n as nat, |i: int| 0u8)
}

impl Controller {
    /// A controller fresh from boot.
    pub open spec fn booted(
        boot_vcpus: u8,
        max_vcpus: u8,
        mmio_addr: u64,
        gsi: u32,
    ) -> Controller {
        let max = at_most(max_vcpus, MAX_SUPPORTED_VCPUS);
        let boot = at_most(boot_vcpus, max);
        Controller {
            mmio_addr,
            boot_vcpus: boot,
            max_vcpus: max,
            selected_cpu: 0,
            cpus: Seq::new(max as nat, |i: int| quiet(i < boot)),
            gsi,
        }
    }

    /// A controller that a snapshot brings back.
    pub open spec fn restored(state: CpuHotplugControllerState) -> Controller {
        Controller {
            mmio_addr: state.mmio_addr,
            boot_vcpus: state.boot_vcpus,
            max_vcpus: state.max_vcpus,
            selected_cpu: 0,
            cpus: Seq::new(state.cpu_enabled@.len(), |i: int| state.slot(i)),
            gsi: state.gsi,
        }
    }

    /// `state` is the snapshot of this controller.
    pub open spec fn is_saved_as(self, state: CpuHotplugControllerState) -> bool {
        &&& state.boot_vcpus == self.boot_vcpus
        &&& state.max_vcpus == self.max_vcpus
        &&& state.mmio_addr == self.mmio_addr
        &&& state.gsi == self.gsi
        &&& state.cpu_enabled@ == self.cpus.map_values(|cpu: CpuState| cpu.enabled)
        &&& state.cpu_ejected@ == self.cpus.map_values(|cpu: CpuState| cpu.ejected)
    }

    /// The number of vCPUs that the controller reports as active: a byte, as everywhere in the
    /// API.
    pub open spec fn active(self) -> u8 {
        low_byte(enabled_count(self.cpus) as int)
    }

    /// The same controller with other slots.
    pub open spec fn with_cpus(self, cpus: Seq<CpuState>) -> Controller {
        Controller { cpus, ..self }
    }

    /// The controller after the slots `from..to` were plugged in.
    pub open spec fn plugged(self, from: u8, to: u8) -> Controller {
        self.with_cpus(
            Seq::new(
                self.cpus.len(),
                |i: int|
                    if from <= i < to {
                        CpuState { inserting: true, ..quiet(true) }
                    } else {
                        self.cpus[i]
                    },
            ),
        )
    }

    /// A request for `desired` vCPUs marks slot `i` for removal.
    pub open spec fn marks(self, desired: u8, i: int) -> bool {
        desired <= i < self.active() && i >= self.boot_vcpus && self.cpus[i].enabled
    }

    /// The controller after removal down to `desired` vCPUs was asked for.
    pub open spec fn unplugged(self, desired: u8) -> Controller {
        self.with_cpus(
            Seq::new(
                self.cpus.len(),
                |i: int|
                    CpuState {
                        removing: self.cpus[i].removing || self.marks(desired, i),
                        ..self.cpus[i]
                    },
            ),
        )
    }

    /// What a read of `len` bytes at `offset` gives.
    pub open spec fn read(self, offset: u64, len: nat) -> Seq<u8> {
        if offset == CPU_SELECTION_OFFSET && len >= 4 {
            bytes::le32(self.selected_cpu) + zeros(len - 4)
        } else if offset == CPU_STATUS_OFFSET && len >= 1 && self.selected_cpu < self.cpus.len() {
            seq![status_byte(self.cpus[self.selected_cpu as int])] + zeros(len - 1)
        } else {
            zeros(len as int)
        }
    }

    /// The controller after a write of `data` at `offset`.
    pub open spec fn written(self, offset: u64, data: Seq<u8>) -> Controller {
        if offset == CPU_SELECTION_OFFSET && data.len() >= 4 {
            Controller { selected_cpu: bytes::le32_value(data), ..self }
        } else if offset == CPU_STATUS_OFFSET && data.len() >= 1 && self.selected_cpu
            < self.cpus.len() {
            let i = self.selected_cpu as int;
            self.with_cpus(
                self.cpus.update(
                    i,
                    after_status_write(self.cpus[i], i < self.boot_vcpus, data[0]),
                ),
            )
        } else {
            self
        }
    }

    /// The numbers of vCPUs fit each other, as they do in every controller that was booted, and
    /// in every controller restored from a snapshot of such a one.
    pub open spec fn consistent(self) -> bool {
        &&& self.boot_vcpus <= self.max_vcpus <= MAX_SUPPORTED_VCPUS
        &&& self.cpus.len() == self.max_vcpus
    }
}

/// The CPU hotplug controller device.
#[derive(Debug)]
pub struct CpuHotplugController {
    /// Address of the register window.
    mmio_addr: u64,
    /// Number of vCPUs the machine booted with.
    boot_vcpus: u8,
    /// Largest number of vCPUs.
    max_vcpus: u8,
    /// The vCPU that the status register speaks of.
    selected_cpu: u32,
    /// One state per vCPU slot.
    cpu_states: Vec<CpuState>,
    /// Interrupt line that tells the guest of a change.
    gsi: u32,
    /// Event that raises the interrupt.
    interrupt_evt: EventFd,
}

impl View for CpuHotplugController {
    type V = Controller;

    closed spec fn view(&self) -> Controller {
        Controller {
            mmio_addr: self.mmio_addr,
            boot_vcpus: self.boot_vcpus,
            max_vcpus: self.max_vcpus,
            selected_cpu: self.selected_cpu,
            cpus: self.cpu_states@,
            gsi: self.gsi,
        }
    }
}

impl CpuHotplugController {
    /// The event descriptor that the controller was made with.
    pub closed spec fn event(&self) -> EventFd {
        self.interrupt_evt
    }

    /// A controller for a machine that boots with `boot_vcpus` vCPUs and can grow to
    /// `max_vcpus`, both cut down to what is supported.
    pub fn new(
        boot_vcpus: u8,
        max_vcpus: u8,
        mmio_addr: u64,
        gsi: u32,
        interrupt_evt: EventFd,
    ) -> (r: Self)
        ensures
            r@ == Controller::booted(boot_vcpus, max_vcpus, mmio_addr, gsi),
            r.event() == interrupt_evt,
    {
        let max_vcpus = if max_vcpus <= MAX_SUPPORTED_VCPUS {
            max_vcpus
        } else {
            MAX_SUPPORTED_VCPUS
        };
        let boot_vcpus = if boot_vcpus <= max_vcpus {
            boot_vcpus
        } else {
            max_vcpus
        };
        let mut cpu_states: Vec<CpuState> = Vec::new();
        let mut i: u8 = 0;
        while i < max_vcpus
            invariant
                i <= max_vcpus,
                cpu_states@ == Seq::new(i as nat, |j: int| quiet(j < boot_vcpus)),
            decreases max_vcpus - i,
        {
            let mut state = CpuState::default();
            state.enabled = i < boot_vcpus;
            cpu_states.push(state);
            i += 1;
        }
        CpuHotplugController {
            mmio_addr,
            boot_vcpus,
            max_vcpus,
            selected_cpu: 0,
            cpu_states,
            gsi,
            interrupt_evt,
        }
    }

    /// Interrupt line that tells the guest of a change.
    pub fn gsi(&self) -> (r: u32)
        ensures
            r == self@.gsi,
    {
        self.gsi
    }

    /// Event that raises the interrupt.
    pub fn interrupt_evt(&self) -> (r: &EventFd)
        ensures
            *r == self.event(),
    {
        &self.interrupt_evt
    }

    /// Address of the register window.
    pub fn mmio_addr(&self) -> (r: u64)
        ensures
            r == self@.mmio_addr,
    {
        self.mmio_addr
    }

    /// Number of vCPUs the machine booted with.
    pub fn boot_vcpus(&self) -> (r: u8)
        ensures
            r == self@.boot_vcpus,
    {
        self.boot_vcpus
    }

    /// Largest number of vCPUs.
    pub fn max_vcpus(&self) -> (r: u8)
        ensures
            r == self@.max_vcpus,
    {
        self.max_vcpus
    }

    /// Number of vCPUs that are enabled now. It is counted in a byte, which suffices for every
    /// controller with at most 255 slots.
    pub fn active_vcpus(&self) -> (r: u8)
        ensures
            r == self@.active(),
    {
        let mut count: usize = 0;
        let mut i: usize = 0;
        while i < self.cpu_states.len()
            invariant
                i <= self.cpu_states@.len(),
                count <= i,
                count == enabled_count(self.cpu_states@.take(i as int)),
            decreases self.cpu_states@.len() - i,
        {
            assert(self.cpu_states@.take(i + 1).drop_last() =~= self.cpu_states@.take(i as int));
            if self.cpu_states[i].enabled {
                count += 1;
            }
            i += 1;
        }
        assert(self.cpu_states@.take(i as int) =~= self.cpu_states@);
        (count % 0x100) as u8
    }

    /// Plugs in the slots `from..to`, as far as they exist: each is enabled, with an insertion
    /// for the guest to acknowledge, no removal, and no ejection to its name.
    pub fn hotplug_vcpus(&mut self, from: u8, to: u8)
        ensures
            final(self)@ == old(self)@.plugged(from, to),
            final(self).event() == old(self).event(),
    {
        let mut cpu_id: u8 = from;
        assert(self@.cpus =~= old(self)@.plugged(from, cpu_id).cpus);
        while cpu_id < to
            invariant
                from <= cpu_id,
                cpu_id <= to || cpu_id == from,
                self@ == old(self)@.plugged(from, cpu_id),
                self.event() == old(self).event(),
            decreases to - cpu_id,
        {
            if (cpu_id as usize) < self.cpu_states.len() {
                self.cpu_states[cpu_id as usize] =
                CpuState { enabled: true, inserting: true, removing: false, ejected: false };
            }
            cpu_id += 1;
            assert(self@.cpus =~= old(self)@.plugged(from, cpu_id).cpus);
        }
        assert(self@.cpus =~= old(self)@.plugged(from, to).cpus);
    }

    /// Marks for removal the enabled slots from `desired` up to the number of active vCPUs,
    /// but none that the machine booted with. They stay enabled until the guest ejects them.
    pub fn unplug_vcpus(&mut self, desired: u8)
        ensures
            final(self)@ == old(self)@.unplugged(desired),
            final(self).event() == old(self).event(),
    {
        let current = self.active_vcpus();
        let mut i: u8 = current;
        assert(self@.cpus =~= old(self)@.cpus);
        while i > desired
            invariant
                current == old(self)@.active(),
                i <= current,
                self.event() == old(self).event(),
                self@ == old(self)@.with_cpus(self@.cpus),
                self@.cpus == Seq::new(
                    old(self)@.cpus.len(),
                    |j: int|
                        CpuState {
                            removing: old(self)@.cpus[j].removing || (i <= j && old(self)@.marks(
                                desired,
                                j,
                            )),
                            ..old(self)@.cpus[j]
                        },
                ),
            decreases i,
        {
            i -= 1;
            if i >= self.boot_vcpus && (i as usize) < self.cpu_states.len() {
                let mut state = self.cpu_states[i as usize];
                if state.enabled {
                    state.removing = true;
                    self.cpu_states[i as usize] = state;
                }
            }
            assert(self@.cpus =~= Seq::new(
                old(self)@.cpus.len(),
                |j: int|
                    CpuState {
                        removing: old(self)@.cpus[j].removing || (i <= j && old(self)@.marks(
                            desired,
                            j,
                        )),
                        ..old(self)@.cpus[j]
                    },
            ));
        }
        assert(self@.cpus =~= old(self)@.unplugged(desired).cpus);
    }

    /// The slots that have completed ejection: the guest has written the eject bit to them and has
    /// nothing left to acknowledge on them. No boot vCPU is among them.
    pub fn ejected_cpus(&self) -> (r: Vec<u8>)
        ensures
            r@ == out_slots(self@.cpus, self@.boot_vcpus),
    {
        let mut ejected: Vec<u8> = Vec::new();
        let mut i: usize = 0;
        while i < self.cpu_states.len()
            invariant
                i <= self.cpu_states@.len(),
                ejected@ == out_slots(self.cpu_states@.take(i as int), self.boot_vcpus),
            decreases self.cpu_states@.len() - i,
        {
            let state = self.cpu_states[i];
            let index = (i % 0x100) as u8;
            assert(self.cpu_states@.take(i + 1).drop_last() =~= self.cpu_states@.take(i as int));
            let out = state.ejected && !state.enabled && !state.inserting && !state.removing;
            if out && index >= self.boot_vcpus {
                ejected.push(index);
            }
            i += 1;
        }
        assert(self.cpu_states@.take(i as int) =~= self.cpu_states@);
        ejected
    }

    /// What a snapshot keeps of the controller.
    pub fn save(&self) -> (r: CpuHotplugControllerState)
        ensures
            self@.is_saved_as(r),
    {
        let mut cpu_enabled: Vec<bool> = Vec::new();
        let mut cpu_ejected: Vec<bool> = Vec::new();
        let mut i: usize = 0;
        while i < self.cpu_states.len()
            invariant
                i <= self.cpu_states@.len(),
                cpu_enabled@ == self.cpu_states@.take(i as int).map_values(
                    |cpu: CpuState| cpu.enabled,
                ),
                cpu_ejected@ == self.cpu_states@.take(i as int).map_values(
                    |cpu: CpuState| cpu.ejected,
                ),
            decreases self.cpu_states@.len() - i,
        {
            cpu_enabled.push(self.cpu_states[i].enabled);
            cpu_ejected.push(self.cpu_states[i].ejected);
            i += 1;
            assert(cpu_enabled@ =~= self.cpu_states@.take(i as int).map_values(
                |cpu: CpuState| cpu.enabled,
            ));
            assert(cpu_ejected@ =~= self.cpu_states@.take(i as int).map_values(
                |cpu: CpuState| cpu.ejected,
            ));
        }
        assert(self.cpu_states@.take(i as int) =~= self.cpu_states@);
        CpuHotplugControllerState {
            boot_vcpus: self.boot_vcpus,
            max_vcpus: self.max_vcpus,
            mmio_addr: self.mmio_addr,
            gsi: self.gsi,
            cpu_enabled,
            cpu_ejected,
        }
    }

    /// The controller that a snapshot describes, with a new event descriptor. Nothing is pending
    /// on it, what was ejected still is, and vCPU 0 is selected.
    pub fn restore(state: &CpuHotplugControllerState, interrupt_evt: EventFd) -> (r: Self)
        ensures
            r@ == Controller::restored(*state),
            r.event() == interrupt_evt,
    {
        let mut cpu_states: Vec<CpuState> = Vec::new();
        let mut i: usize = 0;
        while i < state.cpu_enabled.len()
            invariant
                i <= state.cpu_enabled@.len(),
                cpu_states@ == Seq::new(i as nat, |j: int| state.slot(j)),
            decreases state.cpu_enabled@.len() - i,
        {
            let mut cpu = CpuState::default();
            cpu.enabled = state.cpu_enabled[i];
            cpu.ejected = if i < state.cpu_ejected.len() {
                state.cpu_ejected[i]
            } else {
                !cpu.enabled
            };
            cpu_states.push(cpu);
            i += 1;
            assert(cpu_states@ =~= Seq::new(i as nat, |j: int| state.slot(j)));
        }
        CpuHotplugController {
            mmio_addr: state.mmio_addr,
            boot_vcpus: state.boot_vcpus,
            max_vcpus: state.max_vcpus,
            selected_cpu: 0,
            cpu_states,
            gsi: state.gsi,
            interrupt_evt,
        }
    }

    /// Answers a read of the register window: the selected index at its offset, the status byte
    /// of the selected vCPU at its offset, and zero in every other byte.
    pub fn mmio_read(&self, offset: u64, data: &mut [u8])
        ensures
            final(data)@ == self@.read(offset, old(data)@.len()),
    {
        let len: usize = data.len();
        let mut i: usize = 0;
        while i < len
            invariant
                len == data@.len(),
                len == old(data)@.len(),
                i <= len,
                forall|j: int| 0 <= j < i ==> data@[j] == 0,
            decreases len - i,
        {
            data[i] = 0;
            i += 1;
        }
        if offset == CPU_SELECTION_OFFSET {
            if len >= 4 {
                let selected = bytes::u32_to_bytes(self.selected_cpu);
                data[0] = selected[0];
                data[1] = selected[1];
                data[2] = selected[2];
                data[3] = selected[3];
            }
        } else if offset == CPU_STATUS_OFFSET {
            if len >= 1 && (self.selected_cpu as usize) < self.cpu_states.len() {
                let state = self.cpu_states[self.selected_cpu as usize];
                let mut status: u8 = 0;
                proof {
                    lemma_status_bits();
                }
                if state.enabled {
                    status |= 1 << CPU_ENABLE_FLAG;
                }
                if state.inserting {
                    status |= 1 << CPU_INSERTING_FLAG;
                }
                if state.removing {
                    status |= 1 << CPU_REMOVING_FLAG;
                }
                data[0] = status;
            }
        }
        assert(data@ =~= self@.read(offset, old(data)@.len()));
    }

    /// Takes a write to the register window: a vCPU index at the selection register, or a status
    /// byte whose bits acknowledge an insertion or a removal of the selected vCPU or eject it.
    /// The vCPUs that the machine booted with cannot be ejected. A write that is too short, is
    /// elsewhere or concerns a vCPU that there is not does nothing.
    pub fn mmio_write(&mut self, offset: u64, data: &[u8])
        ensures
            final(self)@ == old(self)@.written(offset, data@),
            final(self).event() == old(self).event(),
    {
        if offset == CPU_SELECTION_OFFSET {
            if data.len() >= 4 {
                self.selected_cpu = bytes::u32_from_bytes(data);
            }
        } else if offset == CPU_STATUS_OFFSET {
            if data.len() >= 1 && (self.selected_cpu as usize) < self.cpu_states.len() {
                let status: u8 = data[0];
                let mut state = self.cpu_states[self.selected_cpu as usize];
                proof {
                    lemma_written_bits(status);
                }
                if (status & (1 << CPU_INSERTING_FLAG) != 0) && state.inserting {
                    state.inserting = false;
                }
                if (status & (1 << CPU_REMOVING_FLAG) != 0) && state.removing {
                    state.removing = false;
                }
                let boot = self.selected_cpu < self.boot_vcpus as u32;
                if (status & (1 << CPU_EJECT_FLAG) != 0) && !boot {
                    state.enabled = false;
                    state.ejected = true;
                }
                self.cpu_states[self.selected_cpu as usize] = state;
            }
        }
        assert(self@.cpus =~= old(self)@.written(offset, data@).cpus);
    }
}

/// Setting status bits one by one adds their values.
proof fn lemma_status_bits()
    ensures
        0u8 | (1u8 << CPU_ENABLE_FLAG) == 1,
        0u8 | (1u8 << CPU_INSERTING_FLAG) == 2,
        1u8 | (1u8 << CPU_INSERTING_FLAG) == 3,
        0u8 | (1u8 << CPU_REMOVING_FLAG) == 4,
        1u8 | (1u8 << CPU_REMOVING_FLAG) == 5,
        2u8 | (1u8 << CPU_REMOVING_FLAG) == 6,
        3u8 | (1u8 << CPU_REMOVING_FLAG) == 7,
{
    assert(0u8 | (1u8 << 0usize) == 1) by (bit_vector);
    assert(0u8 | (1u8 << 1usize) == 2) by (bit_vector);
    assert(1u8 | (1u8 << 1usize) == 3) by (bit_vector);
    assert(0u8 | (1u8 << 2usize) == 4) by (bit_vector);
    assert(1u8 | (1u8 << 2usize) == 5) by (bit_vector);
    assert(2u8 | (1u8 << 2usize) == 6) by (bit_vector);
    assert(3u8 | (1u8 << 2usize) == 7) by (bit_vector);
}

/// What the masks find in a status byte that the guest writes.
proof fn lemma_written_bits(status: u8)
    ensures
        (status & (1u8 << CPU_INSERTING_FLAG) != 0) == acks_insertion(status),
        (status & (1u8 << CPU_REMOVING_FLAG) != 0) == acks_removal(status),
        (status & (1u8 << CPU_EJECT_FLAG) != 0) == ejects(status),
{
    assert((status & (1u8 << 1usize) != 0) == (status / 2 % 2 == 1)) by (bit_vector);
    assert((status & (1u8 << 2usize) != 0) == (status / 4 % 2 == 1)) by (bit_vector);
    assert((status & (1u8 << 3usize) != 0) == (status / 8 % 2 == 1)) by (bit_vector);
}

} // verus!
