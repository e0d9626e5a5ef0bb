//! What the operations of the controller do, as relations between what they are given, what they
//! return and what the guest and the host see afterwards.
//!
//! Each law speaks of calls: it takes that some calls have returned, and says how their results
//! and effects relate.

use vmm_sys_util::eventfd::EventFd;
use vstd::prelude::*;

use crate::controller::{
    CpuHotplugController, CpuHotplugControllerState, CpuState,
};
use crate::controller;
use crate::laws;

verus! {

/// How many slots hold a vCPU.
pub open spec fn present(cpus: Seq<CpuState>) -> nat {
    cpus.filter(|cpu: CpuState| cpu.enabled).len()
}

/// Counting slots with a vCPU counts the enabled ones.
proof fn lemma_present(cpus: Seq<CpuState>)
    ensures
        controller::enabled_count(cpus) == present(cpus),
    decreases cpus.len(),
{
    reveal(Seq::filter);
    if cpus.len() > 0 {
        lemma_present(cpus.drop_last());
    }
}

/// If the slots below `n` hold vCPUs and no others do, there are `n`.
proof fn lemma_present_below(cpus: Seq<CpuState>, n: int)
    requires
        0 <= n <= cpus.len(),
        forall|i: int| 0 <= i < cpus.len() ==> (#[trigger] cpus[i]).enabled == (i < n),
    ensures
        present(cpus) == n,
    decreases cpus.len(),
{
    reveal(Seq::filter);
    if cpus.len() > 0 {
        let last = cpus.len() - 1;
        assert(cpus[last].enabled == (last < n));
        lemma_present_below(cpus.drop_last(), if n == cpus.len() {
            n - 1
        } else {
            n
        });
    }
}

/// The numbers of a new controller: the maximum is the one given or 32, whichever is less; the
/// boot number is the one given or that maximum, whichever is less; and that many vCPUs are
/// active. Address, interrupt line and event descriptor are those given.
pub proof fn new_takes_its_arguments(
    boot_vcpus: u8,
    max_vcpus: u8,
    mmio_addr: u64,
    gsi: u32,
    interrupt_evt: EventFd,
    c: CpuHotplugController,
    boot: u8,
    max: u8,
    active: u8,
    address: u64,
    line: u32,
    event: EventFd,
)
    requires
        call_ensures(
            CpuHotplugController::new,
            (boot_vcpus, max_vcpus, mmio_addr, gsi, interrupt_evt),
            c,
        ),
        call_ensures(CpuHotplugController::boot_vcpus, (&c,), boot),
        call_ensures(CpuHotplugController::max_vcpus, (&c,), max),
        call_ensures(CpuHotplugController::active_vcpus, (&c,), active),
        call_ensures(CpuHotplugController::mmio_addr, (&c,), address),
        call_ensures(CpuHotplugController::gsi, (&c,), line),
        call_ensures(CpuHotplugController::interrupt_evt, (&c,), &event),
    ensures
        max == if max_vcpus < 32 {
            max_vcpus
        } else {
            32
        },
        boot == if boot_vcpus < max {
            boot_vcpus
        } else {
            max
        },
        active == boot,
        address == mmio_addr,
        line == gsi,
        event == interrupt_evt,
        boot_vcpus <= max_vcpus <= 32 ==> boot == boot_vcpus && max == max_vcpus && active
            == boot_vcpus,
{
    laws::boot_runs_boot_vcpus(boot_vcpus, max_vcpus, mmio_addr, gsi);
}

/// The slots of a new controller: as many as its maximum, of which the first hold the boot vCPUs.
/// Nothing is pending on them, nothing was ejected, and the first is selected.
pub proof fn new_fills_the_boot_slots(
    boot_vcpus: u8,
    max_vcpus: u8,
    mmio_addr: u64,
    gsi: u32,
    interrupt_evt: EventFd,
    c: CpuHotplugController,
    boot: u8,
    max: u8,
    ejected: Vec<u8>,
    i: int,
)
    requires
        call_ensures(
            CpuHotplugController::new,
            (boot_vcpus, max_vcpus, mmio_addr, gsi, interrupt_evt),
            c,
        ),
        call_ensures(CpuHotplugController::boot_vcpus, (&c,), boot),
        call_ensures(CpuHotplugController::max_vcpus, (&c,), max),
        call_ensures(CpuHotplugController::ejected_cpus, (&c,), ejected),
    ensures
        c@.cpus.len() == max,
        0 <= i < max ==> c@.cpus[i].enabled == (i < boot) && !c@.cpus[i].inserting
            && !c@.cpus[i].removing && !c@.cpus[i].ejected,
        c@.selected_cpu == 0,
        ejected@.len() == 0,
{
    laws::boot_runs_boot_vcpus(boot_vcpus, max_vcpus, mmio_addr, gsi);
}

/// What a controller reports is its state, whatever that is.
pub proof fn reports_are_the_state(
    c: CpuHotplugController,
    boot: u8,
    max: u8,
    address: u64,
    line: u32,
    event: EventFd,
)
    requires
        call_ensures(CpuHotplugController::boot_vcpus, (&c,), boot),
        call_ensures(CpuHotplugController::max_vcpus, (&c,), max),
        call_ensures(CpuHotplugController::mmio_addr, (&c,), address),
        call_ensures(CpuHotplugController::gsi, (&c,), line),
        call_ensures(CpuHotplugController::interrupt_evt, (&c,), &event),
    ensures
        boot == c@.boot_vcpus,
        max == c@.max_vcpus,
        address == c@.mmio_addr,
        line == c@.gsi,
        event == c.event(),
{
}

/// The number of active vCPUs is how many slots hold one, as far as a byte can tell.
pub proof fn active_counts_the_present(c: CpuHotplugController, active: u8)
    requires
        call_ensures(CpuHotplugController::active_vcpus, (&c,), active),
    ensures
        active == present(c@.cpus) % 0x100,
        c@.cpus.len() < 0x100 ==> active == present(c@.cpus),
{
    lemma_present(c@.cpus);
    if c@.cpus.len() < 0x100 {
        laws::active_is_enabled_count(c@);
    }
}

/// Everything of a controller but its slots and its selection.
pub open spec fn same_machine(a: CpuHotplugController, b: CpuHotplugController) -> bool {
    &&& a@.boot_vcpus == b@.boot_vcpus
    &&& a@.max_vcpus == b@.max_vcpus
    &&& a@.mmio_addr == b@.mmio_addr
    &&& a@.gsi == b@.gsi
    &&& a.event() == b.event()
    &&& a@.cpus.len() == b@.cpus.len()
}

/// Hotplug of `from..to` puts a vCPU in each of these slots, with an insertion for the guest to
/// see and no trace of what was before. Every other slot stays entirely as it was, with whatever
/// is pending on it, and so does the selection.
pub proof fn hotplug_fills_its_slots_alone(
    c: &mut CpuHotplugController,
    from: u8,
    to: u8,
    i: int,
)
    requires
        call_ensures(CpuHotplugController::hotplug_vcpus, (c, from, to), ()),
    ensures
        same_machine(*final(c), *old(c)),
        final(c)@.selected_cpu == old(c)@.selected_cpu,
        0 <= i < old(c)@.cpus.len() && from <= i < to ==> final(c)@.cpus[i].enabled
            && final(c)@.cpus[i].inserting && !final(c)@.cpus[i].removing
            && !final(c)@.cpus[i].ejected,
        0 <= i < old(c)@.cpus.len() && !(from <= i < to) ==> final(c)@.cpus[i]
            == old(c)@.cpus[i],
{
}

/// An insertion that the guest has not acknowledged survives another hotplug: after two in a row,
/// every slot of either is inserting.
pub proof fn hotplugs_add_up(
    c: &mut CpuHotplugController,
    d: &mut CpuHotplugController,
    from: u8,
    middle: u8,
    to: u8,
    i: int,
)
    requires
        call_ensures(CpuHotplugController::hotplug_vcpus, (c, from, middle), ()),
        *d == *final(c),
        call_ensures(CpuHotplugController::hotplug_vcpus, (d, middle, to), ()),
        from <= middle <= to,
        0 <= i < old(c)@.cpus.len(),
    ensures
        final(d)@.cpus.len() == old(c)@.cpus.len(),
        from <= i < to ==> final(d)@.cpus[i].enabled && final(d)@.cpus[i].inserting,
        !(from <= i < to) ==> final(d)@.cpus[i] == old(c)@.cpus[i],
{
}

/// A request for `desired` vCPUs marks for removal exactly the slots from `desired` up to the
/// number of active vCPUs that hold a vCPU and are not below the boot vCPUs. A slot that was
/// marked stays so, and nothing else changes.
pub proof fn unplug_marks_the_slots(
    c: &mut CpuHotplugController,
    desired: u8,
    boot: u8,
    active: u8,
    i: int,
)
    requires
        call_ensures(CpuHotplugController::boot_vcpus, (&*old(c),), boot),
        call_ensures(CpuHotplugController::active_vcpus, (&*old(c),), active),
        call_ensures(CpuHotplugController::unplug_vcpus, (c, desired), ()),
    ensures
        same_machine(*final(c), *old(c)),
        final(c)@.selected_cpu == old(c)@.selected_cpu,
        active == present(old(c)@.cpus) % 0x100,
        0 <= i < old(c)@.cpus.len() ==> {
            &&& final(c)@.cpus[i].removing <==> old(c)@.cpus[i].removing || (desired <= i < active
                && boot <= i && old(c)@.cpus[i].enabled)
            &&& final(c)@.cpus[i].enabled == old(c)@.cpus[i].enabled
            &&& final(c)@.cpus[i].inserting == old(c)@.cpus[i].inserting
            &&& final(c)@.cpus[i].ejected == old(c)@.cpus[i].ejected
        },
{
    lemma_present(old(c)@.cpus);
}

/// Where the vCPUs below `n` run, a request for `desired` of them leaves every slot from the
/// desired or the boot number on, whichever is more, up to `n` reading as removing.
pub proof fn unplug_asks_for_all_the_excess(
    c: &mut CpuHotplugController,
    desired: u8,
    n: int,
    i: int,
)
    requires
        call_ensures(CpuHotplugController::unplug_vcpus, (c, desired), ()),
        0 <= n <= old(c)@.cpus.len(),
        n < 0x100,
        forall|k: int|
            0 <= k < old(c)@.cpus.len() ==> (#[trigger] old(c)@.cpus[k]).enabled == (k < n),
        desired <= i,
        old(c)@.boot_vcpus <= i < n,
    ensures
        final(c)@.cpus[i].removing,
{
    lemma_present(old(c)@.cpus);
    lemma_present_below(old(c)@.cpus, n);
}

/// The slot was ejected, and nothing is left of it: no vCPU, and nothing to acknowledge.
pub open spec fn let_go(cpu: CpuState) -> bool {
    cpu.ejected && !cpu.enabled && !cpu.inserting && !cpu.removing
}

/// The list of ejected vCPUs of a controller with up to 256 slots: a slot is listed if and only if
/// it was let go and is not below the boot vCPUs; the list is in increasing order.
pub proof fn ejected_are_those_let_go(
    c: CpuHotplugController,
    boot: u8,
    ejected: Vec<u8>,
    i: u8,
    j: int,
    k: int,
)
    requires
        call_ensures(CpuHotplugController::boot_vcpus, (&c,), boot),
        call_ensures(CpuHotplugController::ejected_cpus, (&c,), ejected),
        c@.cpus.len() <= 0x100,
    ensures
        ejected@.contains(i) <==> boot <= i < c@.cpus.len() && let_go(c@.cpus[i as int]),
        0 <= j < k < ejected@.len() ==> ejected@[j] < ejected@[k],
{
    laws::ejected_list(c@.cpus, c@.boot_vcpus);
}

/// The list of ejected vCPUs, slot by slot, however many there are: one more slot adds the low
/// byte of its index to the end if it was let go and that byte is not below the boot vCPUs, and
/// nothing otherwise. Without slots the list is empty.
pub proof fn ejected_list_grows_by_slots(
    c: CpuHotplugController,
    d: CpuHotplugController,
    cpu: CpuState,
    fewer: Vec<u8>,
    more: Vec<u8>,
)
    requires
        call_ensures(CpuHotplugController::ejected_cpus, (&c,), fewer),
        call_ensures(CpuHotplugController::ejected_cpus, (&d,), more),
        d@.cpus == c@.cpus.push(cpu),
        d@.boot_vcpus == c@.boot_vcpus,
    ensures
        ({
            let index = c@.cpus.len() % 0x100;
            more@ == if let_go(cpu) && index >= c@.boot_vcpus {
                fewer@.push(index as u8)
            } else {
                fewer@
            }
        }),
        c@.cpus.len() == 0 ==> fewer@.len() == 0,
{
    assert(d@.cpus.drop_last() =~= c@.cpus);
}

/// What a read of the registers gives. At the start, four bytes or more: the index of the selected
/// vCPU, little-endian. At the fifth byte, where there is such a vCPU: its status, with 1 for
/// enabled, 2 for inserting and 4 for removing. Every other byte is zero.
pub proof fn reads_show_the_registers(
    c: CpuHotplugController,
    offset: u64,
    data: &mut [u8],
    k: int,
)
    requires
        call_ensures(CpuHotplugController::mmio_read, (&c, offset, data), ()),
    ensures
        ({
            let read = final(data)@;
            let selects = offset == 0 && read.len() >= 4;
            let asks = offset == 4 && read.len() >= 1 && c@.selected_cpu < c@.cpus.len();
            let cpu = c@.cpus[c@.selected_cpu as int];
            &&& read.len() == old(data)@.len()
            &&& selects ==> read[0] + 0x100 * read[1] + 0x1_0000 * read[2] + 0x100_0000 * read[3]
                == c@.selected_cpu
            &&& selects && 4 <= k < read.len() ==> read[k] == 0
            &&& asks ==> read[0] == (if cpu.enabled {
                1int
            } else {
                0
            }) + (if cpu.inserting {
                2int
            } else {
                0
            }) + (if cpu.removing {
                4int
            } else {
                0
            })
            &&& asks && 1 <= k < read.len() ==> read[k] == 0
            &&& !selects && !asks && 0 <= k < read.len() ==> read[k] == 0
        }),
{
    let x = c@.selected_cpu;
    assert(x / 0x1_0000 % 0x100 + 0x100 * (x / 0x100_0000) == x / 0x1_0000);
    assert(x % 0x100 + 0x100 * (x / 0x100 % 0x100) == x % 0x1_0000);
}

/// What a write of four bytes or more at the start of the registers does: it selects the vCPU
/// whose index they are, little-endian, and changes no slot.
pub proof fn writes_select(c: &mut CpuHotplugController, data: &[u8])
    requires
        call_ensures(CpuHotplugController::mmio_write, (c, 0u64, data), ()),
        data@.len() >= 4,
    ensures
        final(c)@.selected_cpu == data@[0] + 0x100 * data@[1] + 0x1_0000 * data@[2] + 0x100_0000
            * data@[3],
        final(c)@.cpus == old(c)@.cpus,
        same_machine(*final(c), *old(c)),
{
}

/// What a write at the fifth byte of the registers does to the selected vCPU: the bit of value 2
/// takes back its insertion and the bit of value 4 its removal. The bit of value 8 ejects it,
/// unless it is a boot vCPU: it is then no longer enabled, and counts as ejected. Every other slot
/// stays as it was, and so does the selection.
pub proof fn writes_acknowledge_and_eject(
    c: &mut CpuHotplugController,
    data: &[u8],
    boot: u8,
    i: int,
)
    requires
        call_ensures(CpuHotplugController::boot_vcpus, (&*old(c),), boot),
        call_ensures(CpuHotplugController::mmio_write, (c, 4u64, data), ()),
        data@.len() >= 1,
    ensures
        ({
            let before = old(c)@.cpus[i];
            let after = final(c)@.cpus[i];
            let status = data@[0];
            let ejects = status / 8 % 2 == 1 && i >= boot;
            if !(0 <= i < old(c)@.cpus.len()) {
                true
            } else if i == old(c)@.selected_cpu {
                &&& after.enabled == (before.enabled && !ejects)
                &&& after.inserting == (before.inserting && status / 2 % 2 == 0)
                &&& after.removing == (before.removing && status / 4 % 2 == 0)
                &&& after.ejected == (before.ejected || ejects)
            } else {
                after == before
            }
        }),
        final(c)@.selected_cpu == old(c)@.selected_cpu,
        same_machine(*final(c), *old(c)),
{
}

/// What other writes do: nothing. These are writes elsewhere, of fewer than four bytes to the
/// selection, of no byte to the status, and to the status of a vCPU that there is not.
pub proof fn other_writes_do_nothing(c: &mut CpuHotplugController, offset: u64, data: &[u8])
    requires
        call_ensures(CpuHotplugController::mmio_write, (c, offset, data), ()),
        offset == 0 ==> data@.len() < 4,
        offset == 4 ==> data@.len() == 0 || old(c)@.selected_cpu >= old(c)@.cpus.len(),
    ensures
        final(c)@ == old(c)@,
        final(c).event() == old(c).event(),
{
}

/// The guest reads as the status of vCPU `i`, once it has selected it, what its flags are.
pub proof fn selected_status_is_read(
    c: &mut CpuHotplugController,
    index: &[u8],
    status: &mut [u8],
    i: u32,
)
    requires
        index@.len() == 4,
        index@[0] + 0x100 * index@[1] + 0x1_0000 * index@[2] + 0x100_0000 * index@[3] == i,
        call_ensures(CpuHotplugController::mmio_write, (c, 0u64, index), ()),
        old(status)@.len() == 1,
        call_ensures(CpuHotplugController::mmio_read, (&*final(c), 4u64, status), ()),
        i < old(c)@.cpus.len(),
    ensures
        final(status)@.len() == 1,
        (final(status)@[0] % 2 == 1) == old(c)@.cpus[i as int].enabled,
        (final(status)@[0] / 2 % 2 == 1) == old(c)@.cpus[i as int].inserting,
        (final(status)@[0] / 4 % 2 == 1) == old(c)@.cpus[i as int].removing,
        final(status)@[0] < 8,
{
    laws::status_shows_the_flags(old(c)@.cpus[i as int]);
}

/// A snapshot holds the numbers, the address and the interrupt line of the controller, and of
/// each slot whether it holds a vCPU and whether it was ejected.
pub proof fn saved_is_what_was(c: CpuHotplugController, state: CpuHotplugControllerState, i: int)
    requires
        call_ensures(CpuHotplugController::save, (&c,), state),
    ensures
        state.boot_vcpus == c@.boot_vcpus,
        state.max_vcpus == c@.max_vcpus,
        state.mmio_addr == c@.mmio_addr,
        state.gsi == c@.gsi,
        state.cpu_enabled@.len() == c@.cpus.len(),
        state.cpu_ejected@.len() == c@.cpus.len(),
        0 <= i < c@.cpus.len() ==> state.cpu_enabled@[i] == c@.cpus[i].enabled
            && state.cpu_ejected@[i] == c@.cpus[i].ejected,
{
}

/// What a snapshot brings back: its numbers, its address and its interrupt line, the event
/// descriptor that is given, the first vCPU selected, and one slot per entry with nothing pending.
/// A slot without a record of ejection counts as ejected if it holds no vCPU.
pub proof fn restored_is_what_was_saved(
    state: CpuHotplugControllerState,
    interrupt_evt: EventFd,
    c: CpuHotplugController,
    i: int,
)
    requires
        call_ensures(CpuHotplugController::restore, (&state, interrupt_evt), c),
    ensures
        c@.boot_vcpus == state.boot_vcpus,
        c@.max_vcpus == state.max_vcpus,
        c@.mmio_addr == state.mmio_addr,
        c@.gsi == state.gsi,
        c.event() == interrupt_evt,
        c@.selected_cpu == 0,
        c@.cpus.len() == state.cpu_enabled@.len(),
        0 <= i < state.cpu_enabled@.len() ==> {
            &&& c@.cpus[i].enabled == state.cpu_enabled@[i]
            &&& !c@.cpus[i].inserting
            &&& !c@.cpus[i].removing
            &&& c@.cpus[i].ejected == if i < state.cpu_ejected@.len() {
                state.cpu_ejected@[i]
            } else {
                !state.cpu_enabled@[i]
            }
        },
{
}

/// What is saved and restored reports as before.
pub proof fn snapshots_bring_back_the_numbers(
    c: CpuHotplugController,
    state: CpuHotplugControllerState,
    interrupt_evt: EventFd,
    d: CpuHotplugController,
    before: (u8, u8, u8, u64, u32),
    after: (u8, u8, u8, u64, u32),
)
    requires
        call_ensures(CpuHotplugController::save, (&c,), state),
        call_ensures(CpuHotplugController::restore, (&state, interrupt_evt), d),
        call_ensures(CpuHotplugController::boot_vcpus, (&c,), before.0),
        call_ensures(CpuHotplugController::max_vcpus, (&c,), before.1),
        call_ensures(CpuHotplugController::active_vcpus, (&c,), before.2),
        call_ensures(CpuHotplugController::mmio_addr, (&c,), before.3),
        call_ensures(CpuHotplugController::gsi, (&c,), before.4),
        call_ensures(CpuHotplugController::boot_vcpus, (&d,), after.0),
        call_ensures(CpuHotplugController::max_vcpus, (&d,), after.1),
        call_ensures(CpuHotplugController::active_vcpus, (&d,), after.2),
        call_ensures(CpuHotplugController::mmio_addr, (&d,), after.3),
        call_ensures(CpuHotplugController::gsi, (&d,), after.4),
    ensures
        after == before,
        d@.cpus.len() == c@.cpus.len(),
        forall|i: int|
            0 <= i < c@.cpus.len() ==> (#[trigger] d@.cpus[i]).enabled == c@.cpus[i].enabled
                && d@.cpus[i].ejected == c@.cpus[i].ejected,
{
    laws::save_then_restore(c@, state);
}

/// The defaults: a slot without anything, and a snapshot of nothing.
pub proof fn defaults_are_empty(cpu: CpuState, state: CpuHotplugControllerState)
    requires
        call_ensures(<CpuState as Default>::default, (), cpu),
        call_ensures(<CpuHotplugControllerState as Default>::default, (), state),
    ensures
        !cpu.enabled,
        !cpu.inserting,
        !cpu.removing,
        !cpu.ejected,
        state.boot_vcpus == 0,
        state.max_vcpus == 0,
        state.mmio_addr == 0,
        state.gsi == 0,
        state.cpu_enabled@.len() == 0,
        state.cpu_ejected@.len() == 0,
{
}

} // verus!
