//! What holds across several operations.

use vstd::prelude::*;

use crate::aml::grammar;
use crate::aml::grammar::FieldEntry;
use crate::bytes;
use crate::controller;
use crate::controller::{
    Controller, CpuHotplugControllerState, CpuState, CPU_EJECT_FLAG, CPU_ENABLE_FLAG,
    CPU_HOTPLUG_MMIO_SIZE, CPU_INSERTING_FLAG, CPU_REMOVING_FLAG, CPU_SELECTION_OFFSET,
    CPU_STATUS_OFFSET,
};
use crate::cpu_aml;
use crate::manager;
use crate::manager::{VmClock, VmGenId};

verus! {

/// The vCPUs that are enabled are those below `n`.
pub open spec fn runs(c: Controller, n: int) -> bool {
    &&& 0 <= n <= c.cpus.len()
    &&& forall|i: int| 0 <= i < c.cpus.len() ==> (#[trigger] c.cpus[i]).enabled == (i < n)
}

/// The guest has acknowledged everything.
pub open spec fn settled(c: Controller) -> bool {
    forall|i: int|
        0 <= i < c.cpus.len() ==> !(#[trigger] c.cpus[i]).inserting && !c.cpus[i].removing
}

/// A slot with nothing left to acknowledge.
pub open spec fn acknowledged(cpu: CpuState) -> CpuState {
    CpuState { inserting: false, removing: false, ..cpu }
}

/// Counting the enabled slots depends on nothing else of the slots.
proof fn lemma_count_enabled(a: Seq<CpuState>, b: Seq<CpuState>)
    requires
        a.len() == b.len(),
        forall|i: int| 0 <= i < a.len() ==> (#[trigger] a[i]).enabled == b[i].enabled,
    ensures
        controller::enabled_count(a) == controller::enabled_count(b),
    decreases a.len(),
{
    if a.len() > 0 {
        assert(a[a.len() - 1].enabled == b[a.len() - 1].enabled);
        lemma_count_enabled(a.drop_last(), b.drop_last());
    }
}

/// There are at most as many enabled slots as slots.
proof fn lemma_count_bound(cpus: Seq<CpuState>)
    ensures
        controller::enabled_count(cpus) <= cpus.len(),
    decreases cpus.len(),
{
    if cpus.len() > 0 {
        lemma_count_bound(cpus.drop_last());
    }
}

/// If the enabled slots are those below `n`, there are `n`.
proof fn lemma_count_prefix(cpus: Seq<CpuState>, n: int)
    requires
        0 <= n <= cpus.len(),
        forall|i: int| 0 <= i < cpus.len() ==> (#[trigger] cpus[i]).enabled == (i < n),
    ensures
        controller::enabled_count(cpus) == n,
    decreases cpus.len(),
{
    if cpus.len() > 0 {
        let last = cpus.len() - 1;
        assert(cpus[last].enabled == (last < n));
        lemma_count_prefix(cpus.drop_last(), if n == cpus.len() {
            n - 1
        } else {
            n
        });
    }
}

/// A booted machine runs its boot vCPUs, cut down to what is supported; nothing is pending, and
/// nothing was ejected.
pub proof fn boot_runs_boot_vcpus(boot_vcpus: u8, max_vcpus: u8, mmio_addr: u64, gsi: u32)
    ensures
        ({
            let c = Controller::booted(boot_vcpus, max_vcpus, mmio_addr, gsi);
            &&& c.consistent()
            &&& runs(c, c.boot_vcpus as int)
            &&& settled(c)
            &&& c.active() == c.boot_vcpus
            &&& controller::out_slots(c.cpus, c.boot_vcpus) == Seq::<u8>::empty()
        }),
{
    let c = Controller::booted(boot_vcpus, max_vcpus, mmio_addr, gsi);
    lemma_count_prefix(c.cpus, c.boot_vcpus as int);
    lemma_none_out(c.cpus, c.boot_vcpus);
}

/// Where nothing was ejected, nothing is listed as ejected.
proof fn lemma_none_out(cpus: Seq<CpuState>, boot_vcpus: u8)
    requires
        forall|i: int| 0 <= i < cpus.len() ==> !(#[trigger] cpus[i]).ejected,
    ensures
        controller::out_slots(cpus, boot_vcpus) == Seq::<u8>::empty(),
    decreases cpus.len(),
{
    if cpus.len() > 0 {
        assert(!cpus[cpus.len() - 1].ejected);
        lemma_none_out(cpus.drop_last(), boot_vcpus);
    }
}

/// Two controllers of the same machine: equally many slots, the same numbers of boot and maximum
/// vCPUs, the same registers and the same interrupt.
pub open spec fn same_shape(a: Controller, b: Controller) -> bool {
    &&& a.cpus.len() == b.cpus.len()
    &&& a.boot_vcpus == b.boot_vcpus
    &&& a.max_vcpus == b.max_vcpus
    &&& a.mmio_addr == b.mmio_addr
    &&& a.gsi == b.gsi
}

/// No operation changes the shape of a controller, so a consistent one stays consistent.
pub proof fn operations_keep_shape(
    c: Controller,
    from: u8,
    to: u8,
    desired: u8,
    offset: u64,
    data: Seq<u8>,
)
    ensures
        same_shape(c.plugged(from, to), c),
        same_shape(c.unplugged(desired), c),
        same_shape(c.written(offset, data), c),
        c.consistent() ==> c.plugged(from, to).consistent(),
        c.consistent() ==> c.unplugged(desired).consistent(),
        c.consistent() ==> c.written(offset, data).consistent(),
{
}

/// As long as the slots can be counted in a byte, the number of active vCPUs is exactly how many
/// are enabled. In a consistent controller it is never more than the maximum.
pub proof fn active_is_enabled_count(c: Controller)
    requires
        c.cpus.len() < 0x100,
    ensures
        c.active() == controller::enabled_count(c.cpus),
        c.active() <= c.cpus.len(),
        c.consistent() ==> c.active() <= c.max_vcpus,
{
    lemma_count_bound(c.cpus);
}

/// Plugging in the slots above the running ones makes the machine run up to there, each new slot
/// with an insertion for the guest to see.
pub proof fn hotplug_grows(c: Controller, n: u8, to: u8)
    requires
        runs(c, n as int),
        n <= to <= c.cpus.len(),
    ensures
        runs(c.plugged(n, to), to as int),
        c.active() == n,
        c.plugged(n, to).active() == to,
        forall|i: int|
            n <= i < to ==> (#[trigger] c.plugged(n, to).cpus[i]).inserting
                && !c.plugged(n, to).cpus[i].removing,
{
    lemma_count_prefix(c.cpus, n as int);
    lemma_count_prefix(c.plugged(n, to).cpus, to as int);
}

/// Asking for fewer vCPUs removes none by itself: the same vCPUs stay enabled until the guest
/// ejects them.
pub proof fn unplug_needs_the_guest(c: Controller, desired: u8)
    ensures
        c.unplugged(desired).active() == c.active(),
        forall|i: int|
            0 <= i < c.cpus.len() ==> (#[trigger] c.unplugged(desired).cpus[i]).enabled
                == c.cpus[i].enabled,
{
    lemma_count_enabled(c.unplugged(desired).cpus, c.cpus);
}

/// A boot vCPU is never marked for removal, whatever number of vCPUs is asked for.
pub proof fn boot_vcpus_are_never_marked(c: Controller, desired: u8, i: int)
    requires
        0 <= i < c.cpus.len(),
        i < c.boot_vcpus,
    ensures
        c.unplugged(desired).cpus[i] == c.cpus[i],
{
}

/// Asking for `desired` vCPUs where `n` run marks exactly those from `desired` or from the boot
/// vCPUs on, whichever is more.
pub proof fn unplug_marks_the_excess(c: Controller, n: u8, desired: u8, i: int)
    requires
        runs(c, n as int),
        0 <= i < c.cpus.len(),
    ensures
        c.marks(desired, i) == (desired <= i && c.boot_vcpus <= i && i < n),
{
    lemma_count_prefix(c.cpus, n as int);
}

/// The controller with vCPU `i` selected.
pub open spec fn select(c: Controller, i: u32) -> Controller {
    c.written(CPU_SELECTION_OFFSET, bytes::le32(i))
}

/// What the guest reads as the status of the selected vCPU.
pub open spec fn status(c: Controller) -> u8 {
    c.read(CPU_STATUS_OFFSET, 1)[0]
}

/// The guest's write of one status bit.
pub open spec fn write_flag(c: Controller, flag: usize) -> Controller {
    c.written(CPU_STATUS_OFFSET, seq![flag_value(flag)])
}

/// The status byte in which only the bit of `flag` is set.
pub open spec fn flag_value(flag: usize) -> u8 {
    if flag == CPU_ENABLE_FLAG {
        1
    } else if flag == CPU_INSERTING_FLAG {
        2
    } else if flag == CPU_REMOVING_FLAG {
        4
    } else {
        8
    }
}

/// Selecting selects, and does nothing else.
pub proof fn selecting(c: Controller, i: u32)
    ensures
        select(c, i) == (Controller { selected_cpu: i, ..c }),
{
    bytes::le32_round_trip(i, seq![]);
    assert(bytes::le32(i) + seq![] =~= bytes::le32(i));
}

/// What is written to the selection register is what is read from it.
pub proof fn selection_reads_back(c: Controller, data: Seq<u8>, len: nat)
    requires
        data.len() >= 4,
        len >= 4,
    ensures
        c.written(CPU_SELECTION_OFFSET, data).read(CPU_SELECTION_OFFSET, len) == data.take(4)
            + controller::zeros(len - 4),
{
    bytes::le32_value_round_trip(data);
}

/// The status bits that the guest reads are the three flags of the vCPU, each in its place.
pub proof fn status_shows_the_flags(cpu: CpuState)
    ensures
        ({
            let status = controller::status_byte(cpu);
            &&& (status % 2 == 1) == cpu.enabled
            &&& (status / 2 % 2 == 1) == cpu.inserting
            &&& (status / 4 % 2 == 1) == cpu.removing
            &&& status < 8
        }),
{
}

/// After a hotplug the guest reads each new vCPU as enabled and inserting.
pub proof fn hotplug_is_visible(c: Controller, from: u8, to: u8, i: u32)
    requires
        from <= i < to,
        i < c.cpus.len(),
    ensures
        status(select(c.plugged(from, to), i)) == flag_value(CPU_ENABLE_FLAG) + flag_value(
            CPU_INSERTING_FLAG,
        ),
{
    selecting(c.plugged(from, to), i);
}

/// A write of a status bit leaves every vCPU but the selected one alone, and the selection too.
pub proof fn status_write_is_local(c: Controller, data: Seq<u8>, i: int)
    requires
        0 <= i < c.cpus.len(),
        i != c.selected_cpu,
    ensures
        c.written(CPU_STATUS_OFFSET, data).cpus[i] == c.cpus[i],
        c.written(CPU_STATUS_OFFSET, data).selected_cpu == c.selected_cpu,
{
}

/// A write that is none of a whole index to the selection register and of a status byte for a
/// vCPU that there is changes nothing, and a read elsewhere gives zeros.
pub proof fn other_accesses_do_nothing(c: Controller, offset: u64, data: Seq<u8>, len: nat)
    ensures
        offset != CPU_SELECTION_OFFSET && offset != CPU_STATUS_OFFSET ==> c.written(offset, data)
            == c && c.read(offset, len) == controller::zeros(len as int),
        data.len() < 4 ==> c.written(CPU_SELECTION_OFFSET, data) == c,
        data.len() == 0 || c.selected_cpu >= c.cpus.len() ==> c.written(CPU_STATUS_OFFSET, data)
            == c,
        len < 4 ==> c.read(CPU_SELECTION_OFFSET, len) == controller::zeros(len as int),
        c.selected_cpu >= c.cpus.len() ==> c.read(CPU_STATUS_OFFSET, len) == controller::zeros(
            len as int,
        ),
{
}

/// Acknowledging an insertion or a removal takes back that flag of the selected vCPU and no
/// other, and a second time does nothing more.
pub proof fn acknowledging(c: Controller)
    requires
        c.selected_cpu < c.cpus.len(),
    ensures
        ({
            let i = c.selected_cpu as int;
            let inserted = write_flag(c, CPU_INSERTING_FLAG);
            let removed = write_flag(c, CPU_REMOVING_FLAG);
            &&& inserted.cpus[i] == (CpuState { inserting: false, ..c.cpus[i] })
            &&& removed.cpus[i] == (CpuState { removing: false, ..c.cpus[i] })
            &&& write_flag(inserted, CPU_INSERTING_FLAG) == inserted
            &&& write_flag(removed, CPU_REMOVING_FLAG) == removed
        }),
{
    let inserted = write_flag(c, CPU_INSERTING_FLAG);
    let removed = write_flag(c, CPU_REMOVING_FLAG);
    assert(write_flag(inserted, CPU_INSERTING_FLAG).cpus =~= inserted.cpus);
    assert(write_flag(removed, CPU_REMOVING_FLAG).cpus =~= removed.cpus);
}

/// An enabled vCPU stays enabled through every operation but one: the guest's write of the eject
/// bit to it, where the machine did not boot with it.
pub proof fn only_ejection_disables(
    c: Controller,
    i: int,
    from: u8,
    to: u8,
    desired: u8,
    offset: u64,
    data: Seq<u8>,
)
    requires
        0 <= i < c.cpus.len(),
        c.cpus[i].enabled,
    ensures
        c.plugged(from, to).cpus[i].enabled,
        c.unplugged(desired).cpus[i].enabled,
        c.written(offset, data).cpus[i].enabled == !(offset == CPU_STATUS_OFFSET && c.selected_cpu
            == i && data.len() >= 1 && controller::ejects(data[0]) && i >= c.boot_vcpus),
{
}

/// The vCPUs that a machine booted with cannot be removed: no operation disables one, whatever
/// number of vCPUs is asked for and whatever the guest writes.
pub proof fn boot_vcpus_cannot_be_removed(
    c: Controller,
    i: int,
    from: u8,
    to: u8,
    desired: u8,
    offset: u64,
    data: Seq<u8>,
)
    requires
        0 <= i < c.cpus.len(),
        i < c.boot_vcpus,
        c.cpus[i].enabled,
    ensures
        c.plugged(from, to).cpus[i].enabled,
        c.unplugged(desired).cpus[i].enabled,
        c.written(offset, data).cpus[i].enabled,
{
}

/// A machine that has all its boot vCPUs never has fewer active vCPUs than it booted with,
/// whatever the next operation is.
pub proof fn active_never_falls_below_boot(
    c: Controller,
    from: u8,
    to: u8,
    desired: u8,
    offset: u64,
    data: Seq<u8>,
)
    requires
        c.consistent(),
        forall|i: int| 0 <= i < c.boot_vcpus ==> (#[trigger] c.cpus[i]).enabled,
    ensures
        c.boot_vcpus <= c.active(),
        c.boot_vcpus <= c.plugged(from, to).active(),
        c.boot_vcpus <= c.unplugged(desired).active(),
        c.boot_vcpus <= c.written(offset, data).active(),
{
    lemma_boot_counted(c);
    lemma_boot_counted(c.plugged(from, to));
    lemma_boot_counted(c.unplugged(desired));
    lemma_boot_counted(c.written(offset, data));
}

/// Enabled boot vCPUs are counted as active.
proof fn lemma_boot_counted(c: Controller)
    requires
        c.consistent(),
        forall|i: int| 0 <= i < c.boot_vcpus ==> (#[trigger] c.cpus[i]).enabled,
    ensures
        c.boot_vcpus <= c.active(),
{
    let boot = Seq::new(c.cpus.len(), |i: int| controller::quiet(i < c.boot_vcpus));
    lemma_count_prefix(boot, c.boot_vcpus as int);
    lemma_count_monotone(boot, c.cpus);
    active_is_enabled_count(c);
}

/// A write of the guest only takes flags back: it brings no vCPU in and raises no event. So it
/// never raises the number of active vCPUs, as long as that is counted without wrapping.
pub proof fn guest_writes_only_clear(c: Controller, offset: u64, data: Seq<u8>)
    ensures
        forall|i: int|
            0 <= i < c.cpus.len() ==> {
                let cpu = #[trigger] c.written(offset, data).cpus[i];
                &&& cpu.enabled ==> c.cpus[i].enabled
                &&& cpu.inserting ==> c.cpus[i].inserting
                &&& cpu.removing ==> c.cpus[i].removing
            },
        controller::enabled_count(c.written(offset, data).cpus) <= controller::enabled_count(
            c.cpus,
        ),
        c.cpus.len() < 0x100 ==> c.written(offset, data).active() <= c.active(),
{
    lemma_count_monotone(c.written(offset, data).cpus, c.cpus);
    if c.cpus.len() < 0x100 {
        active_is_enabled_count(c);
        active_is_enabled_count(c.written(offset, data));
    }
}

/// The event by which the guest notifies a vCPU's device of its insertion: a device check.
pub const INSERTION_EVENT: u8 = 1;

/// The event by which the guest notifies a vCPU's device of its removal: an eject request.
pub const REMOVAL_EVENT: u8 = 3;

/// The guest finds the insertion bit of the selected vCPU set.
pub open spec fn sees_insertion(c: Controller) -> bool {
    status(c) / 2 % 2 == 1
}

/// The guest finds the removal bit of the selected vCPU set.
pub open spec fn sees_removal(c: Controller) -> bool {
    status(c) / 4 % 2 == 1
}

/// The guest's first look at one vCPU: it selects it and acknowledges its insertion.
pub open spec fn scan_insertion(c: Controller, i: u32) -> Controller {
    let selected = select(c, i);
    if sees_insertion(selected) {
        write_flag(selected, CPU_INSERTING_FLAG)
    } else {
        selected
    }
}

/// The guest's scan of one vCPU: it selects it and acknowledges what it finds.
pub open spec fn scan_one(c: Controller, i: u32) -> Controller {
    let seen = scan_insertion(c, i);
    if sees_removal(seen) {
        write_flag(seen, CPU_REMOVING_FLAG)
    } else {
        seen
    }
}

/// What the guest's scan of one vCPU notifies: the vCPU and the event, for each event it finds.
pub open spec fn scan_one_notifications(c: Controller, i: u32) -> Seq<(u32, u8)> {
    let insertion = if sees_insertion(select(c, i)) {
        seq![(i, INSERTION_EVENT)]
    } else {
        seq![]
    };
    let removal = if sees_removal(scan_insertion(c, i)) {
        seq![(i, REMOVAL_EVENT)]
    } else {
        seq![]
    };
    insertion + removal
}

/// The guest's scan of the vCPUs below `n`, which is what the method `CSCN` does.
pub open spec fn scan(c: Controller, n: nat) -> Controller
    decreases n,
{
    if n == 0 {
        c
    } else {
        scan_one(scan(c, (n - 1) as nat), (n - 1) as u32)
    }
}

/// What the guest's scan of the vCPUs below `n` notifies, in the order in which it does.
pub open spec fn scan_notifications(c: Controller, n: nat) -> Seq<(u32, u8)>
    decreases n,
{
    if n == 0 {
        seq![]
    } else {
        scan_notifications(c, (n - 1) as nat) + scan_one_notifications(
            scan(c, (n - 1) as nat),
            (n - 1) as u32,
        )
    }
}

/// What a slot with the given flags is to be notified of.
spec fn slot_notifications(cpu: CpuState, i: u32) -> Seq<(u32, u8)> {
    let insertion = if cpu.inserting {
        seq![(i, INSERTION_EVENT)]
    } else {
        seq![]
    };
    let removal = if cpu.removing {
        seq![(i, REMOVAL_EVENT)]
    } else {
        seq![]
    };
    insertion + removal
}

/// Scanning one vCPU acknowledges everything on it, touches no other, and notifies what was
/// pending.
proof fn lemma_scan_one(c: Controller, i: u32)
    requires
        i < c.cpus.len(),
    ensures
        scan_one(c, i) == (Controller {
            selected_cpu: i,
            cpus: c.cpus.update(i as int, acknowledged(c.cpus[i as int])),
            ..c
        }),
        scan_one_notifications(c, i) == slot_notifications(c.cpus[i as int], i),
{
    selecting(c, i);
    let selected = select(c, i);
    status_shows_the_flags(selected.cpus[i as int]);
    let seen = scan_insertion(c, i);
    assert(seen.cpus[i as int] == (CpuState { inserting: false, ..c.cpus[i as int] }));
    status_shows_the_flags(seen.cpus[i as int]);
    assert(scan_one(c, i).cpus =~= c.cpus.update(i as int, acknowledged(c.cpus[i as int])));
}

/// A scan of the vCPUs below `n` acknowledges everything on them, enables and disables none, and
/// leaves the others alone.
pub proof fn scan_acknowledges(c: Controller, n: nat)
    requires
        n <= c.cpus.len(),
        n <= u32::MAX,
    ensures
        scan(c, n).cpus == Seq::new(
            c.cpus.len(),
            |i: int|
                if i < n {
                    acknowledged(c.cpus[i])
                } else {
                    c.cpus[i]
                },
        ),
        scan(c, n) == (Controller {
            cpus: scan(c, n).cpus,
            selected_cpu: scan(c, n).selected_cpu,
            ..c
        }),
        scan(c, n).active() == c.active(),
    decreases n,
{
    if n > 0 {
        scan_acknowledges(c, (n - 1) as nat);
        lemma_scan_one(scan(c, (n - 1) as nat), (n - 1) as u32);
    }
    assert(scan(c, n).cpus =~= Seq::new(
        c.cpus.len(),
        |i: int|
            if i < n {
                acknowledged(c.cpus[i])
            } else {
                c.cpus[i]
            },
    ));
    lemma_count_enabled(scan(c, n).cpus, c.cpus);
}

/// One notification comes before another: that of a lower vCPU, and of one vCPU its insertion
/// before its removal.
pub open spec fn notified_before(a: (u32, u8), b: (u32, u8)) -> bool {
    a.0 < b.0 || (a.0 == b.0 && a.1 < b.1)
}

/// A scan of the vCPUs below `n` notifies each that was inserting of its insertion, each that was
/// removing of its removal, and nothing else; in increasing order, so each once.
pub proof fn scan_notifies(c: Controller, n: nat)
    requires
        n <= c.cpus.len(),
        n <= u32::MAX,
    ensures
        forall|i: u32, event: u8| #[trigger]
            scan_notifications(c, n).contains((i, event)) <==> i < n && ((event == INSERTION_EVENT
                && c.cpus[i as int].inserting) || (event == REMOVAL_EVENT
                && c.cpus[i as int].removing)),
        forall|j: int, k: int|
            0 <= j < k < scan_notifications(c, n).len() ==> notified_before(
                #[trigger] scan_notifications(c, n)[j],
                #[trigger] scan_notifications(c, n)[k],
            ),
    decreases n,
{
    let list = scan_notifications(c, n);
    if n > 0 {
        let below = scan_notifications(c, (n - 1) as nat);
        let last = (n - 1) as u32;
        let own = slot_notifications(c.cpus[last as int], last);
        scan_notifies(c, (n - 1) as nat);
        scan_acknowledges(c, (n - 1) as nat);
        lemma_scan_one(scan(c, (n - 1) as nat), last);
        assert(list == below + own);
        assert forall|j: int| 0 <= j < below.len() implies (#[trigger] below[j]).0 < last by {
            assert(below.contains((below[j].0, below[j].1)));
        }
        assert forall|i: u32, event: u8| #[trigger]
            list.contains((i, event)) <==> i < n && ((event == INSERTION_EVENT
                && c.cpus[i as int].inserting) || (event == REMOVAL_EVENT
                && c.cpus[i as int].removing)) by {
            lemma_contains_concat(below, own, (i, event));
            lemma_slot_notifications(c.cpus[last as int], last, (i, event));
            assert(below.contains((i, event)) <==> i < last && ((event == INSERTION_EVENT
                && c.cpus[i as int].inserting) || (event == REMOVAL_EVENT
                && c.cpus[i as int].removing)));
        }
        assert forall|j: int, k: int| 0 <= j < k < list.len() implies notified_before(
            #[trigger] list[j],
            #[trigger] list[k],
        ) by {
            if k < below.len() {
                assert(notified_before(below[j], below[k]));
            }
        }
    }
}

/// A concatenation contains what its parts contain.
proof fn lemma_contains_concat(a: Seq<(u32, u8)>, b: Seq<(u32, u8)>, x: (u32, u8))
    ensures
        (a + b).contains(x) <==> a.contains(x) || b.contains(x),
{
    let whole = a + b;
    if whole.contains(x) {
        let j = choose|j: int| 0 <= j < whole.len() && whole[j] == x;
        if j < a.len() {
            assert(a[j] == x);
        } else {
            assert(b[j - a.len()] == x);
        }
    }
    if a.contains(x) {
        let j = choose|j: int| 0 <= j < a.len() && a[j] == x;
        assert(whole[j] == x);
    }
    if b.contains(x) {
        let j = choose|j: int| 0 <= j < b.len() && b[j] == x;
        assert(whole[a.len() + j] == x);
    }
}

/// The notifications of one slot are those of its flags.
proof fn lemma_slot_notifications(cpu: CpuState, i: u32, x: (u32, u8))
    ensures
        slot_notifications(cpu, i).contains(x) <==> x.0 == i && ((x.1 == INSERTION_EVENT
            && cpu.inserting) || (x.1 == REMOVAL_EVENT && cpu.removing)),
{
    let list = slot_notifications(cpu, i);
    if cpu.inserting {
        assert(list[0] == (i, INSERTION_EVENT));
    }
    if cpu.removing {
        assert(list[list.len() - 1] == (i, REMOVAL_EVENT));
    }
}

/// The guest's ejection of vCPU `i`, which is what its method `_EJ0` does.
pub open spec fn eject(c: Controller, i: u32) -> Controller {
    write_flag(select(c, i), CPU_EJECT_FLAG)
}

/// A slot after its vCPU was ejected.
pub open spec fn after_ejection(cpu: CpuState) -> CpuState {
    CpuState { enabled: false, ejected: true, ..cpu }
}

/// Ejecting a vCPU disables it, unless the machine booted with it, and touches nothing else but
/// the selection.
pub proof fn ejecting(c: Controller, i: u32)
    requires
        i < c.cpus.len(),
    ensures
        eject(c, i) == (Controller {
            selected_cpu: i,
            cpus: if i < c.boot_vcpus {
                c.cpus
            } else {
                c.cpus.update(i as int, after_ejection(c.cpus[i as int]))
            },
            ..c
        }),
{
    selecting(c, i);
    if i < c.boot_vcpus {
        assert(eject(c, i).cpus =~= c.cpus);
    } else {
        assert(eject(c, i).cpus =~= c.cpus.update(i as int, after_ejection(c.cpus[i as int])));
    }
}

/// Which slots are listed as ejected: those beyond the boot vCPUs that have completed ejection.
/// They are listed in increasing order, so each once.
pub proof fn ejected_list(cpus: Seq<CpuState>, boot_vcpus: u8)
    requires
        cpus.len() <= 0x100,
    ensures
        forall|i: u8|
            controller::out_slots(cpus, boot_vcpus).contains(i) <==> boot_vcpus <= i < cpus.len()
                && controller::is_out(cpus[i as int]),
        forall|j: int, k: int|
            0 <= j < k < controller::out_slots(cpus, boot_vcpus).len() ==> controller::out_slots(
                cpus,
                boot_vcpus,
            )[j] < controller::out_slots(cpus, boot_vcpus)[k],
    decreases cpus.len(),
{
    let list = controller::out_slots(cpus, boot_vcpus);
    if cpus.len() > 0 {
        let rest = cpus.drop_last();
        let below = controller::out_slots(rest, boot_vcpus);
        ejected_list(rest, boot_vcpus);
        let last = (cpus.len() - 1) as u8;
        assert forall|j: int| 0 <= j < below.len() implies #[trigger] below[j] < last by {
            assert(below.contains(below[j]));
        }
        assert forall|i: u8|
            list.contains(i) <==> boot_vcpus <= i < cpus.len() && controller::is_out(
                cpus[i as int],
            ) by {
            if i < last {
                assert(cpus[i as int] == rest[i as int]);
            }
            if list.contains(i) {
                let j = choose|j: int| 0 <= j < list.len() && list[j] == i;
                if j < below.len() {
                    assert(below.contains(i));
                }
            }
            if below.contains(i) {
                let j = choose|j: int| 0 <= j < below.len() && below[j] == i;
                assert(list[j] == i);
            }
            if list.len() > below.len() && i == last {
                assert(list[below.len() as int] == i);
            }
        }
    }
}

/// Enabling slots does not lower their number.
proof fn lemma_count_monotone(a: Seq<CpuState>, b: Seq<CpuState>)
    requires
        a.len() == b.len(),
        forall|i: int| 0 <= i < a.len() ==> ((#[trigger] a[i]).enabled ==> b[i].enabled),
    ensures
        controller::enabled_count(a) <= controller::enabled_count(b),
    decreases a.len(),
{
    if a.len() > 0 {
        assert(a[a.len() - 1].enabled ==> b[a.len() - 1].enabled);
        lemma_count_monotone(a.drop_last(), b.drop_last());
    }
}

/// Disabling an enabled slot lowers their number by one.
proof fn lemma_count_disable(cpus: Seq<CpuState>, i: int)
    requires
        0 <= i < cpus.len(),
        cpus[i].enabled,
    ensures
        controller::enabled_count(cpus.update(i, after_ejection(cpus[i])))
            == controller::enabled_count(cpus) - 1,
    decreases cpus.len(),
{
    let off = after_ejection(cpus[i]);
    if i < cpus.len() - 1 {
        lemma_count_disable(cpus.drop_last(), i);
        assert(cpus.update(i, off).drop_last() =~= cpus.drop_last().update(i, off));
    } else {
        assert(cpus.update(i, off).drop_last() =~= cpus.drop_last());
    }
}

/// Hotplug never lowers the number of active vCPUs.
pub proof fn hotplug_never_shrinks(c: Controller, from: u8, to: u8)
    requires
        c.cpus.len() < 0x100,
    ensures
        c.active() <= c.plugged(from, to).active(),
{
    lemma_count_monotone(c.cpus, c.plugged(from, to).cpus);
    active_is_enabled_count(c);
    active_is_enabled_count(c.plugged(from, to));
}

/// Ejecting an enabled vCPU that the machine did not boot with lowers the number of active vCPUs
/// by one. If nothing was pending on it, it is then listed as ejected.
pub proof fn ejection_completes(c: Controller, i: u32)
    requires
        c.cpus.len() < 0x100,
        c.boot_vcpus <= i < c.cpus.len(),
        c.cpus[i as int].enabled,
    ensures
        eject(c, i).active() == c.active() - 1,
        !c.cpus[i as int].inserting && !c.cpus[i as int].removing
            ==> controller::out_slots(eject(c, i).cpus, c.boot_vcpus).contains(i as u8),
{
    ejecting(c, i);
    lemma_count_disable(c.cpus, i as int);
    active_is_enabled_count(c);
    active_is_enabled_count(eject(c, i));
    ejected_list(eject(c, i).cpus, c.boot_vcpus);
}

/// The guest's ejection of the vCPUs `from..to`.
pub open spec fn eject_range(c: Controller, from: nat, to: nat) -> Controller
    decreases to,
{
    if to <= from {
        c
    } else {
        eject(eject_range(c, from, (to - 1) as nat), (to - 1) as u32)
    }
}

/// Ejecting a range beyond the boot vCPUs disables it and touches nothing else but the selection.
proof fn lemma_eject_range(c: Controller, from: nat, to: nat)
    requires
        c.boot_vcpus <= from <= to <= c.cpus.len(),
        to <= u32::MAX,
    ensures
        eject_range(c, from, to).cpus == Seq::new(
            c.cpus.len(),
            |i: int|
                if from <= i < to {
                    after_ejection(c.cpus[i])
                } else {
                    c.cpus[i]
                },
        ),
        eject_range(c, from, to) == (Controller {
            cpus: eject_range(c, from, to).cpus,
            selected_cpu: eject_range(c, from, to).selected_cpu,
            ..c
        }),
    decreases to,
{
    if from < to {
        lemma_eject_range(c, from, (to - 1) as nat);
        ejecting(eject_range(c, from, (to - 1) as nat), (to - 1) as u32);
    }
    assert(eject_range(c, from, to).cpus =~= Seq::new(
        c.cpus.len(),
        |i: int|
            if from <= i < to {
                after_ejection(c.cpus[i])
            } else {
                c.cpus[i]
            },
    ));
}

/// How many vCPUs stay if `desired` are asked for: never fewer than the boot vCPUs.
pub open spec fn kept(c: Controller, desired: u8) -> u8 {
    if desired < c.boot_vcpus {
        c.boot_vcpus
    } else {
        desired
    }
}

/// Removal with a guest that cooperates: where `n` vCPUs run and `desired` are asked for, and the
/// guest scans all vCPUs and ejects those that were marked, the machine runs `desired` vCPUs, or
/// its boot vCPUs if they are more. Nothing is pending. Listed as ejected are the slots that ran
/// and no longer do, and those above that had been ejected before.
pub proof fn unplug_completes(c: Controller, n: u8, desired: u8)
    requires
        c.cpus.len() <= 0x100,
        runs(c, n as int),
        desired <= n,
        c.boot_vcpus <= n,
    ensures
        ({
            let keep = kept(c, desired);
            let scanned = scan(c.unplugged(desired), c.cpus.len());
            let done = eject_range(scanned, keep as nat, n as nat);
            &&& same_shape(done, c)
            &&& runs(done, keep as int)
            &&& settled(done)
            &&& done.active() == keep
            &&& forall|i: u8|
                controller::out_slots(done.cpus, done.boot_vcpus).contains(i) <==> (keep <= i
                    < n || (n <= i < c.cpus.len() && c.cpus[i as int].ejected))
        }),
{
    let keep = kept(c, desired);
    let scanned = scan(c.unplugged(desired), c.cpus.len());
    let done = eject_range(scanned, keep as nat, n as nat);
    scan_acknowledges(c.unplugged(desired), c.cpus.len());
    lemma_eject_range(scanned, keep as nat, n as nat);
    lemma_count_prefix(done.cpus, keep as int);
    ejected_list(done.cpus, done.boot_vcpus);
}

/// A snapshot is what is saved of the controller that it brings back, if it says of each slot
/// whether it was ejected; else what is saved differs from it in that record alone.
pub proof fn restore_then_save(state: CpuHotplugControllerState, saved: CpuHotplugControllerState)
    requires
        Controller::restored(state).is_saved_as(saved),
    ensures
        saved.boot_vcpus == state.boot_vcpus,
        saved.max_vcpus == state.max_vcpus,
        saved.mmio_addr == state.mmio_addr,
        saved.gsi == state.gsi,
        saved.cpu_enabled@ == state.cpu_enabled@,
        Controller::restored(state).is_saved_as(state) <==> state.cpu_ejected@.len()
            == state.cpu_enabled@.len(),
{
    let r = Controller::restored(state);
    assert(r.cpus.map_values(|cpu: CpuState| cpu.enabled) =~= state.cpu_enabled@);
    if state.cpu_ejected@.len() == state.cpu_enabled@.len() {
        assert(r.cpus.map_values(|cpu: CpuState| cpu.ejected) =~= state.cpu_ejected@);
    }
}

/// Saving and restoring keeps the boot and maximum numbers, the registers' address, the
/// interrupt, and of each vCPU whether it is enabled and whether it was ejected. Of a controller
/// with nothing pending and vCPU 0 selected it keeps everything.
pub proof fn save_then_restore(c: Controller, state: CpuHotplugControllerState)
    requires
        c.is_saved_as(state),
    ensures
        Controller::restored(state) == (Controller {
            selected_cpu: 0,
            cpus: Controller::restored(state).cpus,
            ..c
        }),
        Controller::restored(state).cpus == Seq::new(
            c.cpus.len(),
            |i: int| acknowledged(c.cpus[i]),
        ),
        Controller::restored(state).active() == c.active(),
        Controller::restored(state).consistent() == c.consistent(),
        settled(c) && c.selected_cpu == 0 ==> Controller::restored(state) == c,
{
    let r = Controller::restored(state);
    assert forall|i: int| 0 <= i < c.cpus.len() implies #[trigger] r.cpus[i] == acknowledged(
        c.cpus[i],
    ) by {
        assert(state.cpu_enabled@[i] == c.cpus[i].enabled);
        assert(state.cpu_ejected@[i] == c.cpus[i].ejected);
    }
    assert(r.cpus =~= Seq::new(c.cpus.len(), |i: int| acknowledged(c.cpus[i])));
    lemma_count_enabled(r.cpus, c.cpus);
    if settled(c) && c.selected_cpu == 0 {
        assert(r.cpus =~= c.cpus);
    }
}

/// Saving and restoring loses no ejection: what was listed as ejected still is, and where nothing
/// was pending the list is the same.
pub proof fn snapshots_keep_the_ejected(c: Controller, state: CpuHotplugControllerState)
    requires
        c.is_saved_as(state),
        c.cpus.len() <= 0x100,
    ensures
        forall|i: u8| #[trigger]
            controller::out_slots(c.cpus, c.boot_vcpus).contains(i) ==> controller::out_slots(
                Controller::restored(state).cpus,
                c.boot_vcpus,
            ).contains(i),
        settled(c) ==> controller::out_slots(Controller::restored(state).cpus, c.boot_vcpus)
            == controller::out_slots(c.cpus, c.boot_vcpus),
{
    let r = Controller::restored(state);
    save_then_restore(c, state);
    ejected_list(c.cpus, c.boot_vcpus);
    ejected_list(r.cpus, c.boot_vcpus);
    if settled(c) {
        assert(r.cpus =~= c.cpus);
    }
}

/// A snapshot that says of no slot whether it was ejected brings back a controller that lists
/// every slot without a vCPU, beyond the boot vCPUs.
pub proof fn restored_without_a_record(state: CpuHotplugControllerState)
    requires
        state.cpu_ejected@.len() == 0,
        state.cpu_enabled@.len() <= 0x100,
    ensures
        forall|i: u8| #[trigger]
            controller::out_slots(
                Controller::restored(state).cpus,
                state.boot_vcpus,
            ).contains(i) <==> state.boot_vcpus <= i < state.cpu_enabled@.len()
                && !state.cpu_enabled@[i as int],
{
    ejected_list(Controller::restored(state).cpus, state.boot_vcpus);
}

/// The length that a package length stands for: six bits if it is one byte, else four bits of
/// the first byte and the bytes that follow.
pub open spec fn pkg_length_value(length: Seq<u8>) -> int {
    if length.len() == 1 {
        length[0] as int
    } else if length.len() == 2 {
        length[0] % 0x10 + length[1] * 0x10
    } else if length.len() == 3 {
        length[0] % 0x10 + length[1] * 0x10 + length[2] * 0x1000
    } else {
        length[0] % 0x10 + length[1] * 0x10 + length[2] * 0x1000 + length[3] * 0x10_0000
    }
}

/// A number is put together again from its low four bits and the bytes above them.
proof fn lemma_digits(t: int)
    requires
        0 <= t < 0x1000_0000,
    ensures
        t == t % 0x10 + t / 0x10 * 0x10,
        t == t % 0x10 + t / 0x10 % 0x100 * 0x10 + t / 0x1000 * 0x1000,
        t == t % 0x10 + t / 0x10 % 0x100 * 0x10 + t / 0x1000 % 0x100 * 0x1000 + t / 0x10_0000
            * 0x10_0000,
        t / 0x10_0000 < 0x100,
{
    let q = t / 0x10;
    assert(t / 0x1000 == q / 0x100);
    assert(t / 0x10_0000 == q / 0x100 / 0x100);
}

/// A package says how long it is: its first byte tells how many bytes of length follow, and the
/// length is that of the content and of itself.
pub proof fn package_length_is_exact(content: Seq<u8>)
    requires
        content.len() + 4 < 0x1000_0000,
    ensures
        ({
            let length = grammar::pkg_length(content.len());
            &&& length[0] / 0x40 == length.len() - 1
            &&& pkg_length_value(length) == grammar::package(content).len()
            &&& grammar::package(content) == length + content
        }),
{
    let n = content.len() as int;
    let length = grammar::pkg_length(content.len());
    if n + 1 < 0x40 {
        assert(length[0] == n + 1);
    } else if n + 2 < 0x1000 {
        lemma_digits(n + 2);
        assert(length[0] == 0x40 + (n + 2) % 0x10 && length[1] == (n + 2) / 0x10);
    } else if n + 3 < 0x10_0000 {
        lemma_digits(n + 3);
        assert(length[0] == 0x80 + (n + 3) % 0x10 && length[1] == (n + 3) / 0x10 % 0x100
            && length[2] == (n + 3) / 0x1000);
    } else {
        lemma_digits(n + 4);
        assert(length[0] == 0xc0 + (n + 4) % 0x10 && length[1] == (n + 4) / 0x10 % 0x100
            && length[2] == (n + 4) / 0x1000 % 0x100 && length[3] == (n + 4) / 0x10_0000);
    }
}

/// How many bits an entry of a field takes.
pub open spec fn entry_bits(entry: FieldEntry) -> int {
    match entry {
        FieldEntry::Named(_, bits) => bits as int,
        FieldEntry::Reserved(bits) => bits as int,
    }
}

/// At which bit of the region the entry number `k` starts.
pub open spec fn entry_offset(entries: Seq<FieldEntry>, k: nat) -> int
    decreases k,
{
    if k == 0 {
        0
    } else {
        entry_offset(entries, (k - 1) as nat) + entry_bits(entries[k - 1])
    }
}

/// The fields that the guest is told of are the registers that the controller has: each flag at
/// its bit of the status byte, the selection register at its offset, and nothing beyond the
/// window.
pub proof fn fields_match_registers()
    ensures
        ({
            let status = cpu_aml::status_fields();
            let words = cpu_aml::word_fields();
            &&& status[1] == FieldEntry::Named("CPEN", 1)
            &&& entry_offset(status, 1) == 8 * CPU_STATUS_OFFSET + CPU_ENABLE_FLAG
            &&& status[2] == FieldEntry::Named("CINS", 1)
            &&& entry_offset(status, 2) == 8 * CPU_STATUS_OFFSET + CPU_INSERTING_FLAG
            &&& status[3] == FieldEntry::Named("CRMV", 1)
            &&& entry_offset(status, 3) == 8 * CPU_STATUS_OFFSET + CPU_REMOVING_FLAG
            &&& status[4] == FieldEntry::Named("CEJ0", 1)
            &&& entry_offset(status, 4) == 8 * CPU_STATUS_OFFSET + CPU_EJECT_FLAG
            &&& words[0] == FieldEntry::Named("CSEL", 32)
            &&& entry_offset(words, 0) == 8 * CPU_SELECTION_OFFSET
            &&& entry_offset(status, status.len()) <= 8 * CPU_HOTPLUG_MMIO_SIZE
            &&& entry_offset(words, words.len()) == 8 * CPU_HOTPLUG_MMIO_SIZE
        }),
{
    reveal_with_fuel(entry_offset, 8);
}

/// Different vCPUs have devices of different names.
pub proof fn cpu_names_differ(a: u8, b: u8)
    requires
        a != b,
    ensures
        cpu_aml::cpu_name(a) != cpu_aml::cpu_name(b),
        cpu_aml::cpu_path(a) != cpu_aml::cpu_path(b),
{
    let (x, y) = (cpu_aml::cpu_name(a), cpu_aml::cpu_name(b));
    assert(a == a / 16 * 16 + a % 16 && b == b / 16 * 16 + b % 16);
    assert(x[2] != y[2] || x[3] != y[3]);
    let k = "\\_SB_.CPUS."@.len() as int;
    assert(cpu_aml::cpu_path(a)[k + 2] == x[2] && cpu_aml::cpu_path(a)[k + 3] == x[3]);
    assert(cpu_aml::cpu_path(b)[k + 2] == y[2] && cpu_aml::cpu_path(b)[k + 3] == y[3]);
}

/// Every vCPU below the maximum has its device among those of the guest, and its branch in the
/// method that notifies; before them are those of the lower vCPUs.
pub proof fn every_vcpu_is_described(max_vcpus: u8, cpu_id: u8)
    requires
        cpu_id < max_vcpus,
    ensures
        (cpu_aml::cpu_devices(cpu_id as nat) + cpu_aml::cpu_device(cpu_id)).is_prefix_of(
            cpu_aml::cpu_devices(max_vcpus as nat),
        ),
        (cpu_aml::cpu_notifies(cpu_id as nat) + cpu_aml::cpu_notify(cpu_id)).is_prefix_of(
            cpu_aml::cpu_notifies(max_vcpus as nat),
        ),
    decreases max_vcpus,
{
    if cpu_id < max_vcpus - 1 {
        every_vcpu_is_described((max_vcpus - 1) as u8, cpu_id);
        lemma_prefix_grows(
            cpu_aml::cpu_devices(cpu_id as nat) + cpu_aml::cpu_device(cpu_id),
            cpu_aml::cpu_devices((max_vcpus - 1) as nat),
            cpu_aml::cpu_device((max_vcpus - 1) as u8),
        );
        lemma_prefix_grows(
            cpu_aml::cpu_notifies(cpu_id as nat) + cpu_aml::cpu_notify(cpu_id),
            cpu_aml::cpu_notifies((max_vcpus - 1) as nat),
            cpu_aml::cpu_notify((max_vcpus - 1) as u8),
        );
    }
}

/// What starts a sequence starts every extension of it.
proof fn lemma_prefix_grows(start: Seq<u8>, whole: Seq<u8>, more: Seq<u8>)
    requires
        start.is_prefix_of(whole),
    ensures
        start.is_prefix_of(whole + more),
{
    assert(start =~= (whole + more).subrange(0, start.len() as int));
}

/// A machine without a CPU hotplug controller describes its two devices and an event device for
/// their two interrupts, and nothing of vCPUs.
pub proof fn hotplug_is_optional(vmgenid: VmGenId, vmclock: VmClock)
    requires
        vmgenid.aml is Ok,
        vmclock.aml is Ok,
    ensures
        manager::devices_aml(vmgenid, vmclock, None) == (
            vmgenid.aml->Ok_0@ + vmclock.aml->Ok_0@ + manager::ged_device(
                vmgenid.gsi,
                vmclock.gsi,
                None,
            ),
            Ok::<(), cpu_aml::AmlError>(()),
        ),
{
    let devices = vmgenid.aml->Ok_0@ + vmclock.aml->Ok_0@;
    assert(devices + seq![] =~= devices);
}

} // verus!
