//! The AML that describes the CPU hotplug controller and the vCPUs to the guest.
//!
//! The controller is the device `\_SB_.PRES`, whose fields are the bits of the register window.
//! The vCPUs are the devices `C000`, `C001` and so on under `\_SB_.CPUS`, which also holds the
//! methods they share: `CSTA` tells whether a vCPU is present, `CTFY` notifies one vCPU, and
//! `CSCN` goes over all of them after an event.

use vstd::prelude::*;

use crate::aml::grammar;
use crate::aml::grammar::{FieldAccess, FieldEntry, FieldUpdate};
use crate::aml::objects;
use crate::aml::terms;
use crate::controller::{CpuHotplugController, CPU_HOTPLUG_MMIO_SIZE};

verus! {

/// Why AML could not be made.
#[derive(Clone, Copy, Debug, PartialEq, Eq, Structural)]
pub enum AmlError {
    /// Invalid address range.
    AddressRange,
    /// Whatever else keeps a device from being described.
    Other,
}

/// An upper-case hexadecimal digit.
pub open spec fn hex_digit(n: int) -> char {
    if n < 10 {
        ('0' as int + n) as char
    } else {
        ('A' as int + n - 10) as char
    }
}

/// The name of a vCPU's device: `C` and the index in three hexadecimal digits.
pub open spec fn cpu_name(cpu_id: u8) -> Seq<char> {
    seq!['C', '0', hex_digit(cpu_id as int / 16), hex_digit(cpu_id as int % 16)]
}

/// The name of a vCPU's device, from the root.
pub open spec fn cpu_path(cpu_id: u8) -> Seq<char> {
    "\\_SB_.CPUS."@ + cpu_name(cpu_id)
}

/// The branch of `CTFY` for one vCPU: if the first argument is its index, notify it of the
/// second.
pub open spec fn cpu_notify(cpu_id: u8) -> Seq<u8> {
    grammar::if_then(
        grammar::equal(grammar::arg(0), grammar::integer(cpu_id as u64)),
        grammar::notify(grammar::path(cpu_path(cpu_id)), grammar::arg(1)),
    )
}

/// The branches for the vCPUs below `n`.
pub open spec fn cpu_notifies(n: nat) -> Seq<u8>
    decreases n,
{
    if n == 0 {
        seq![]
    } else {
        cpu_notifies((n - 1) as nat) + cpu_notify((n - 1) as u8)
    }
}

/// `CSTA`: selects the vCPU of its argument and returns 15 if it is present, else 0.
pub open spec fn csta_method() -> Seq<u8> {
    grammar::method(
        "CSTA"@,
        1,
        true,
        grammar::acquire("\\_SB_.PRES.CPLK"@, 0xffff) + grammar::store(
            grammar::path("\\_SB_.PRES.CSEL"@),
            grammar::arg(0),
        ) + grammar::store(grammar::local(0), grammar::integer(0)) + grammar::if_then(
            grammar::equal(grammar::path("\\_SB_.PRES.CPEN"@), grammar::integer(1)),
            grammar::store(grammar::local(0), grammar::integer(0x0f)),
        ) + grammar::release("\\_SB_.PRES.CPLK"@) + grammar::returns_value(grammar::local(0)),
    )
}

/// `CTFY`: notifies the vCPU of its first argument of its second.
pub open spec fn ctfy_method(max_vcpus: u8) -> Seq<u8> {
    grammar::method("CTFY"@, 2, true, cpu_notifies(max_vcpus as nat))
}

/// The part of `CSCN` for one kind of event: if the flag of the selected vCPU is set, notify the
/// vCPU and write the flag back to acknowledge it.
pub open spec fn scan_event(flag: Seq<char>, event: u8) -> Seq<u8> {
    grammar::if_then(
        grammar::equal(grammar::path(flag), grammar::integer(1)),
        grammar::call("CTFY"@, grammar::local(0) + grammar::integer(event as u64))
            + grammar::store(grammar::path(flag), grammar::integer(1)),
    )
}

/// `CSCN`: selects each vCPU in turn and passes on its insertion, as event 1, and its removal, as
/// event 3.
pub open spec fn cscn_method(max_vcpus: u8) -> Seq<u8> {
    grammar::method(
        "CSCN"@,
        0,
        true,
        grammar::acquire("\\_SB_.PRES.CPLK"@, 0xffff) + grammar::store(
            grammar::local(0),
            grammar::integer(0),
        ) + grammar::while_loop(
            grammar::less_than(grammar::local(0), grammar::integer(max_vcpus as u64)),
            grammar::store(grammar::path("\\_SB_.PRES.CSEL"@), grammar::local(0)) + scan_event(
                "\\_SB_.PRES.CINS"@,
                1,
            ) + scan_event("\\_SB_.PRES.CRMV"@, 3) + grammar::sum(
                grammar::local(0),
                grammar::local(0),
                grammar::integer(1),
            ),
        ) + grammar::release("\\_SB_.PRES.CPLK"@),
    )
}

/// The interrupt controller entry of a vCPU: a local APIC, enabled, with the vCPU's index as
/// processor and APIC number.
pub open spec fn apic_entry(cpu_id: u8) -> Seq<u8> {
    seq![0u8, 8, cpu_id, cpu_id, 1, 0, 0, 0]
}

/// The device of a vCPU.
pub open spec fn cpu_device(cpu_id: u8) -> Seq<u8> {
    grammar::device(
        cpu_name(cpu_id),
        grammar::named("_HID"@, grammar::string("ACPI0007"@)) + grammar::named(
            "_UID"@,
            grammar::integer(cpu_id as u64),
        ) + grammar::method(
            "_STA"@,
            0,
            false,
            grammar::returns_value(grammar::call("CSTA"@, grammar::integer(cpu_id as u64))),
        ) + grammar::method(
            "_EJ0"@,
            1,
            false,
            grammar::store(grammar::path("\\_SB_.PRES.CSEL"@), grammar::integer(cpu_id as u64))
                + grammar::store(grammar::path("\\_SB_.PRES.CEJ0"@), grammar::integer(1)),
        ) + grammar::named("_MAT"@, grammar::buffer(apic_entry(cpu_id))),
    )
}

/// The devices of the vCPUs below `n`.
pub open spec fn cpu_devices(n: nat) -> Seq<u8>
    decreases n,
{
    if n == 0 {
        seq![]
    } else {
        cpu_devices((n - 1) as nat) + cpu_device((n - 1) as u8)
    }
}

/// The bits of the status register, accessed byte by byte.
pub open spec fn status_fields() -> Seq<FieldEntry> {
    seq![
        FieldEntry::Reserved(32),
        FieldEntry::Named("CPEN", 1),
        FieldEntry::Named("CINS", 1),
        FieldEntry::Named("CRMV", 1),
        FieldEntry::Named("CEJ0", 1),
        FieldEntry::Reserved(4),
        FieldEntry::Named("CCMD", 8),
    ]
}

/// The registers that are accessed as double words.
pub open spec fn word_fields() -> Seq<FieldEntry> {
    seq![
        FieldEntry::Named("CSEL", 32),
        FieldEntry::Reserved(32),
        FieldEntry::Named("CDAT", 32),
    ]
}

/// The register window at `mmio_addr` ends within the address space and is addressable.
pub open spec fn window_fits(mmio_addr: u64) -> bool {
    mmio_addr + (CPU_HOTPLUG_MMIO_SIZE - 1) <= u64::MAX && mmio_addr <= usize::MAX
}

/// The device of the controller, whose registers are at `mmio_addr`.
pub open spec fn controller_device(mmio_addr: u64) -> Seq<u8> {
    grammar::device(
        "_SB_.PRES"@,
        grammar::named("_HID"@, grammar::string("PNP0A06"@)) + grammar::named(
            "_UID"@,
            grammar::string("CPU Hotplug Controller"@),
        ) + grammar::mutex("CPLK"@, 0) + grammar::named(
            "_CRS"@,
            grammar::resource_template(
                grammar::memory_range(
                    true,
                    mmio_addr,
                    (mmio_addr + (CPU_HOTPLUG_MMIO_SIZE - 1)) as u64,
                ),
            ),
        ) + grammar::memory_region("PRST"@, mmio_addr, CPU_HOTPLUG_MMIO_SIZE) + grammar::field(
            "PRST"@,
            FieldAccess::Byte,
            FieldUpdate::WriteAsZeroes,
            status_fields(),
        ) + grammar::field("PRST"@, FieldAccess::DWord, FieldUpdate::Preserve, word_fields()),
    )
}

/// The device that holds the vCPUs and their methods.
pub open spec fn cpus_device(max_vcpus: u8) -> Seq<u8> {
    grammar::device(
        "_SB_.CPUS"@,
        grammar::named("_HID"@, grammar::string("ACPI0010"@)) + grammar::named(
            "_CID"@,
            grammar::eisa_id("PNP0A05"@),
        ) + csta_method() + ctfy_method(max_vcpus) + cscn_method(max_vcpus) + cpu_devices(
            max_vcpus as nat,
        ),
    )
}

/// The AML of a controller with its registers at `mmio_addr` and up to `max_vcpus` vCPUs.
pub open spec fn hotplug_aml(mmio_addr: u64, max_vcpus: u8) -> Seq<u8> {
    controller_device(mmio_addr) + cpus_device(max_vcpus)
}

/// The names of the controller's fields and mutex, from the root.
pub proof fn lemma_controller_names()
    ensures
        grammar::is_path("\\_SB_.PRES.CPLK"@),
        grammar::is_path("\\_SB_.PRES.CSEL"@),
        grammar::is_path("\\_SB_.PRES.CPEN"@),
        grammar::is_path("\\_SB_.PRES.CINS"@),
        grammar::is_path("\\_SB_.PRES.CRMV"@),
        grammar::is_path("\\_SB_.PRES.CEJ0"@),
        grammar::path("\\_SB_.PRES.CPLK"@).len() == 15,
        grammar::path("\\_SB_.PRES.CSEL"@).len() == 15,
        grammar::path("\\_SB_.PRES.CPEN"@).len() == 15,
        grammar::path("\\_SB_.PRES.CINS"@).len() == 15,
        grammar::path("\\_SB_.PRES.CRMV"@).len() == 15,
        grammar::path("\\_SB_.PRES.CEJ0"@).len() == 15,
{
    reveal_strlit("\\_SB_.PRES.CPLK");
    reveal_strlit("\\_SB_.PRES.CSEL");
    reveal_strlit("\\_SB_.PRES.CPEN");
    reveal_strlit("\\_SB_.PRES.CINS");
    reveal_strlit("\\_SB_.PRES.CRMV");
    reveal_strlit("\\_SB_.PRES.CEJ0");
    grammar::lemma_three_rooted_segments("\\_SB_.PRES.CPLK"@);
    grammar::lemma_three_rooted_segments("\\_SB_.PRES.CSEL"@);
    grammar::lemma_three_rooted_segments("\\_SB_.PRES.CPEN"@);
    grammar::lemma_three_rooted_segments("\\_SB_.PRES.CINS"@);
    grammar::lemma_three_rooted_segments("\\_SB_.PRES.CRMV"@);
    grammar::lemma_three_rooted_segments("\\_SB_.PRES.CEJ0"@);
}

/// The names of the methods.
proof fn lemma_method_names()
    ensures
        grammar::is_path("CSTA"@),
        grammar::is_path("CTFY"@),
        grammar::is_path("CSCN"@),
        grammar::path("CSTA"@).len() == 4,
        grammar::path("CTFY"@).len() == 4,
        grammar::path("CSCN"@).len() == 4,
{
    reveal_strlit("CSTA");
    reveal_strlit("CTFY");
    reveal_strlit("CSCN");
    grammar::lemma_one_segment("CSTA"@);
    grammar::lemma_one_segment("CTFY"@);
    grammar::lemma_one_segment("CSCN"@);
}

/// The name of a vCPU's device is a name string, alone and from the root.
pub proof fn lemma_cpu_names(cpu_id: u8)
    ensures
        grammar::is_path(cpu_name(cpu_id)),
        grammar::is_path(cpu_path(cpu_id)),
        grammar::path(cpu_name(cpu_id)).len() == 4,
        grammar::path(cpu_path(cpu_id)).len() == 15,
{
    reveal_strlit("\\_SB_.CPUS.");
    let name = cpu_name(cpu_id);
    let path = cpu_path(cpu_id);
    assert(path[11] == name[0] && path[12] == name[1] && path[13] == name[2] && path[14]
        == name[3]);
    grammar::lemma_one_segment(name);
    grammar::lemma_three_rooted_segments(path);
}

/// An upper-case hexadecimal digit.
fn hex_text(n: u8) -> (r: &'static str)
    requires
        n < 16,
    ensures
        r@ == seq![hex_digit(n as int)],
{
    proof {
        reveal_strlit("0");
        reveal_strlit("1");
        reveal_strlit("2");
        reveal_strlit("3");
        reveal_strlit("4");
        reveal_strlit("5");
        reveal_strlit("6");
        reveal_strlit("7");
        reveal_strlit("8");
        reveal_strlit("9");
        reveal_strlit("A");
        reveal_strlit("B");
        reveal_strlit("C");
        reveal_strlit("D");
        reveal_strlit("E");
        reveal_strlit("F");
    }
    let text = match n {
        0 => "0",
        1 => "1",
        2 => "2",
        3 => "3",
        4 => "4",
        5 => "5",
        6 => "6",
        7 => "7",
        8 => "8",
        9 => "9",
        10 => "A",
        11 => "B",
        12 => "C",
        13 => "D",
        14 => "E",
        _ => "F",
    };
    assert(text@ =~= seq![hex_digit(n as int)]);
    text
}

/// The text of `prefix` and then the name of a vCPU's device.
fn cpu_text(prefix: &str, cpu_id: u8) -> (r: String)
    ensures
        r@ == prefix@ + cpu_name(cpu_id),
{
    proof {
        reveal_strlit("C0");
    }
    let mut text = prefix.to_owned();
    text.append("C0");
    text.append(hex_text(cpu_id / 16));
    text.append(hex_text(cpu_id % 16));
    assert(text@ =~= prefix@ + cpu_name(cpu_id));
    text
}

/// The branch of `CTFY` for one vCPU.
#[derive(Debug)]
pub struct CpuNotify {
    pub cpu_id: u8,
}

impl CpuNotify {
    /// Appends the branch.
    pub fn append_aml_bytes(&self, v: &mut Vec<u8>)
        ensures
            final(v)@ == old(v)@ + cpu_notify(self.cpu_id),
    {
        proof {
            lemma_cpu_names(self.cpu_id);
        }
        let cpu_path = cpu_text("\\_SB_.CPUS.", self.cpu_id);
        let mut branch = terms::if_then(
            terms::equal(objects::arg(0), objects::byte(self.cpu_id)),
            terms::notify(objects::path(cpu_path.as_str()), objects::arg(1)),
        );
        v.append(&mut branch);
    }
}

/// The method that tells whether a vCPU is present.
#[derive(Debug)]
pub struct CstaMethod;

impl CstaMethod {
    /// Appends the method.
    pub fn append_aml_bytes(&self, v: &mut Vec<u8>)
        ensures
            final(v)@ == old(v)@ + csta_method(),
    {
        proof {
            lemma_controller_names();
            lemma_method_names();
        }
        let acquire = objects::acquire("\\_SB_.PRES.CPLK", 0xffff);
        let store_selected = terms::store(objects::path("\\_SB_.PRES.CSEL"), objects::arg(0));
        let store_zero = terms::store(objects::local(0), objects::byte(0));
        let cpen_is_one = terms::equal(objects::path("\\_SB_.PRES.CPEN"), objects::byte(1));
        let store_enabled = terms::store(objects::local(0), objects::byte(0x0f));
        let if_enabled = terms::if_then(cpen_is_one, store_enabled);
        let release = objects::release("\\_SB_.PRES.CPLK");
        let ret = terms::returns_value(objects::local(0));

        let body = terms::join(acquire, store_selected);
        let body = terms::join(body, store_zero);
        let body = terms::join(body, if_enabled);
        let body = terms::join(body, release);
        let body = terms::join(body, ret);
        let mut method = terms::method("CSTA", 1, true, body);
        v.append(&mut method);
    }
}

/// The method that notifies one vCPU.
#[derive(Debug)]
pub struct CtfyMethod {
    pub max_vcpus: u8,
}

impl CtfyMethod {
    /// Appends the method.
    pub fn append_aml_bytes(&self, v: &mut Vec<u8>)
        ensures
            final(v)@ == old(v)@ + ctfy_method(self.max_vcpus),
    {
        proof {
            lemma_method_names();
        }
        let mut branches: Vec<u8> = Vec::new();
        let mut cpu_id: u8 = 0;
        while cpu_id < self.max_vcpus
            invariant
                cpu_id <= self.max_vcpus,
                branches@ == cpu_notifies(cpu_id as nat),
                branches@.len() <= cpu_id * 0x40,
            decreases self.max_vcpus - cpu_id,
        {
            proof {
                lemma_cpu_names(cpu_id);
            }
            (CpuNotify { cpu_id }).append_aml_bytes(&mut branches);
            cpu_id += 1;
        }
        let mut method = terms::method("CTFY", 2, true, branches);
        v.append(&mut method);
    }
}

/// The method that goes over all vCPUs after an event.
#[derive(Debug)]
pub struct CscnMethod {
    pub max_vcpus: u8,
}

impl CscnMethod {
    /// The part of the method for one kind of event.
    fn scan_event(flag: &str, event: u8) -> (r: Vec<u8>)
        requires
            grammar::is_path(flag@),
            grammar::path(flag@).len() == 15,
        ensures
            r@ == scan_event(flag@, event),
            r@.len() < 0x80,
    {
        proof {
            lemma_method_names();
        }
        let is_set = terms::equal(objects::path(flag), objects::byte(1));
        let notify = terms::call("CTFY", terms::join(objects::local(0), objects::byte(event)));
        let clear = terms::store(objects::path(flag), objects::byte(1));
        terms::if_then(is_set, terms::join(notify, clear))
    }

    /// Appends the method.
    pub fn append_aml_bytes(&self, v: &mut Vec<u8>)
        ensures
            final(v)@ == old(v)@ + cscn_method(self.max_vcpus),
    {
        proof {
            lemma_controller_names();
            lemma_method_names();
        }
        let acquire = objects::acquire("\\_SB_.PRES.CPLK", 0xffff);
        let init_counter = terms::store(objects::local(0), objects::byte(0));

        let select_cpu = terms::store(objects::path("\\_SB_.PRES.CSEL"), objects::local(0));
        let if_insert = Self::scan_event("\\_SB_.PRES.CINS", 1);
        let if_remove = Self::scan_event("\\_SB_.PRES.CRMV", 3);
        let increment = terms::sum(objects::local(0), objects::local(0), objects::byte(1));
        let steps = terms::join(select_cpu, if_insert);
        let steps = terms::join(steps, if_remove);
        let steps = terms::join(steps, increment);

        let predicate = terms::less_than(objects::local(0), objects::byte(self.max_vcpus));
        let scan_loop = terms::while_loop(predicate, steps);
        let release = objects::release("\\_SB_.PRES.CPLK");

        let body = terms::join(acquire, init_counter);
        let body = terms::join(body, scan_loop);
        let body = terms::join(body, release);
        let mut method = terms::method("CSCN", 0, true, body);
        v.append(&mut method);
    }
}

/// The names of the objects in a vCPU's device.
proof fn lemma_cpu_object_names()
    ensures
        grammar::is_path("_HID"@),
        grammar::is_path("_UID"@),
        grammar::is_path("_STA"@),
        grammar::is_path("_EJ0"@),
        grammar::is_path("_MAT"@),
        grammar::path("_HID"@).len() == 4,
        grammar::path("_UID"@).len() == 4,
        grammar::path("_STA"@).len() == 4,
        grammar::path("_EJ0"@).len() == 4,
        grammar::path("_MAT"@).len() == 4,
        grammar::is_ascii("ACPI0007"@),
        "ACPI0007"@.len() == 8,
{
    reveal_strlit("_HID");
    reveal_strlit("_UID");
    reveal_strlit("_STA");
    reveal_strlit("_EJ0");
    reveal_strlit("_MAT");
    reveal_strlit("ACPI0007");
    grammar::lemma_one_segment("_HID"@);
    grammar::lemma_one_segment("_UID"@);
    grammar::lemma_one_segment("_STA"@);
    grammar::lemma_one_segment("_EJ0"@);
    grammar::lemma_one_segment("_MAT"@);
}

/// The device of a vCPU is short.
pub proof fn lemma_cpu_device_len(cpu_id: u8)
    ensures
        cpu_device(cpu_id).len() < 0x100,
{
    lemma_controller_names();
    lemma_method_names();
    lemma_cpu_names(cpu_id);
    lemma_cpu_object_names();
}

/// The methods that the vCPUs share are short, but for one branch per vCPU.
pub proof fn lemma_methods_len(max_vcpus: u8)
    ensures
        csta_method().len() < 0x100,
        ctfy_method(max_vcpus).len() < 0x1_0000,
        cscn_method(max_vcpus).len() < 0x200,
{
    lemma_controller_names();
    lemma_method_names();
    lemma_cpu_notifies_len(max_vcpus as nat);
}

/// The branches of `CTFY` are short.
pub proof fn lemma_cpu_notifies_len(n: nat)
    requires
        n <= 0x100,
    ensures
        cpu_notifies(n).len() <= n * 0x40,
    decreases n,
{
    if n > 0 {
        lemma_cpu_notifies_len((n - 1) as nat);
        lemma_cpu_names((n - 1) as u8);
    }
}

/// The device of a vCPU.
#[derive(Debug)]
pub struct CpuAml {
    pub cpu_id: u8,
}

impl CpuAml {
    /// Appends the device.
    pub fn append_aml_bytes(&self, v: &mut Vec<u8>)
        ensures
            final(v)@ == old(v)@ + cpu_device(self.cpu_id),
    {
        proof {
            lemma_controller_names();
            lemma_method_names();
            lemma_cpu_names(self.cpu_id);
            lemma_cpu_object_names();
        }
        let own_name = cpu_text("", self.cpu_id);
        proof {
            reveal_strlit("");
            assert(own_name@ =~= cpu_name(self.cpu_id));
        }
        let hid = terms::named("_HID", objects::string("ACPI0007"));
        let uid = terms::named("_UID", objects::byte(self.cpu_id));
        let csta_call = terms::call("CSTA", objects::byte(self.cpu_id));
        let sta = terms::method("_STA", 0, false, terms::returns_value(csta_call));
        let ej0_select = terms::store(
            objects::path("\\_SB_.PRES.CSEL"),
            objects::byte(self.cpu_id),
        );
        let ej0_trigger = terms::store(objects::path("\\_SB_.PRES.CEJ0"), objects::byte(1));
        let ej0 = terms::method("_EJ0", 1, false, terms::join(ej0_select, ej0_trigger));
        let mat_data: Vec<u8> = vec![0, 8, self.cpu_id, self.cpu_id, 1, 0, 0, 0];
        assert(mat_data@ =~= apic_entry(self.cpu_id));
        let mat = terms::named("_MAT", objects::buffer(mat_data));

        let body = terms::join(hid, uid);
        let body = terms::join(body, sta);
        let body = terms::join(body, ej0);
        let body = terms::join(body, mat);
        let mut device = terms::device(own_name.as_str(), body);
        v.append(&mut device);
    }
}

/// The names and texts in the controller's device.
proof fn lemma_controller_object_names()
    ensures
        grammar::is_path("_SB_.PRES"@),
        grammar::is_path("_CRS"@),
        grammar::is_path("CPLK"@),
        grammar::is_path("PRST"@),
        grammar::path("_CRS"@).len() == 4,
        grammar::path("CPLK"@).len() == 4,
        grammar::path("PRST"@).len() == 4,
        grammar::is_ascii("PNP0A06"@),
        "PNP0A06"@.len() == 7,
        grammar::is_ascii("CPU Hotplug Controller"@),
        "CPU Hotplug Controller"@.len() == 22,
{
    reveal_strlit("_SB_.PRES");
    reveal_strlit("_CRS");
    reveal_strlit("CPLK");
    reveal_strlit("PRST");
    reveal_strlit("PNP0A06");
    reveal_strlit("CPU Hotplug Controller");
    grammar::lemma_two_segments("_SB_.PRES"@);
    grammar::lemma_one_segment("_CRS"@);
    grammar::lemma_one_segment("CPLK"@);
    grammar::lemma_one_segment("PRST"@);
}

/// The fields of the register window can be encoded, and are short.
pub proof fn lemma_fields()
    ensures
        forall|i: int|
            0 <= i < status_fields().len() ==> grammar::is_field_entry(
                #[trigger] status_fields()[i],
            ),
        forall|i: int|
            0 <= i < word_fields().len() ==> grammar::is_field_entry(#[trigger] word_fields()[i]),
        grammar::field_entries(status_fields()).len() <= 0x40,
        grammar::field_entries(word_fields()).len() <= 0x40,
{
    reveal_strlit("CPEN");
    reveal_strlit("CINS");
    reveal_strlit("CRMV");
    reveal_strlit("CEJ0");
    reveal_strlit("CCMD");
    reveal_strlit("CSEL");
    reveal_strlit("CDAT");
    lemma_field_entries_len(status_fields());
    lemma_field_entries_len(word_fields());
}

/// Entries take at most five bytes each.
proof fn lemma_field_entries_len(entries: Seq<FieldEntry>)
    requires
        forall|i: int|
            0 <= i < entries.len() ==> grammar::is_field_entry(#[trigger] entries[i]),
    ensures
        grammar::field_entries(entries).len() <= 5 * entries.len(),
    decreases entries.len(),
{
    if entries.len() > 0 {
        assert(grammar::is_field_entry(entries[entries.len() - 1]));
        lemma_field_entries_len(entries.drop_last());
    }
}

/// The names and texts in the device of the vCPUs.
proof fn lemma_cpus_object_names()
    ensures
        grammar::is_path("_SB_.CPUS"@),
        grammar::is_path("_CID"@),
        grammar::path("_CID"@).len() == 4,
        grammar::is_ascii("ACPI0010"@),
        "ACPI0010"@.len() == 8,
        grammar::is_eisa_id("PNP0A05"@),
{
    reveal_strlit("_SB_.CPUS");
    reveal_strlit("_CID");
    reveal_strlit("ACPI0010");
    reveal_strlit("PNP0A05");
    grammar::lemma_two_segments("_SB_.CPUS"@);
    grammar::lemma_one_segment("_CID"@);
}

impl CpuHotplugController {
    /// The device of the controller.
    fn controller_aml(mmio_addr: u64) -> (r: Vec<u8>)
        requires
            window_fits(mmio_addr),
        ensures
            r@ == controller_device(mmio_addr),
    {
        proof {
            lemma_cpu_object_names();
            lemma_controller_object_names();
            lemma_fields();
        }
        let mmio_end: u64 = mmio_addr + (CPU_HOTPLUG_MMIO_SIZE - 1);
        let hid = terms::named("_HID", objects::string("PNP0A06"));
        let uid = terms::named("_UID", objects::string("CPU Hotplug Controller"));
        let lock = objects::mutex("CPLK", 0);
        let range = objects::memory_range(true, mmio_addr, mmio_end);
        let crs = terms::named("_CRS", terms::resource_template(range));
        let region = objects::memory_region(
            "PRST",
            mmio_addr as usize,
            CPU_HOTPLUG_MMIO_SIZE as usize,
        );
        let status_entries: Vec<FieldEntry> = vec![
            FieldEntry::Reserved(32),
            FieldEntry::Named("CPEN", 1),
            FieldEntry::Named("CINS", 1),
            FieldEntry::Named("CRMV", 1),
            FieldEntry::Named("CEJ0", 1),
            FieldEntry::Reserved(4),
            FieldEntry::Named("CCMD", 8),
        ];
        assert(status_entries@ =~= status_fields());
        let status = objects::field(
            "PRST",
            FieldAccess::Byte,
            FieldUpdate::WriteAsZeroes,
            status_entries,
        );
        let word_entries: Vec<FieldEntry> = vec![
            FieldEntry::Named("CSEL", 32),
            FieldEntry::Reserved(32),
            FieldEntry::Named("CDAT", 32),
        ];
        assert(word_entries@ =~= word_fields());
        let words = objects::field(
            "PRST",
            FieldAccess::DWord,
            FieldUpdate::Preserve,
            word_entries,
        );

        let body = terms::join(hid, uid);
        let body = terms::join(body, lock);
        let body = terms::join(body, crs);
        let body = terms::join(body, region);
        let body = terms::join(body, status);
        let body = terms::join(body, words);
        terms::device("_SB_.PRES", body)
    }

    /// The device that holds the vCPUs and their methods.
    fn cpus_aml(max_vcpus: u8) -> (r: Vec<u8>)
        ensures
            r@ == cpus_device(max_vcpus),
    {
        proof {
            lemma_cpu_object_names();
            lemma_cpus_object_names();
            lemma_methods_len(max_vcpus);
        }
        let hid = terms::named("_HID", objects::string("ACPI0010"));
        let cid = terms::named("_CID", objects::eisa_id("PNP0A05"));
        let mut children = terms::join(hid, cid);
        CstaMethod.append_aml_bytes(&mut children);
        (CtfyMethod { max_vcpus }).append_aml_bytes(&mut children);
        (CscnMethod { max_vcpus }).append_aml_bytes(&mut children);

        let ghost shared = children@;
        let mut cpu_id: u8 = 0;
        assert(children@ =~= shared + cpu_devices(0));
        while cpu_id < max_vcpus
            invariant
                cpu_id <= max_vcpus,
                shared.len() < 0x2_0000,
                children@ == shared + cpu_devices(cpu_id as nat),
                children@.len() < 0x2_0000 + cpu_id * 0x100,
            decreases max_vcpus - cpu_id,
        {
            proof {
                lemma_cpu_device_len(cpu_id);
            }
            (CpuAml { cpu_id }).append_aml_bytes(&mut children);
            cpu_id += 1;
            assert(children@ =~= shared + cpu_devices(cpu_id as nat));
        }
        terms::device("_SB_.CPUS", children)
    }

    /// Appends the AML of the controller and of its vCPUs, or nothing if the register window
    /// does not fit in the address space.
    pub fn append_aml_bytes(&self, v: &mut Vec<u8>) -> (r: Result<(), AmlError>)
        ensures
            r == (if window_fits(self@.mmio_addr) {
                Ok::<(), AmlError>(())
            } else {
                Err::<(), AmlError>(AmlError::AddressRange)
            }),
            final(v)@ == (if window_fits(self@.mmio_addr) {
                old(v)@ + hotplug_aml(self@.mmio_addr, self@.max_vcpus)
            } else {
                old(v)@
            }),
    {
        let mmio_addr = self.mmio_addr();
        if mmio_addr.checked_add(CPU_HOTPLUG_MMIO_SIZE - 1).is_none() {
            return Err(AmlError::AddressRange);
        }
        if mmio_addr > usize::MAX as u64 {
            return Err(AmlError::AddressRange);
        }
        let mut device = Self::controller_aml(mmio_addr);
        let mut cpus = Self::cpus_aml(self.max_vcpus());
        proof {
            lemma_appended(v@, device@, cpus@);
        }
        v.append(&mut device);
        v.append(&mut cpus);
        Ok(())
    }
}

/// Appending two pieces appends the whole.
proof fn lemma_appended(start: Seq<u8>, a: Seq<u8>, b: Seq<u8>)
    ensures
        start + a + b == start + (a + b),
{
    assert(start + a + b =~= start + (a + b));
}

} // verus!
