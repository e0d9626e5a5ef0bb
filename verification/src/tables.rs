//! What a guest reads in the tables: where the registers of the controller are, which vCPUs there
//! are, and what is to be done about an interrupt.

use vstd::prelude::*;

use crate::aml::grammar;
use crate::aml::grammar::{FieldAccess, FieldEntry, FieldUpdate};
use crate::bytes;
use crate::cpu_aml;
use crate::guest;
use crate::manager;
use crate::reader;
use crate::reader::{Bits, Data, Effect, Object};

verus! {

/// A segment that starts with a letter or an underscore is a name that reads back.
proof fn lemma_plain(name: Seq<char>)
    requires
        name.len() == 4,
        grammar::is_segment(name, 0),
        name[0] != '\\',
        name[0] != '/',
    ensures
        reader::is_plain(name),
        grammar::path(name).len() == 4,
{
    grammar::lemma_one_segment(name);
}

/// The names of objects in the devices.
proof fn lemma_names()
    ensures
        reader::is_plain("_HID"@),
        reader::is_plain("_UID"@),
        reader::is_plain("_CID"@),
        reader::is_plain("_CRS"@),
        reader::is_plain("_STA"@),
        reader::is_plain("_EJ0"@),
        reader::is_plain("_MAT"@),
        reader::is_plain("_EVT"@),
        reader::is_plain("CPLK"@),
        reader::is_plain("PRST"@),
        reader::is_plain("CSTA"@),
        reader::is_plain("CTFY"@),
        reader::is_plain("CSCN"@),
        grammar::path("_HID"@).len() == 4,
        grammar::path("_UID"@).len() == 4,
        grammar::path("_CID"@).len() == 4,
        grammar::path("_CRS"@).len() == 4,
        grammar::path("_STA"@).len() == 4,
        grammar::path("_EJ0"@).len() == 4,
        grammar::path("_MAT"@).len() == 4,
        grammar::path("_EVT"@).len() == 4,
        grammar::path("CPLK"@).len() == 4,
        grammar::path("PRST"@).len() == 4,
        grammar::path("CSTA"@).len() == 4,
        grammar::path("CTFY"@).len() == 4,
        grammar::path("CSCN"@).len() == 4,
{
    reveal_strlit("_HID");
    reveal_strlit("_UID");
    reveal_strlit("_CID");
    reveal_strlit("_CRS");
    reveal_strlit("_STA");
    reveal_strlit("_EJ0");
    reveal_strlit("_MAT");
    reveal_strlit("_EVT");
    reveal_strlit("CPLK");
    reveal_strlit("PRST");
    reveal_strlit("CSTA");
    reveal_strlit("CTFY");
    reveal_strlit("CSCN");
    lemma_plain("_HID"@);
    lemma_plain("_UID"@);
    lemma_plain("_CID"@);
    lemma_plain("_CRS"@);
    lemma_plain("_STA"@);
    lemma_plain("_EJ0"@);
    lemma_plain("_MAT"@);
    lemma_plain("_EVT"@);
    lemma_plain("CPLK"@);
    lemma_plain("PRST"@);
    lemma_plain("CSTA"@);
    lemma_plain("CTFY"@);
    lemma_plain("CSCN"@);
}

/// The names of the devices in the system bus.
proof fn lemma_device_names()
    ensures
        reader::is_plain("_SB_.PRES"@),
        reader::is_plain("_SB_.CPUS"@),
        reader::is_plain("_SB_.GED_"@),
        grammar::path("_SB_.PRES"@).len() == 9,
        grammar::path("_SB_.CPUS"@).len() == 9,
        grammar::path("_SB_.GED_"@).len() == 9,
{
    reveal_strlit("_SB_.PRES");
    reveal_strlit("_SB_.CPUS");
    reveal_strlit("_SB_.GED_");
    grammar::lemma_two_segments("_SB_.PRES"@);
    grammar::lemma_two_segments("_SB_.CPUS"@);
    grammar::lemma_two_segments("_SB_.GED_"@);
}

/// The bits that a list of entries names, the first of which starts at bit `start`.
spec fn bits_of(entries: Seq<FieldEntry>, start: int) -> Seq<Bits>
    decreases entries.len(),
{
    if entries.len() == 0 {
        seq![]
    } else {
        match entries[0] {
            FieldEntry::Reserved(count) => bits_of(entries.skip(1), start + count),
            FieldEntry::Named(name, count) => seq![
                Bits { name: name@, start, count: count as int },
            ] + bits_of(entries.skip(1), start + count),
        }
    }
}

/// The bytes of a list of entries start with those of the first.
proof fn lemma_first_entry(entries: Seq<FieldEntry>)
    requires
        entries.len() > 0,
    ensures
        grammar::field_entries(entries) == grammar::field_entry(entries[0])
            + grammar::field_entries(entries.skip(1)),
    decreases entries.len(),
{
    if entries.len() > 1 {
        lemma_first_entry(entries.drop_last());
        let tail = entries.skip(1);
        assert(tail.drop_last() =~= entries.drop_last().skip(1));
        assert(tail.last() == entries.last());
        assert(grammar::field_entries(entries) =~= grammar::field_entry(entries[0])
            + grammar::field_entries(tail));
    } else {
        assert(entries.drop_last() =~= Seq::<FieldEntry>::empty());
        assert(entries.skip(1) =~= Seq::<FieldEntry>::empty());
        assert(grammar::field_entries(entries) =~= grammar::field_entry(entries[0])
            + grammar::field_entries(entries.skip(1)));
    }
}

/// The entries of a field are read as the bits that they name.
proof fn lemma_bits(entries: Seq<FieldEntry>, start: int)
    requires
        forall|k: int|
            0 <= k < entries.len() ==> grammar::is_field_entry(#[trigger] entries[k]) && (
            entries[k] matches FieldEntry::Named(name, _) ==> name@[0] != '\u{0}'),
    ensures
        reader::read_bits(grammar::field_entries(entries), start) == bits_of(entries, start),
    decreases entries.len(),
{
    reveal(reader::read_bits);
    if entries.len() > 0 {
        let tail = entries.skip(1);
        let first = grammar::field_entry(entries[0]);
        let b = grammar::field_entries(entries);
        assert(grammar::is_field_entry(entries[0]));
        lemma_first_entry(entries);
        assert forall|k: int| 0 <= k < tail.len() implies grammar::is_field_entry(
            #[trigger] tail[k],
        ) && (tail[k] matches FieldEntry::Named(name, _) ==> name@[0] != '\u{0}') by {
            assert(tail[k] == entries[k + 1]);
        }
        match entries[0] {
            FieldEntry::Reserved(count) => {
                lemma_bits(tail, start + count);
                assert(b.skip(2) =~= grammar::field_entries(tail));
            },
            FieldEntry::Named(name, count) => {
                lemma_bits(tail, start + count);
                assert(b.skip(5) =~= grammar::field_entries(tail));
                assert forall|k: int| 0 <= k < 4 implies (#[trigger] b[k]) as char == name@[k] by {
                    assert(name@[k] < '\u{80}');
                    reader::lemma_one_byte(name@[k]);
                    assert(b[k] == name@[k] as u8);
                }
                assert(b[0] as char == name@[0]);
                assert(Seq::new(4, |k: int| b[k] as char) =~= name@);
            },
        }
    }
}

/// The bits of the two fields over the register window.
proof fn lemma_register_bits()
    ensures
        reader::read_bits(grammar::field_entries(cpu_aml::status_fields()), 0) == seq![
            Bits { name: "CPEN"@, start: 32, count: 1 },
            Bits { name: "CINS"@, start: 33, count: 1 },
            Bits { name: "CRMV"@, start: 34, count: 1 },
            Bits { name: "CEJ0"@, start: 35, count: 1 },
            Bits { name: "CCMD"@, start: 40, count: 8 },
        ],
        reader::read_bits(grammar::field_entries(cpu_aml::word_fields()), 0) == seq![
            Bits { name: "CSEL"@, start: 0, count: 32 },
            Bits { name: "CDAT"@, start: 64, count: 32 },
        ],
        grammar::field_entries(cpu_aml::status_fields()).len() < 0x100,
        grammar::field_entries(cpu_aml::word_fields()).len() < 0x100,
{
    reveal_strlit("CPEN");
    reveal_strlit("CINS");
    reveal_strlit("CRMV");
    reveal_strlit("CEJ0");
    reveal_strlit("CCMD");
    reveal_strlit("CSEL");
    reveal_strlit("CDAT");
    lemma_bits(cpu_aml::status_fields(), 0);
    lemma_bits(cpu_aml::word_fields(), 0);
    cpu_aml::lemma_fields();
    reveal_with_fuel(bits_of, 8);
    assert(bits_of(cpu_aml::status_fields(), 0) =~= seq![
        Bits { name: "CPEN"@, start: 32, count: 1 },
        Bits { name: "CINS"@, start: 33, count: 1 },
        Bits { name: "CRMV"@, start: 34, count: 1 },
        Bits { name: "CEJ0"@, start: 35, count: 1 },
        Bits { name: "CCMD"@, start: 40, count: 8 },
    ]);
    assert(bits_of(cpu_aml::word_fields(), 0) =~= seq![
        Bits { name: "CSEL"@, start: 0, count: 32 },
        Bits { name: "CDAT"@, start: 64, count: 32 },
    ]);
}

/// The descriptor in a buffer of resources is that of a range of memory addresses that can be
/// read and written, and nothing follows it.
pub open spec fn is_memory_range(resources: Seq<u8>, min: int, max: int) -> bool {
    &&& resources.len() == 48
    &&& resources[0] == 0x8a
    &&& reader::number2(resources, 1) == 43
    &&& resources[3] == 0
    &&& resources[4] == 0x0c
    &&& resources[5] == 1
    &&& reader::number8(resources, 6) == 0
    &&& reader::number8(resources, 14) == min
    &&& reader::number8(resources, 22) == max
    &&& reader::number8(resources, 30) == 0
    &&& reader::number8(resources, 38) == max - min + 1
    &&& resources[46] == 0x79
    &&& resources[47] == 0
}

/// Five groups of eight bytes, after six and before two, are each in their place.
proof fn lemma_five_numbers(
    head: Seq<u8>,
    a: Seq<u8>,
    b: Seq<u8>,
    c: Seq<u8>,
    d: Seq<u8>,
    e: Seq<u8>,
    end: Seq<u8>,
)
    requires
        head.len() == 6,
        a.len() == 8 && b.len() == 8 && c.len() == 8 && d.len() == 8 && e.len() == 8,
        end.len() == 2,
    ensures
        ({
            let r = head + a + b + c + d + e + end;
            &&& r.len() == 48
            &&& forall|k: int| 0 <= k < 6 ==> r[k] == head[k]
            &&& r.subrange(6, 14) == a
            &&& r.subrange(14, 22) == b
            &&& r.subrange(22, 30) == c
            &&& r.subrange(30, 38) == d
            &&& r.subrange(38, 46) == e
            &&& r[46] == end[0]
            &&& r[47] == end[1]
        }),
{
    let r = head + a + b + c + d + e + end;
    assert(r.subrange(6, 14) =~= a);
    assert(r.subrange(14, 22) =~= b);
    assert(r.subrange(22, 30) =~= c);
    assert(r.subrange(30, 38) =~= d);
    assert(r.subrange(38, 46) =~= e);
}

/// The resources of a range of addresses are read as that range.
proof fn lemma_memory_range(min: u64, max: u64)
    requires
        min <= max,
        max - min < u64::MAX,
    ensures
        is_memory_range(
            grammar::memory_range(true, min, max) + seq![0x79u8, 0],
            min as int,
            max as int,
        ),
{
    let length = (max - min + 1) as u64;
    let head = seq![0x8au8, 0x2b, 0, 0, 0x0c, 1u8];
    let r = grammar::memory_range(true, min, max) + seq![0x79u8, 0];
    lemma_five_numbers(
        head,
        bytes::le64(0),
        bytes::le64(min),
        bytes::le64(max),
        bytes::le64(0),
        bytes::le64(length),
        seq![0x79u8, 0],
    );
    reader::lemma_numbers(r, 6, 0);
    reader::lemma_numbers(r, 14, min);
    reader::lemma_numbers(r, 22, max);
    reader::lemma_numbers(r, 30, 0);
    reader::lemma_numbers(r, 38, length);
}

/// Seven objects one after the other are read as those seven.
proof fn lemma_seven_objects(
    a: Seq<u8>,
    b: Seq<u8>,
    c: Seq<u8>,
    d: Seq<u8>,
    e: Seq<u8>,
    f: Seq<u8>,
    g: Seq<u8>,
    objects: Seq<Object>,
)
    requires
        objects.len() == 7,
        reader::is_object(a, objects[0]),
        reader::is_object(b, objects[1]),
        reader::is_object(c, objects[2]),
        reader::is_object(d, objects[3]),
        reader::is_object(e, objects[4]),
        reader::is_object(f, objects[5]),
        reader::is_object(g, objects[6]),
    ensures
        reader::read_objects(a + b + c + d + e + f + g) == objects,
{
    reader::one_object(a, objects[0]);
    reader::objects_and_one(a, seq![objects[0]], b, objects[1]);
    assert(seq![objects[0]].push(objects[1]) =~= objects.take(2));
    reader::objects_and_one(a + b, objects.take(2), c, objects[2]);
    assert(objects.take(2).push(objects[2]) =~= objects.take(3));
    reader::objects_and_one(a + b + c, objects.take(3), d, objects[3]);
    assert(objects.take(3).push(objects[3]) =~= objects.take(4));
    reader::objects_and_one(a + b + c + d, objects.take(4), e, objects[4]);
    assert(objects.take(4).push(objects[4]) =~= objects.take(5));
    reader::objects_and_one(a + b + c + d + e, objects.take(5), f, objects[5]);
    assert(objects.take(5).push(objects[5]) =~= objects.take(6));
    reader::objects_and_one(a + b + c + d + e + f, objects.take(6), g, objects[6]);
    assert(objects.take(6).push(objects[6]) =~= objects);
    reader::just_these_objects(a + b + c + d + e + f + g, objects);
}

/// The resources of the controller and the objects that its device holds.
spec fn controller_objects(resources: Seq<u8>, mmio_addr: u64) -> Seq<Object> {
    seq![
        Object::Named { name: "_HID"@, value: Data::Text("PNP0A06"@) },
        Object::Named { name: "_UID"@, value: Data::Text("CPU Hotplug Controller"@) },
        Object::Mutex { name: "CPLK"@, level: 0 },
        Object::Named { name: "_CRS"@, value: Data::Buffer(resources) },
        Object::Region { name: "PRST"@, space: 0, base: mmio_addr as int, length: 12 },
        Object::Fields {
            region: "PRST"@,
            flags: 0x41,
            bits: reader::read_bits(grammar::field_entries(cpu_aml::status_fields()), 0),
        },
        Object::Fields {
            region: "PRST"@,
            flags: 0x03,
            bits: reader::read_bits(grammar::field_entries(cpu_aml::word_fields()), 0),
        },
    ]
}

/// The seven parts of the controller's device.
#[verifier::opaque]
spec fn controller_parts(resources: Seq<u8>, mmio_addr: u64) -> Seq<Seq<u8>> {
    seq![
        grammar::named("_HID"@, grammar::string("PNP0A06"@)),
        grammar::named("_UID"@, grammar::string("CPU Hotplug Controller"@)),
        grammar::mutex("CPLK"@, 0),
        grammar::named("_CRS"@, grammar::buffer(resources)),
        grammar::memory_region("PRST"@, mmio_addr, 12),
        grammar::field(
            "PRST"@,
            FieldAccess::Byte,
            FieldUpdate::WriteAsZeroes,
            cpu_aml::status_fields(),
        ),
        grammar::field(
            "PRST"@,
            FieldAccess::DWord,
            FieldUpdate::Preserve,
            cpu_aml::word_fields(),
        ),
    ]
}

/// The parts of the controller's device, one after the other.
#[verifier::opaque]
spec fn controller_body(resources: Seq<u8>, mmio_addr: u64) -> Seq<u8> {
    let parts = controller_parts(resources, mmio_addr);
    parts[0] + parts[1] + parts[2] + parts[3] + parts[4] + parts[5] + parts[6]
}

/// The texts in the controller's device.
proof fn lemma_controller_texts(resources: Seq<u8>, mmio_addr: u64)
    ensures
        reader::is_object(
            controller_parts(resources, mmio_addr)[0],
            controller_objects(resources, mmio_addr)[0],
        ),
        reader::is_object(
            controller_parts(resources, mmio_addr)[1],
            controller_objects(resources, mmio_addr)[1],
        ),
        controller_parts(resources, mmio_addr)[0].len() < 0x100,
        controller_parts(resources, mmio_addr)[1].len() < 0x100,
{
    lemma_names();
    reveal(controller_parts);
    reveal_strlit("PNP0A06");
    reveal_strlit("CPU Hotplug Controller");
    reader::named_string("_HID"@, "PNP0A06"@);
    reader::named_string("_UID"@, "CPU Hotplug Controller"@);
}

/// The mutex and the resources of the controller's device.
proof fn lemma_controller_resources_part(resources: Seq<u8>, mmio_addr: u64)
    requires
        resources.len() == 48,
    ensures
        reader::is_object(
            controller_parts(resources, mmio_addr)[2],
            controller_objects(resources, mmio_addr)[2],
        ),
        reader::is_object(
            controller_parts(resources, mmio_addr)[3],
            controller_objects(resources, mmio_addr)[3],
        ),
        controller_parts(resources, mmio_addr)[2].len() < 0x100,
        controller_parts(resources, mmio_addr)[3].len() < 0x100,
{
    lemma_names();
    reveal(controller_parts);
    reader::mutex("CPLK"@, 0);
    reader::named_buffer("_CRS"@, resources);
}

/// The region of the controller's device.
proof fn lemma_controller_region(resources: Seq<u8>, mmio_addr: u64)
    ensures
        reader::is_object(
            controller_parts(resources, mmio_addr)[4],
            controller_objects(resources, mmio_addr)[4],
        ),
        controller_parts(resources, mmio_addr)[4].len() < 0x100,
{
    lemma_names();
    reveal(controller_parts);
    reader::region("PRST"@, mmio_addr, 12);
}

/// The fields of the controller's device.
proof fn lemma_controller_fields(resources: Seq<u8>, mmio_addr: u64)
    ensures
        reader::is_object(
            controller_parts(resources, mmio_addr)[5],
            controller_objects(resources, mmio_addr)[5],
        ),
        reader::is_object(
            controller_parts(resources, mmio_addr)[6],
            controller_objects(resources, mmio_addr)[6],
        ),
        controller_parts(resources, mmio_addr)[5].len() < 0x100,
        controller_parts(resources, mmio_addr)[6].len() < 0x100,
{
    lemma_names();
    cpu_aml::lemma_fields();
    reveal(controller_parts);
    reader::fields(
        "PRST"@,
        FieldAccess::Byte,
        FieldUpdate::WriteAsZeroes,
        cpu_aml::status_fields(),
    );
    reader::fields(
        "PRST"@,
        FieldAccess::DWord,
        FieldUpdate::Preserve,
        cpu_aml::word_fields(),
    );
}

/// What the controller's device holds.
proof fn lemma_controller_body(resources: Seq<u8>, mmio_addr: u64)
    requires
        mmio_addr + 11 <= u64::MAX,
        resources == grammar::memory_range(true, mmio_addr, (mmio_addr + 11) as u64) + seq![
            0x79u8,
            0,
        ],
    ensures
        cpu_aml::controller_device(mmio_addr) == grammar::device(
            "_SB_.PRES"@,
            controller_body(resources, mmio_addr),
        ),
{
    reveal(controller_parts);
    reveal(controller_body);
}

/// What is read of the controller's device: its resources, and what it holds.
proof fn lemma_controller_objects(mmio_addr: u64) -> (r: (Seq<u8>, Seq<u8>))
    requires
        mmio_addr + 11 <= u64::MAX,
    ensures
        is_memory_range(r.0, mmio_addr as int, mmio_addr + 11),
        reader::read_objects(cpu_aml::controller_device(mmio_addr)) == seq![
            Object::Device { name: "_SB_.PRES"@, body: r.1 },
        ],
        reader::read_objects(r.1) == controller_objects(r.0, mmio_addr),
        reader::is_object(
            cpu_aml::controller_device(mmio_addr),
            Object::Device { name: "_SB_.PRES"@, body: r.1 },
        ),
{
    let resources = lemma_controller_resources(mmio_addr);
    let body = controller_body(resources, mmio_addr);
    lemma_device_names();
    lemma_controller_read(resources, mmio_addr);
    lemma_controller_body(resources, mmio_addr);
    lemma_device_again("_SB_.PRES"@, body, cpu_aml::controller_device(mmio_addr));
    (resources, body)
}

/// The seven parts are read as the seven objects.
proof fn lemma_controller_read(resources: Seq<u8>, mmio_addr: u64)
    requires
        resources.len() == 48,
    ensures
        reader::read_objects(controller_body(resources, mmio_addr)) == controller_objects(
            resources,
            mmio_addr,
        ),
        controller_body(resources, mmio_addr).len() < 0x1000,
{
    let parts = controller_parts(resources, mmio_addr);
    reveal(controller_body);
    lemma_controller_texts(resources, mmio_addr);
    lemma_controller_resources_part(resources, mmio_addr);
    lemma_controller_region(resources, mmio_addr);
    lemma_controller_fields(resources, mmio_addr);
    lemma_seven_objects(
        parts[0],
        parts[1],
        parts[2],
        parts[3],
        parts[4],
        parts[5],
        parts[6],
        controller_objects(resources, mmio_addr),
    );
}

/// Bytes that are a device are read as one object.
proof fn lemma_device_again(name: Seq<char>, body: Seq<u8>, device: Seq<u8>)
    requires
        reader::is_plain(name),
        grammar::path(name).len() + body.len() < 0x100_0000,
        device == grammar::device(name, body),
    ensures
        reader::read_objects(device) == seq![Object::Device { name, body }],
        reader::is_object(device, Object::Device { name, body }),
{
    reader::device(name, body);
    lemma_device_alone(name, body);
}

/// The resources of the controller: one range of addresses.
proof fn lemma_controller_resources(mmio_addr: u64) -> (r: Seq<u8>)
    requires
        mmio_addr + 11 <= u64::MAX,
    ensures
        is_memory_range(r, mmio_addr as int, mmio_addr + 11),
        r == grammar::memory_range(true, mmio_addr, (mmio_addr + 11) as u64) + seq![0x79u8, 0],
        r.len() == 48,
{
    lemma_memory_range(mmio_addr, (mmio_addr + 11) as u64);
    grammar::memory_range(true, mmio_addr, (mmio_addr + 11) as u64) + seq![0x79u8, 0]
}

/// The object is the device `PRES` of a controller whose registers are at `address`, twelve bytes,
/// which is both the range that its resources announce and the region that its fields are laid
/// over. The selection register is the first four bytes, and the four flags are the bits 0 to 3 of
/// the fifth, written with the bits around them as zeroes.
#[verifier::opaque]
pub open spec fn describes_registers(object: Object, address: int) -> bool {
    let objects = reader::read_objects(object->Device_body);
    &&& object is Device
    &&& object->Device_name == "_SB_.PRES"@
    &&& objects.len() == 7
    &&& objects[0] == (Object::Named { name: "_HID"@, value: Data::Text("PNP0A06"@) })
    &&& objects[1] == (Object::Named {
        name: "_UID"@,
        value: Data::Text("CPU Hotplug Controller"@),
    })
    &&& objects[2] == (Object::Mutex { name: "CPLK"@, level: 0 })
    &&& objects[3] is Named
    &&& objects[3]->Named_name == "_CRS"@
    &&& objects[3]->value is Buffer
    &&& is_memory_range(objects[3]->value->Buffer_0, address, address + 11)
    &&& objects[4] == (Object::Region { name: "PRST"@, space: 0, base: address, length: 12 })
    &&& objects[5] == (Object::Fields {
        region: "PRST"@,
        flags: 0x41,
        bits: seq![
            Bits { name: "CPEN"@, start: 32, count: 1 },
            Bits { name: "CINS"@, start: 33, count: 1 },
            Bits { name: "CRMV"@, start: 34, count: 1 },
            Bits { name: "CEJ0"@, start: 35, count: 1 },
            Bits { name: "CCMD"@, start: 40, count: 8 },
        ],
    })
    &&& objects[6] == (Object::Fields {
        region: "PRST"@,
        flags: 0x03,
        bits: seq![
            Bits { name: "CSEL"@, start: 0, count: 32 },
            Bits { name: "CDAT"@, start: 64, count: 32 },
        ],
    })
}

/// The tables tell the guest where the controller's registers are, for every address at which they
/// fit.
pub proof fn registers_are_described(mmio_addr: u64)
    requires
        mmio_addr + 11 <= u64::MAX,
    ensures
        reader::read_objects(cpu_aml::controller_device(mmio_addr)).len() == 1,
        describes_registers(
            reader::read_objects(cpu_aml::controller_device(mmio_addr))[0],
            mmio_addr as int,
        ),
{
    reveal(describes_registers);
    let (resources, body) = lemma_controller_objects(mmio_addr);
    lemma_register_bits();
}

/// A device alone is read as one object.
proof fn lemma_device_alone(name: Seq<char>, body: Seq<u8>)
    requires
        reader::is_plain(name),
        grammar::path(name).len() + body.len() < 0x100_0000,
    ensures
        reader::read_objects(grammar::device(name, body)) == seq![Object::Device { name, body }],
{
    reader::device(name, body);
    reader::one_object(grammar::device(name, body), Object::Device { name, body });
    reader::just_these_objects(grammar::device(name, body), seq![Object::Device { name, body }]);
}

/// The value of an upper-case hexadecimal digit.
pub open spec fn digit(c: char) -> int {
    if '0' <= c <= '9' {
        c as int - 0x30
    } else {
        c as int - 0x41 + 10
    }
}

/// The name is that of vCPU `i`: a `C`, a zero and the index in two hexadecimal digits.
pub open spec fn names_vcpu(name: Seq<char>, i: int) -> bool {
    &&& name.len() == 4
    &&& name[0] == 'C'
    &&& name[1] == '0'
    &&& 0 <= digit(name[2]) < 16
    &&& 0 <= digit(name[3]) < 16
    &&& 16 * digit(name[2]) + digit(name[3]) == i
}

/// The body returns what `CSTA` says of vCPU `i`.
pub open spec fn asks_for(body: Seq<u8>, i: int) -> bool {
    &&& body[0] == 0xa4
    &&& reader::name_text(body.skip(1)) == "CSTA"@
    &&& reader::integer_value(body.skip(5)) == i
    &&& body.len() == 5 + reader::integer_size(body.skip(5))
}

/// The body stores the number in the object of that name.
pub open spec fn stores(body: Seq<u8>, n: int, name: Seq<char>) -> bool {
    let target = body.skip(1 + reader::integer_size(body.skip(1)));
    &&& body[0] == 0x70
    &&& reader::integer_value(body.skip(1)) == n
    &&& reader::name_text(target) == name
    &&& body.len() == 1 + reader::integer_size(body.skip(1)) + reader::name_size(target)
}

/// The object is the device of vCPU `i`: it has the index as name, as number and as that of its
/// local APIC, it asks for the status of that vCPU, and ejects that vCPU.
pub open spec fn is_vcpu(object: Object, i: int) -> bool {
    let objects = reader::read_objects(object->Device_body);
    let ejection = objects[3]->Method_body;
    &&& object is Device
    &&& names_vcpu(object->Device_name, i)
    &&& objects.len() == 5
    &&& objects[0] == (Object::Named { name: "_HID"@, value: Data::Text("ACPI0007"@) })
    &&& objects[1] == (Object::Named { name: "_UID"@, value: Data::Integer(i) })
    &&& objects[2] is Method
    &&& objects[2]->Method_name == "_STA"@
    &&& objects[2]->Method_flags == 0
    &&& asks_for(objects[2]->Method_body, i)
    &&& objects[3] is Method
    &&& objects[3]->Method_name == "_EJ0"@
    &&& objects[3]->Method_flags == 1
    &&& exists|first: Seq<u8>, second: Seq<u8>|
        ejection == first + second && #[trigger] stores(first, i, "\\_SB_.PRES.CSEL"@)
            && #[trigger] stores(second, 1, "\\_SB_.PRES.CEJ0"@)
    &&& objects[4] == (Object::Named {
        name: "_MAT"@,
        value: Data::Buffer(seq![0u8, 8, i as u8, i as u8, 1, 0, 0, 0]),
    })
}

/// A hexadecimal digit is read as the number that it was made of.
proof fn lemma_digit(n: int)
    requires
        0 <= n < 16,
    ensures
        digit(cpu_aml::hex_digit(n)) == n,
{
}

/// The name of a vCPU's device has its index.
proof fn lemma_vcpu_name(cpu_id: u8)
    ensures
        names_vcpu(cpu_aml::cpu_name(cpu_id), cpu_id as int),
        reader::is_plain(cpu_aml::cpu_name(cpu_id)),
        reader::is_plain(cpu_aml::cpu_path(cpu_id)),
        cpu_aml::cpu_path(cpu_id) == "\\_SB_.CPUS."@ + cpu_aml::cpu_name(cpu_id),
        grammar::path(cpu_aml::cpu_name(cpu_id)).len() == 4,
        grammar::path(cpu_aml::cpu_path(cpu_id)).len() == 15,
{
    lemma_digit(cpu_id as int / 16);
    lemma_digit(cpu_id as int % 16);
    cpu_aml::lemma_cpu_names(cpu_id);
    reveal_strlit("\\_SB_.CPUS.");
    let path = cpu_aml::cpu_path(cpu_id);
    assert(path[0] == '\\');
    assert(grammar::unrooted(path)[0] == '_');
}

/// A store of a number is read as such.
proof fn lemma_stores(n: u64, name: Seq<char>)
    requires
        reader::is_plain(name),
    ensures
        stores(grammar::store(grammar::path(name), grammar::integer(n)), n as int, name),
{
    let none = Seq::<u8>::empty();
    let b = grammar::store(grammar::path(name), grammar::integer(n));
    reader::integers_read_back(n, grammar::path(name));
    reader::names_read_back(name, none);
    assert(b.skip(1) =~= grammar::integer(n) + grammar::path(name));
    assert(grammar::path(name) + none =~= grammar::path(name));
    assert(b.skip(1 + grammar::integer(n).len() as int) =~= grammar::path(name));
    assert(b[0] == 0x70);
}

/// The question for the status of a vCPU is read as such.
proof fn lemma_asks_for(cpu_id: u8)
    ensures
        asks_for(
            grammar::returns_value(grammar::call("CSTA"@, grammar::integer(cpu_id as u64))),
            cpu_id as int,
        ),
{
    lemma_names();
    let none = Seq::<u8>::empty();
    let n = grammar::integer(cpu_id as u64);
    let b = grammar::returns_value(grammar::call("CSTA"@, n));
    reader::integers_read_back(cpu_id as u64, none);
    reader::names_read_back("CSTA"@, n);
    assert(n + none =~= n);
    assert(b.skip(1) =~= grammar::path("CSTA"@) + n);
    assert(b.skip(5) =~= n);
    assert(b[0] == 0xa4);
}

/// The names of the fields that a vCPU's device writes.
proof fn lemma_field_names()
    ensures
        reader::is_plain("\\_SB_.PRES.CSEL"@),
        reader::is_plain("\\_SB_.PRES.CEJ0"@),
{
    cpu_aml::lemma_controller_names();
    reveal_strlit("\\_SB_.PRES.CSEL");
    reveal_strlit("\\_SB_.PRES.CEJ0");
}

/// What the device of a vCPU holds.
#[verifier::opaque]
spec fn vcpu_body(cpu_id: u8) -> Seq<u8> {
    grammar::named("_HID"@, grammar::string("ACPI0007"@)) + grammar::named(
        "_UID"@,
        grammar::integer(cpu_id as u64),
    ) + grammar::method(
        "_STA"@,
        0,
        false,
        grammar::returns_value(grammar::call("CSTA"@, grammar::integer(cpu_id as u64))),
    ) + grammar::method(
        "_EJ0"@,
        1,
        false,
        grammar::store(grammar::path("\\_SB_.PRES.CSEL"@), grammar::integer(cpu_id as u64))
            + grammar::store(grammar::path("\\_SB_.PRES.CEJ0"@), grammar::integer(1)),
    ) + grammar::named("_MAT"@, grammar::buffer(cpu_aml::apic_entry(cpu_id)))
}

/// The device of a vCPU, as it is read.
spec fn vcpu_object(cpu_id: u8) -> Object {
    Object::Device { name: cpu_aml::cpu_name(cpu_id), body: vcpu_body(cpu_id) }
}

/// The objects in the device of a vCPU.
proof fn lemma_vcpu_objects(cpu_id: u8)
    ensures
        reader::read_objects(vcpu_body(cpu_id)) == seq![
            Object::Named { name: "_HID"@, value: Data::Text("ACPI0007"@) },
            Object::Named { name: "_UID"@, value: Data::Integer(cpu_id as int) },
            Object::Method {
                name: "_STA"@,
                flags: 0,
                body: grammar::returns_value(
                    grammar::call("CSTA"@, grammar::integer(cpu_id as u64)),
                ),
            },
            Object::Method {
                name: "_EJ0"@,
                flags: 1,
                body: grammar::store(
                    grammar::path("\\_SB_.PRES.CSEL"@),
                    grammar::integer(cpu_id as u64),
                ) + grammar::store(grammar::path("\\_SB_.PRES.CEJ0"@), grammar::integer(1)),
            },
            Object::Named {
                name: "_MAT"@,
                value: Data::Buffer(seq![0u8, 8, cpu_id, cpu_id, 1, 0, 0, 0]),
            },
        ],
{
    reveal(vcpu_body);
    lemma_names();
    cpu_aml::lemma_controller_names();
    reveal_strlit("ACPI0007");
    let query = grammar::returns_value(grammar::call("CSTA"@, grammar::integer(cpu_id as u64)));
    let ejection = grammar::store(
        grammar::path("\\_SB_.PRES.CSEL"@),
        grammar::integer(cpu_id as u64),
    ) + grammar::store(grammar::path("\\_SB_.PRES.CEJ0"@), grammar::integer(1));
    reader::named_string("_HID"@, "ACPI0007"@);
    reader::named_integer("_UID"@, cpu_id as u64);
    reader::method("_STA"@, 0, false, query);
    reader::method("_EJ0"@, 1, false, ejection);
    reader::named_buffer("_MAT"@, cpu_aml::apic_entry(cpu_id));
    lemma_five_objects(
        grammar::named("_HID"@, grammar::string("ACPI0007"@)),
        grammar::named("_UID"@, grammar::integer(cpu_id as u64)),
        grammar::method("_STA"@, 0, false, query),
        grammar::method("_EJ0"@, 1, false, ejection),
        grammar::named("_MAT"@, grammar::buffer(cpu_aml::apic_entry(cpu_id))),
        seq![
            Object::Named { name: "_HID"@, value: Data::Text("ACPI0007"@) },
            Object::Named { name: "_UID"@, value: Data::Integer(cpu_id as int) },
            Object::Method { name: "_STA"@, flags: 0, body: query },
            Object::Method { name: "_EJ0"@, flags: 1, body: ejection },
            Object::Named {
                name: "_MAT"@,
                value: Data::Buffer(seq![0u8, 8, cpu_id, cpu_id, 1, 0, 0, 0]),
            },
        ],
    );
    reader::just_these_objects(
        vcpu_body(cpu_id),
        seq![
            Object::Named { name: "_HID"@, value: Data::Text("ACPI0007"@) },
            Object::Named { name: "_UID"@, value: Data::Integer(cpu_id as int) },
            Object::Method { name: "_STA"@, flags: 0, body: query },
            Object::Method { name: "_EJ0"@, flags: 1, body: ejection },
            Object::Named {
                name: "_MAT"@,
                value: Data::Buffer(seq![0u8, 8, cpu_id, cpu_id, 1, 0, 0, 0]),
            },
        ],
    );
}

/// Five objects one after the other are read as those five.
proof fn lemma_five_objects(
    a: Seq<u8>,
    b: Seq<u8>,
    c: Seq<u8>,
    d: Seq<u8>,
    e: Seq<u8>,
    objects: Seq<Object>,
)
    requires
        objects.len() == 5,
        reader::is_object(a, objects[0]),
        reader::is_object(b, objects[1]),
        reader::is_object(c, objects[2]),
        reader::is_object(d, objects[3]),
        reader::is_object(e, objects[4]),
    ensures
        reader::are_objects(a + b + c + d + e, objects),
{
    reader::one_object(a, objects[0]);
    reader::objects_and_one(a, seq![objects[0]], b, objects[1]);
    assert(seq![objects[0]].push(objects[1]) =~= objects.take(2));
    reader::objects_and_one(a + b, objects.take(2), c, objects[2]);
    assert(objects.take(2).push(objects[2]) =~= objects.take(3));
    reader::objects_and_one(a + b + c, objects.take(3), d, objects[3]);
    assert(objects.take(3).push(objects[3]) =~= objects.take(4));
    reader::objects_and_one(a + b + c + d, objects.take(4), e, objects[4]);
    assert(objects.take(4).push(objects[4]) =~= objects);
}

/// The device of a vCPU, by name.
proof fn lemma_vcpu(cpu_id: u8)
    ensures
        reader::is_object(cpu_aml::cpu_device(cpu_id), vcpu_object(cpu_id)),
        is_vcpu(vcpu_object(cpu_id), cpu_id as int),
{
    lemma_vcpu_device(cpu_id);
    lemma_vcpu_name(cpu_id);
    lemma_vcpu_objects(cpu_id);
    lemma_asks_for(cpu_id);
    lemma_field_names();
    lemma_stores(cpu_id as u64, "\\_SB_.PRES.CSEL"@);
    lemma_stores(1, "\\_SB_.PRES.CEJ0"@);
}

/// The device of a vCPU is an object.
proof fn lemma_vcpu_device(cpu_id: u8)
    ensures
        reader::is_object(cpu_aml::cpu_device(cpu_id), vcpu_object(cpu_id)),
{
    reveal(vcpu_body);
    lemma_vcpu_name(cpu_id);
    cpu_aml::lemma_cpu_device_len(cpu_id);
    assert(cpu_aml::cpu_device(cpu_id) == grammar::device(
        cpu_aml::cpu_name(cpu_id),
        vcpu_body(cpu_id),
    ));
    reader::device(cpu_aml::cpu_name(cpu_id), vcpu_body(cpu_id));
}

/// What `CTFY` does that has branches for the vCPUs below `n`.
spec fn notices(n: int, args: (int, int)) -> Seq<Effect> {
    if 0 <= args.0 < n {
        seq![
            Effect::Notify { object: cpu_aml::cpu_path(args.0 as u8), value: args.1 },
        ]
    } else {
        seq![]
    }
}

/// The branches of `CTFY` notify the vCPU of the first argument of the second.
proof fn lemma_notices(n: nat, args: (int, int))
    requires
        n <= 0x100,
    ensures
        reader::has_effects(cpu_aml::cpu_notifies(n), args, notices(n as int, args)),
    decreases n,
{
    if n == 0 {
        reader::no_effects(args);
    } else {
        let cpu_id = (n - 1) as u8;
        let below = notices(n - 1, args);
        let own = if args.0 == cpu_id {
            seq![Effect::Notify { object: cpu_aml::cpu_path(cpu_id), value: args.1 }]
        } else {
            seq![]
        };
        lemma_notices((n - 1) as nat, args);
        lemma_vcpu_name(cpu_id);
        assert(reader::read_value(grammar::arg(1), args).0 == args.1);
        reader::effect_of_branch(
            cpu_id as u64,
            cpu_aml::cpu_path(cpu_id),
            grammar::arg(1),
            args,
            args.1,
        );
        reader::effects_of_both(
            cpu_aml::cpu_notifies((n - 1) as nat),
            cpu_aml::cpu_notify(cpu_id),
            args,
            below,
            own,
        );
        assert(below + own =~= notices(n as int, args));
    }
}

/// The five objects before the vCPUs.
#[verifier::opaque]
spec fn shared_objects(max_vcpus: u8) -> Seq<Object> {
    seq![
        Object::Named { name: "_HID"@, value: Data::Text("ACPI0010"@) },
        Object::Named { name: "_CID"@, value: Data::Integer(0x050a_d041) },
        Object::Method { name: "CSTA"@, flags: 9, body: guest::encode(guest::csta_body()) },
        Object::Method {
            name: "CTFY"@,
            flags: 10,
            body: cpu_aml::cpu_notifies(max_vcpus as nat),
        },
        Object::Method {
            name: "CSCN"@,
            flags: 8,
            body: guest::encode(guest::cscn_body(max_vcpus)),
        },
    ]
}

/// What is before the vCPUs.
#[verifier::opaque]
spec fn shared_part(max_vcpus: u8) -> Seq<u8> {
    grammar::named("_HID"@, grammar::string("ACPI0010"@)) + grammar::named(
        "_CID"@,
        grammar::eisa_id("PNP0A05"@),
    ) + cpu_aml::csta_method() + cpu_aml::ctfy_method(max_vcpus) + cpu_aml::cscn_method(max_vcpus)
}

/// The compatible identifier of the container.
proof fn lemma_container_id()
    ensures
        reader::is_object(
            grammar::named("_CID"@, grammar::eisa_id("PNP0A05"@)),
            Object::Named { name: "_CID"@, value: Data::Integer(0x050a_d041) },
        ),
        grammar::named("_CID"@, grammar::eisa_id("PNP0A05"@)).len() == 10,
{
    lemma_names();
    reveal_strlit("PNP0A05");
    assert(grammar::eisa_id("PNP0A05"@) =~= seq![0x0cu8, 0x41, 0xd0, 0x0a, 0x05]);
    assert(grammar::integer(0x050a_d041) =~= seq![0x0cu8, 0x41, 0xd0, 0x0a, 0x05]);
    reader::named_integer("_CID"@, 0x050a_d041);
}

/// What is before the vCPUs is read as the five objects.
proof fn lemma_shared_part(max_vcpus: u8)
    ensures
        reader::are_objects(shared_part(max_vcpus), shared_objects(max_vcpus)),
        shared_part(max_vcpus).len() < 0x2_0000,
        shared_objects(max_vcpus).len() == 5,
{
    lemma_shared_texts(max_vcpus);
    lemma_shared_csta(max_vcpus);
    lemma_shared_ctfy(max_vcpus);
    lemma_shared_cscn(max_vcpus);
    lemma_shared_parts(
        grammar::named("_HID"@, grammar::string("ACPI0010"@)),
        grammar::named("_CID"@, grammar::eisa_id("PNP0A05"@)),
        cpu_aml::csta_method(),
        cpu_aml::ctfy_method(max_vcpus),
        cpu_aml::cscn_method(max_vcpus),
        max_vcpus,
    );
}

/// What is before the vCPUs, by its parts.
proof fn lemma_shared_parts(
    a: Seq<u8>,
    b: Seq<u8>,
    c: Seq<u8>,
    d: Seq<u8>,
    e: Seq<u8>,
    max_vcpus: u8,
)
    requires
        shared_part(max_vcpus) == a + b + c + d + e,
        a.len() < 0x100 && b.len() < 0x100 && c.len() < 0x100 && d.len() < 0x1_0000 && e.len()
            < 0x200,
        shared_objects(max_vcpus).len() == 5,
        reader::is_object(a, shared_objects(max_vcpus)[0]),
        reader::is_object(b, shared_objects(max_vcpus)[1]),
        reader::is_object(c, shared_objects(max_vcpus)[2]),
        reader::is_object(d, shared_objects(max_vcpus)[3]),
        reader::is_object(e, shared_objects(max_vcpus)[4]),
    ensures
        reader::are_objects(shared_part(max_vcpus), shared_objects(max_vcpus)),
        shared_part(max_vcpus).len() < 0x2_0000,
{
    lemma_five_objects(a, b, c, d, e, shared_objects(max_vcpus));
}

/// The identifiers of the container, and what it starts with.
proof fn lemma_shared_texts(max_vcpus: u8)
    ensures
        shared_objects(max_vcpus).len() == 5,
        reader::is_object(
            grammar::named("_HID"@, grammar::string("ACPI0010"@)),
            shared_objects(max_vcpus)[0],
        ),
        reader::is_object(
            grammar::named("_CID"@, grammar::eisa_id("PNP0A05"@)),
            shared_objects(max_vcpus)[1],
        ),
        grammar::named("_HID"@, grammar::string("ACPI0010"@)).len() < 0x100,
        grammar::named("_CID"@, grammar::eisa_id("PNP0A05"@)).len() < 0x100,
        shared_part(max_vcpus) == grammar::named("_HID"@, grammar::string("ACPI0010"@))
            + grammar::named("_CID"@, grammar::eisa_id("PNP0A05"@)) + cpu_aml::csta_method()
            + cpu_aml::ctfy_method(max_vcpus) + cpu_aml::cscn_method(max_vcpus),
{
    lemma_names();
    lemma_container_id();
    reveal(shared_objects);
    reveal(shared_part);
    reveal_strlit("ACPI0010");
    reader::named_string("_HID"@, "ACPI0010"@);
}

/// The method `CSTA`.
proof fn lemma_shared_csta(max_vcpus: u8)
    ensures
        reader::is_object(cpu_aml::csta_method(), shared_objects(max_vcpus)[2]),
        cpu_aml::csta_method().len() < 0x100,
{
    reveal(shared_objects);
    lemma_names();
    cpu_aml::lemma_methods_len(max_vcpus);
    guest::lemma_csta_bytes();
    lemma_short_method("CSTA"@, 1, guest::encode(guest::csta_body()));
}

/// The method `CTFY`.
proof fn lemma_shared_ctfy(max_vcpus: u8)
    ensures
        reader::is_object(cpu_aml::ctfy_method(max_vcpus), shared_objects(max_vcpus)[3]),
        cpu_aml::ctfy_method(max_vcpus).len() < 0x1_0000,
{
    reveal(shared_objects);
    lemma_names();
    cpu_aml::lemma_methods_len(max_vcpus);
    lemma_short_method("CTFY"@, 2, cpu_aml::cpu_notifies(max_vcpus as nat));
}

/// The method `CSCN`.
proof fn lemma_shared_cscn(max_vcpus: u8)
    ensures
        reader::is_object(cpu_aml::cscn_method(max_vcpus), shared_objects(max_vcpus)[4]),
        cpu_aml::cscn_method(max_vcpus).len() < 0x200,
{
    reveal(shared_objects);
    lemma_names();
    cpu_aml::lemma_methods_len(max_vcpus);
    guest::lemma_cscn_bytes(max_vcpus);
    lemma_short_method("CSCN"@, 0, guest::encode(guest::cscn_body(max_vcpus)));
}

/// A serialized method that is not long is read as such.
proof fn lemma_short_method(name: Seq<char>, args: u8, body: Seq<u8>)
    requires
        reader::is_plain(name),
        grammar::method(name, args, true, body).len() < 0x2_0000,
    ensures
        reader::is_object(
            grammar::method(name, args, true, body),
            Object::Method { name, flags: args % 8 + 8, body },
        ),
{
    lemma_method_len(name, args, body);
    reader::method(name, args, true, body);
}

/// A method is longer than its body.
proof fn lemma_method_len(name: Seq<char>, args: u8, body: Seq<u8>)
    ensures
        grammar::path(name).len() + body.len() < grammar::method(name, args, true, body).len(),
{
}

/// The vCPUs below `n` as they are read.
spec fn vcpu_objects(n: nat) -> Seq<Object> {
    Seq::new(n, |i: int| vcpu_object(i as u8))
}

/// The device of a vCPU.
#[verifier::opaque]
spec fn vcpu_device(cpu_id: u8) -> Seq<u8> {
    cpu_aml::cpu_device(cpu_id)
}

/// The device of a vCPU as it is read, and how long it is.
proof fn lemma_vcpu_bytes(cpu_id: u8)
    ensures
        reader::is_object(vcpu_device(cpu_id), vcpu_object(cpu_id)),
        vcpu_device(cpu_id).len() < 0x100,
{
    reveal(vcpu_device);
    lemma_vcpu_device(cpu_id);
    cpu_aml::lemma_cpu_device_len(cpu_id);
}

/// The devices of the vCPUs below `n` end with that of the last.
proof fn lemma_vcpu_devices(n: nat)
    requires
        0 < n <= 0x100,
    ensures
        cpu_aml::cpu_devices(n) == cpu_aml::cpu_devices((n - 1) as nat) + vcpu_device(
            (n - 1) as u8,
        ),
{
    reveal(vcpu_device);
}

/// Devices after other objects are read after them.
proof fn lemma_vcpus(shared: Seq<u8>, objects: Seq<Object>, n: nat)
    requires
        n <= 0x100,
        reader::are_objects(shared, objects),
    ensures
        reader::are_objects(shared + cpu_aml::cpu_devices(n), objects + vcpu_objects(n)),
        cpu_aml::cpu_devices(n).len() <= n * 0x100,
    decreases n,
{
    if n == 0 {
        assert(shared + cpu_aml::cpu_devices(0) =~= shared);
        assert(objects + vcpu_objects(0) =~= objects);
    } else {
        let cpu_id = (n - 1) as u8;
        let below = cpu_aml::cpu_devices((n - 1) as nat);
        lemma_vcpus(shared, objects, (n - 1) as nat);
        lemma_vcpu_bytes(cpu_id);
        lemma_vcpu_devices(n);
        reader::objects_and_one(
            shared + below,
            objects + vcpu_objects((n - 1) as nat),
            vcpu_device(cpu_id),
            vcpu_object(cpu_id),
        );
        lemma_regroup(shared, below, vcpu_device(cpu_id));
        assert((objects + vcpu_objects((n - 1) as nat)).push(vcpu_object(cpu_id)) =~= objects
            + vcpu_objects(n));
    }
}

/// Three pieces, however they are grouped.
proof fn lemma_regroup(a: Seq<u8>, b: Seq<u8>, c: Seq<u8>)
    ensures
        a + b + c == a + (b + c),
{
    assert(a + b + c =~= a + (b + c));
}

/// What the container of the vCPUs holds.
proof fn lemma_container_body(max_vcpus: u8)
    ensures
        cpu_aml::cpus_device(max_vcpus) == grammar::device(
            "_SB_.CPUS"@,
            shared_part(max_vcpus) + cpu_aml::cpu_devices(max_vcpus as nat),
        ),
{
    reveal(shared_part);
}

/// What the container of the vCPUs holds, as it is read.
proof fn lemma_container(max_vcpus: u8) -> (body: Seq<u8>)
    ensures
        reader::read_objects(cpu_aml::cpus_device(max_vcpus)) == seq![
            Object::Device { name: "_SB_.CPUS"@, body },
        ],
        reader::is_object(
            cpu_aml::cpus_device(max_vcpus),
            Object::Device { name: "_SB_.CPUS"@, body },
        ),
        reader::read_objects(body) == shared_objects(max_vcpus) + vcpu_objects(max_vcpus as nat),
{
    let body = shared_part(max_vcpus) + cpu_aml::cpu_devices(max_vcpus as nat);
    lemma_device_names();
    lemma_shared_part(max_vcpus);
    lemma_vcpus(shared_part(max_vcpus), shared_objects(max_vcpus), max_vcpus as nat);
    lemma_container_body(max_vcpus);
    lemma_device_again("_SB_.CPUS"@, body, cpu_aml::cpus_device(max_vcpus));
    reader::just_these_objects(body, shared_objects(max_vcpus) + vcpu_objects(max_vcpus as nat));
    body
}

/// The five objects, one by one.
proof fn lemma_shared_objects(max_vcpus: u8)
    ensures
        ({
            let objects = shared_objects(max_vcpus);
            &&& objects[0] == (Object::Named { name: "_HID"@, value: Data::Text("ACPI0010"@) })
            &&& objects[1] == (Object::Named {
                name: "_CID"@,
                value: Data::Integer(0x050a_d041),
            })
            &&& objects[2] == (Object::Method {
                name: "CSTA"@,
                flags: 9,
                body: guest::encode(guest::csta_body()),
            })
            &&& objects[3] == (Object::Method {
                name: "CTFY"@,
                flags: 10,
                body: cpu_aml::cpu_notifies(max_vcpus as nat),
            })
            &&& objects[4] == (Object::Method {
                name: "CSCN"@,
                flags: 8,
                body: guest::encode(guest::cscn_body(max_vcpus)),
            })
        }),
{
    reveal(shared_objects);
}

/// The object is the device `CPUS` that describes exactly the vCPUs below the maximum, each as
/// itself and in order, after the methods that they share. `CTFY` notifies the device of the vCPU
/// that is its first argument of its second, and none if there is no such vCPU.
#[verifier::opaque]
pub open spec fn describes_vcpus(object: Object, max_vcpus: u8) -> bool {
    let objects = reader::read_objects(object->Device_body);
    &&& object is Device
    &&& object->Device_name == "_SB_.CPUS"@
    &&& objects.len() == 5 + max_vcpus
    &&& objects[0] == (Object::Named { name: "_HID"@, value: Data::Text("ACPI0010"@) })
    &&& objects[1] == (Object::Named { name: "_CID"@, value: Data::Integer(0x050a_d041) })
    &&& objects[2] == (Object::Method {
        name: "CSTA"@,
        flags: 9,
        body: guest::encode(guest::csta_body()),
    })
    &&& objects[3] is Method
    &&& objects[3]->Method_name == "CTFY"@
    &&& objects[3]->Method_flags == 10
    &&& forall|i: int, event: int| #[trigger]
        reader::effects(objects[3]->Method_body, (i, event)) == if 0 <= i < max_vcpus {
            seq![
                Effect::Notify {
                    object: "\\_SB_.CPUS."@ + objects[5 + i]->Device_name,
                    value: event,
                },
            ]
        } else {
            seq![]
        }
    &&& objects[4] == (Object::Method {
        name: "CSCN"@,
        flags: 8,
        body: guest::encode(guest::cscn_body(max_vcpus)),
    })
    &&& forall|i: int| 0 <= i < max_vcpus ==> is_vcpu(#[trigger] objects[5 + i], i)
}

/// The tables tell the guest of every vCPU that it can have, and of no other.
pub proof fn vcpus_are_described(max_vcpus: u8)
    ensures
        reader::read_objects(cpu_aml::cpus_device(max_vcpus)).len() == 1,
        describes_vcpus(reader::read_objects(cpu_aml::cpus_device(max_vcpus))[0], max_vcpus),
{
    reveal(describes_vcpus);
    let body = lemma_container(max_vcpus);
    let objects = shared_objects(max_vcpus) + vcpu_objects(max_vcpus as nat);
    let notifies = cpu_aml::cpu_notifies(max_vcpus as nat);
    lemma_shared_part(max_vcpus);
    lemma_shared_objects(max_vcpus);
    assert forall|i: int| 0 <= i < max_vcpus implies is_vcpu(#[trigger] objects[5 + i], i) by {
        assert(objects[5 + i] == vcpu_object(i as u8));
        lemma_vcpu(i as u8);
    }
    assert forall|i: int, event: int| #[trigger]
        reader::effects(notifies, (i, event)) == if 0 <= i < max_vcpus {
            seq![
                Effect::Notify {
                    object: "\\_SB_.CPUS."@ + objects[5 + i]->Device_name,
                    value: event,
                },
            ]
        } else {
            seq![]
        } by {
        lemma_notices(max_vcpus as nat, (i, event));
        reader::just_these_effects(notifies, (i, event), notices(max_vcpus as int, (i, event)));
        if 0 <= i < max_vcpus {
            assert(objects[5 + i] == vcpu_object(i as u8));
            lemma_vcpu_name(i as u8);
        }
    }
}

/// The descriptor from `at` on is that of an interrupt line: consumed, edge-triggered, active
/// high and not shared.
pub open spec fn is_interrupt(resources: Seq<u8>, at: int, line: int) -> bool {
    &&& resources[at] == 0x89
    &&& reader::number2(resources, at + 1) == 6
    &&& resources[at + 3] == 3
    &&& resources[at + 4] == 1
    &&& reader::number4(resources, at + 5) == line
}

/// The descriptor of an interrupt line is read as such, wherever it is.
proof fn lemma_interrupt(before: Seq<u8>, gsi: u32, after: Seq<u8>)
    ensures
        is_interrupt(
            before + manager::device_interrupt(gsi) + after,
            before.len() as int,
            gsi as int,
        ),
        manager::device_interrupt(gsi).len() == 9,
{
    let d = manager::device_interrupt(gsi);
    let r = before + d + after;
    let at = before.len() as int;
    assert(r[at] == d[0] && r[at + 1] == d[1] && r[at + 2] == d[2] && r[at + 3] == d[3] && r[at
        + 4] == d[4]);
    assert(r.subrange(at + 5, at + 9) =~= bytes::le32(gsi));
    reader::lemma_numbers(r, at + 5, gsi as u64);
}

/// The interrupts of the event device.
#[verifier::opaque]
spec fn event_resources(vmgenid_gsi: u32, vmclock_gsi: u32, hotplug_gsi: Option<u32>) -> Seq<u8> {
    let two = manager::device_interrupt(vmgenid_gsi) + manager::device_interrupt(vmclock_gsi);
    (match hotplug_gsi {
        Some(gsi) => two + manager::device_interrupt(gsi),
        None => two,
    }) + seq![0x79u8, 0]
}

/// The handler of the event device.
#[verifier::opaque]
spec fn event_handler(vmgenid_gsi: u32, vmclock_gsi: u32, hotplug_gsi: Option<u32>) -> Seq<u8> {
    let branches = manager::event_branch(vmgenid_gsi, "\\_SB_.VGEN"@) + manager::event_branch(
        vmclock_gsi,
        "\\_SB_.VCLK"@,
    );
    match hotplug_gsi {
        Some(gsi) => branches + grammar::call("\\_SB_.CPUS.CSCN"@, seq![]),
        None => branches,
    }
}

/// The interrupts of the event device are read in order.
proof fn lemma_event_resources(vmgenid_gsi: u32, vmclock_gsi: u32, hotplug_gsi: Option<u32>)
    ensures
        ({
            let resources = event_resources(vmgenid_gsi, vmclock_gsi, hotplug_gsi);
            &&& is_interrupt(resources, 0, vmgenid_gsi as int)
            &&& is_interrupt(resources, 9, vmclock_gsi as int)
            &&& match hotplug_gsi {
                Some(gsi) => is_interrupt(resources, 18, gsi as int) && resources.len() == 29
                    && resources[27] == 0x79 && resources[28] == 0,
                None => resources.len() == 20 && resources[18] == 0x79 && resources[19] == 0,
            }
        }),
{
    reveal(event_resources);
    let none = Seq::<u8>::empty();
    let end = seq![0x79u8, 0];
    let a = manager::device_interrupt(vmgenid_gsi);
    let b = manager::device_interrupt(vmclock_gsi);
    let resources = event_resources(vmgenid_gsi, vmclock_gsi, hotplug_gsi);
    match hotplug_gsi {
        Some(gsi) => {
            let c = manager::device_interrupt(gsi);
            lemma_interrupt(none, vmgenid_gsi, b + c + end);
            lemma_interrupt(a, vmclock_gsi, c + end);
            lemma_interrupt(a + b, gsi, end);
            assert(none + a + (b + c + end) =~= resources);
            assert(a + b + (c + end) =~= resources);
        },
        None => {
            lemma_interrupt(none, vmgenid_gsi, b + end);
            lemma_interrupt(a, vmclock_gsi, end);
            assert(none + a + (b + end) =~= resources);
        },
    }
}

/// The names in the event handler.
proof fn lemma_event_names()
    ensures
        reader::is_plain("\\_SB_.VGEN"@),
        reader::is_plain("\\_SB_.VCLK"@),
        reader::is_plain("\\_SB_.CPUS.CSCN"@),
        grammar::is_rooted("\\_SB_.CPUS.CSCN"@),
        grammar::path("\\_SB_.VGEN"@).len() == 10,
        grammar::path("\\_SB_.VCLK"@).len() == 10,
        grammar::path("\\_SB_.CPUS.CSCN"@).len() == 15,
{
    reveal_strlit("\\_SB_.VGEN");
    reveal_strlit("\\_SB_.VCLK");
    reveal_strlit("\\_SB_.CPUS.CSCN");
    grammar::lemma_two_rooted_segments("\\_SB_.VGEN"@);
    grammar::lemma_two_rooted_segments("\\_SB_.VCLK"@);
    grammar::lemma_three_rooted_segments("\\_SB_.CPUS.CSCN"@);
}

/// What the event handler does about an event.
spec fn event_effects(gsi: u32, device: Seq<char>, event: int) -> Seq<Effect> {
    if event == gsi % 0x100 {
        seq![Effect::Notify { object: device, value: 0x80 }]
    } else {
        seq![]
    }
}

/// The branch of a device notifies it if the event is the low byte of its interrupt line.
proof fn lemma_event_branch(gsi: u32, device: Seq<char>, args: (int, int))
    requires
        reader::is_plain(device),
        grammar::path(device).len() == 10,
    ensures
        reader::has_effects(
            manager::event_branch(gsi, device),
            args,
            event_effects(gsi, device, args.0),
        ),
        manager::event_branch(gsi, device).len() < 0x40,
{
    let none = Seq::<u8>::empty();
    let value = grammar::integer(0x80);
    reader::integers_read_back(0x80, none);
    assert(value + none =~= value);
    assert(value[0] == 0x0a);
    reader::effect_of_branch((gsi % 0x100) as u64, device, value, args, 0x80);
}

/// The event handler notifies the device whose interrupt line it is, and has the vCPUs scanned.
proof fn lemma_event_handler(
    vmgenid_gsi: u32,
    vmclock_gsi: u32,
    hotplug_gsi: Option<u32>,
    args: (int, int),
)
    ensures
        reader::effects(event_handler(vmgenid_gsi, vmclock_gsi, hotplug_gsi), args)
            == event_effects(vmgenid_gsi, "\\_SB_.VGEN"@, args.0) + event_effects(
            vmclock_gsi,
            "\\_SB_.VCLK"@,
            args.0,
        ) + (if hotplug_gsi is Some {
            seq![Effect::Call { method: "\\_SB_.CPUS.CSCN"@ }]
        } else {
            seq![]
        }),
        event_handler(vmgenid_gsi, vmclock_gsi, hotplug_gsi).len() < 0x100,
{
    lemma_event_names();
    let vgen = event_effects(vmgenid_gsi, "\\_SB_.VGEN"@, args.0);
    let vclk = event_effects(vmclock_gsi, "\\_SB_.VCLK"@, args.0);
    let scan = seq![Effect::Call { method: "\\_SB_.CPUS.CSCN"@ }];
    let handler = event_handler(vmgenid_gsi, vmclock_gsi, hotplug_gsi);
    lemma_event_branch(vmgenid_gsi, "\\_SB_.VGEN"@, args);
    lemma_event_branch(vmclock_gsi, "\\_SB_.VCLK"@, args);
    reader::effect_of_call("\\_SB_.CPUS.CSCN"@, args);
    reveal(event_handler);
    let parts = (
        manager::event_branch(vmgenid_gsi, "\\_SB_.VGEN"@),
        manager::event_branch(vmclock_gsi, "\\_SB_.VCLK"@),
        grammar::call("\\_SB_.CPUS.CSCN"@, seq![]),
    );
    lemma_three_effects(parts.0, parts.1, parts.2, args, vgen, vclk, scan);
    assert(vgen + vclk + Seq::<Effect>::empty() =~= vgen + vclk);
}

/// The effects of two parts, and of three.
proof fn lemma_three_effects(
    a: Seq<u8>,
    b: Seq<u8>,
    c: Seq<u8>,
    args: (int, int),
    first: Seq<Effect>,
    second: Seq<Effect>,
    third: Seq<Effect>,
)
    requires
        reader::has_effects(a, args, first),
        reader::has_effects(b, args, second),
        reader::has_effects(c, args, third),
    ensures
        reader::effects(a + b, args) == first + second,
        reader::effects(a + b + c, args) == first + second + third,
{
    reader::effects_of_both(a, b, args, first, second);
    reader::effects_of_both(a + b, c, args, first + second, third);
    reader::just_these_effects(a + b, args, first + second);
    reader::just_these_effects(a + b + c, args, first + second + third);
}

/// What is read of the event device.
proof fn lemma_event_device(vmgenid_gsi: u32, vmclock_gsi: u32, hotplug_gsi: Option<u32>) -> (body:
    Seq<u8>)
    ensures
        reader::is_object(
            manager::ged_device(vmgenid_gsi, vmclock_gsi, hotplug_gsi),
            Object::Device { name: "_SB_.GED_"@, body },
        ),
        reader::read_objects(manager::ged_device(vmgenid_gsi, vmclock_gsi, hotplug_gsi)) == seq![
            Object::Device { name: "_SB_.GED_"@, body },
        ],
        reader::read_objects(body) == seq![
            Object::Named { name: "_HID"@, value: Data::Text("ACPI0013"@) },
            Object::Named {
                name: "_CRS"@,
                value: Data::Buffer(event_resources(vmgenid_gsi, vmclock_gsi, hotplug_gsi)),
            },
            Object::Method {
                name: "_EVT"@,
                flags: 9,
                body: event_handler(vmgenid_gsi, vmclock_gsi, hotplug_gsi),
            },
        ],
{
    let resources = event_resources(vmgenid_gsi, vmclock_gsi, hotplug_gsi);
    let handler = event_handler(vmgenid_gsi, vmclock_gsi, hotplug_gsi);
    lemma_event_resources(vmgenid_gsi, vmclock_gsi, hotplug_gsi);
    lemma_event_handler(vmgenid_gsi, vmclock_gsi, hotplug_gsi, (0, 0));
    lemma_device_names();
    let body = lemma_event_body(resources, handler);
    lemma_event_definition(vmgenid_gsi, vmclock_gsi, hotplug_gsi);
    lemma_device_again(
        "_SB_.GED_"@,
        body,
        manager::ged_device(vmgenid_gsi, vmclock_gsi, hotplug_gsi),
    );
    body
}

/// What the event device holds, with whatever interrupts and handler.
proof fn lemma_event_body(resources: Seq<u8>, handler: Seq<u8>) -> (body: Seq<u8>)
    requires
        resources.len() < 0x100,
        handler.len() < 0x100,
    ensures
        body == grammar::named("_HID"@, grammar::string("ACPI0013"@)) + grammar::named(
            "_CRS"@,
            grammar::buffer(resources),
        ) + grammar::method("_EVT"@, 1, true, handler),
        body.len() < 0x1000,
        reader::read_objects(body) == seq![
            Object::Named { name: "_HID"@, value: Data::Text("ACPI0013"@) },
            Object::Named { name: "_CRS"@, value: Data::Buffer(resources) },
            Object::Method { name: "_EVT"@, flags: 9, body: handler },
        ],
{
    let a = grammar::named("_HID"@, grammar::string("ACPI0013"@));
    let b = grammar::named("_CRS"@, grammar::buffer(resources));
    let c = grammar::method("_EVT"@, 1, true, handler);
    lemma_names();
    reveal_strlit("ACPI0013");
    reader::named_string("_HID"@, "ACPI0013"@);
    reader::named_buffer("_CRS"@, resources);
    reader::method("_EVT"@, 1, true, handler);
    lemma_three_objects(
        a,
        b,
        c,
        Object::Named { name: "_HID"@, value: Data::Text("ACPI0013"@) },
        Object::Named { name: "_CRS"@, value: Data::Buffer(resources) },
        Object::Method { name: "_EVT"@, flags: 9, body: handler },
    );
    a + b + c
}

/// Three objects one after the other are read as those three.
proof fn lemma_three_objects(
    a: Seq<u8>,
    b: Seq<u8>,
    c: Seq<u8>,
    first: Object,
    second: Object,
    third: Object,
)
    requires
        reader::is_object(a, first),
        reader::is_object(b, second),
        reader::is_object(c, third),
    ensures
        reader::read_objects(a + b) == seq![first, second],
        reader::read_objects(a + b + c) == seq![first, second, third],
{
    reader::one_object(a, first);
    reader::objects_and_one(a, seq![first], b, second);
    assert(seq![first].push(second) =~= seq![first, second]);
    reader::objects_and_one(a + b, seq![first, second], c, third);
    assert(seq![first, second].push(third) =~= seq![first, second, third]);
    reader::just_these_objects(a + b, seq![first, second]);
    reader::just_these_objects(a + b + c, seq![first, second, third]);
}

/// What the event device is made of.
proof fn lemma_event_definition(vmgenid_gsi: u32, vmclock_gsi: u32, hotplug_gsi: Option<u32>)
    ensures
        manager::ged_device(vmgenid_gsi, vmclock_gsi, hotplug_gsi) == grammar::device(
            "_SB_.GED_"@,
            grammar::named("_HID"@, grammar::string("ACPI0013"@)) + grammar::named(
                "_CRS"@,
                grammar::buffer(event_resources(vmgenid_gsi, vmclock_gsi, hotplug_gsi)),
            ) + grammar::method(
                "_EVT"@,
                1,
                true,
                event_handler(vmgenid_gsi, vmclock_gsi, hotplug_gsi),
            ),
        ),
{
    reveal(event_resources);
    reveal(event_handler);
}

/// The object is the event device that announces the interrupt line of each device.
#[verifier::opaque]
pub open spec fn describes_events(
    object: Object,
    vmgenid_gsi: u32,
    vmclock_gsi: u32,
    hotplug_gsi: Option<u32>,
) -> bool {
    let objects = reader::read_objects(object->Device_body);
    let resources = objects[1]->value->Buffer_0;
    &&& object is Device
    &&& object->Device_name == "_SB_.GED_"@
    &&& objects.len() == 3
    &&& objects[0] == (Object::Named { name: "_HID"@, value: Data::Text("ACPI0013"@) })
    &&& objects[1] is Named
    &&& objects[1]->Named_name == "_CRS"@
    &&& objects[1]->value is Buffer
    &&& is_interrupt(resources, 0, vmgenid_gsi as int)
    &&& is_interrupt(resources, 9, vmclock_gsi as int)
    &&& hotplug_gsi matches Some(gsi) ==> is_interrupt(resources, 18, gsi as int)
    &&& resources.len() == if hotplug_gsi is Some {
        29int
    } else {
        20
    }
    &&& resources[resources.len() - 2] == 0x79
    &&& resources[resources.len() - 1] == 0
    &&& objects[2] is Method
    &&& objects[2]->Method_name == "_EVT"@
    &&& objects[2]->Method_flags == 9
}

/// What the handler of the event device does about an event.
pub open spec fn handled(object: Object, event: int, other: int) -> Seq<Effect> {
    reader::effects(reader::read_objects(object->Device_body)[2]->Method_body, (event, other))
}

/// The event device announces the interrupt line of each device, and its handler notifies the
/// device whose line it is: the one whose line has the event as its low byte. With CPU hotplug
/// there is a third line, and the handler has the vCPUs scanned, whatever the event.
pub proof fn events_are_handled(
    vmgenid_gsi: u32,
    vmclock_gsi: u32,
    hotplug_gsi: Option<u32>,
    event: int,
    other: int,
)
    ensures
        ({
            let read = reader::read_objects(
                manager::ged_device(vmgenid_gsi, vmclock_gsi, hotplug_gsi),
            );
            &&& read.len() == 1
            &&& describes_events(read[0], vmgenid_gsi, vmclock_gsi, hotplug_gsi)
            &&& handled(read[0], event, other) == (if event == vmgenid_gsi % 0x100 {
                seq![Effect::Notify { object: "\\_SB_.VGEN"@, value: 0x80 }]
            } else {
                seq![]
            }) + (if event == vmclock_gsi % 0x100 {
                seq![Effect::Notify { object: "\\_SB_.VCLK"@, value: 0x80 }]
            } else {
                seq![]
            }) + (if hotplug_gsi is Some {
                seq![Effect::Call { method: "\\_SB_.CPUS.CSCN"@ }]
            } else {
                seq![]
            })
        }),
{
    reveal(describes_events);
    let body = lemma_event_device(vmgenid_gsi, vmclock_gsi, hotplug_gsi);
    lemma_event_resources(vmgenid_gsi, vmclock_gsi, hotplug_gsi);
    lemma_event_handler(vmgenid_gsi, vmclock_gsi, hotplug_gsi, (event, other));
}

/// Where the interrupt lines are below 256 and differ, the interrupt of a device notifies that
/// device and no other: the handler compares the event with the very line that is announced.
pub proof fn interrupts_reach_their_devices(
    vmgenid_gsi: u32,
    vmclock_gsi: u32,
    hotplug_gsi: Option<u32>,
    event: int,
    other: int,
)
    requires
        vmgenid_gsi < 0x100,
        vmclock_gsi < 0x100,
        vmgenid_gsi != vmclock_gsi,
    ensures
        ({
            let read = reader::read_objects(
                manager::ged_device(vmgenid_gsi, vmclock_gsi, hotplug_gsi),
            );
            let resources = reader::read_objects(read[0]->Device_body)[1]->value->Buffer_0;
            let made = handled(read[0], event, other);
            let vgen = Effect::Notify { object: "\\_SB_.VGEN"@, value: 0x80 };
            let vclk = Effect::Notify { object: "\\_SB_.VCLK"@, value: 0x80 };
            &&& made.contains(vgen) <==> event == reader::number4(resources, 5)
            &&& made.contains(vclk) <==> event == reader::number4(resources, 14)
            &&& reader::number4(resources, 5) == vmgenid_gsi
            &&& reader::number4(resources, 14) == vmclock_gsi
            &&& forall|effect: Effect| #[trigger]
                made.contains(effect) && effect is Notify ==> effect == vgen || effect == vclk
        }),
{
    reveal(describes_events);
    events_are_handled(vmgenid_gsi, vmclock_gsi, hotplug_gsi, event, other);
    reveal_strlit("\\_SB_.VGEN");
    reveal_strlit("\\_SB_.VCLK");
    assert("\\_SB_.VGEN"@[6] != "\\_SB_.VCLK"@[6] || "\\_SB_.VGEN"@[7] != "\\_SB_.VCLK"@[7]);
    let read = reader::read_objects(manager::ged_device(vmgenid_gsi, vmclock_gsi, hotplug_gsi));
    let made = handled(read[0], event, other);
    let vgen = Effect::Notify { object: "\\_SB_.VGEN"@, value: 0x80 };
    let vclk = Effect::Notify { object: "\\_SB_.VCLK"@, value: 0x80 };
    if event == vmgenid_gsi || event == vmclock_gsi {
        assert(made[0] == if event == vmgenid_gsi {
            vgen
        } else {
            vclk
        });
    }
}

/// The two and the three are read as one object each, one after the other.
pub open spec fn are_read_in_turn(a: Seq<u8>, b: Seq<u8>, c: Seq<u8>) -> bool {
    let first = reader::read_objects(a)[0];
    let second = reader::read_objects(b)[0];
    let third = reader::read_objects(c)[0];
    &&& reader::read_objects(a + b) == seq![first, second]
    &&& reader::read_objects(a + b + c) == seq![first, second, third]
}

/// The devices of the controller, of the vCPUs and of the events, one after the other, are read
/// one after the other.
pub proof fn devices_are_read_in_turn(
    mmio_addr: u64,
    max_vcpus: u8,
    vmgenid_gsi: u32,
    vmclock_gsi: u32,
    hotplug_gsi: Option<u32>,
)
    requires
        mmio_addr + 11 <= u64::MAX,
    ensures
        are_read_in_turn(
            cpu_aml::controller_device(mmio_addr),
            cpu_aml::cpus_device(max_vcpus),
            manager::ged_device(vmgenid_gsi, vmclock_gsi, hotplug_gsi),
        ),
{
    let first = lemma_first_device(mmio_addr);
    let second = lemma_second_device(max_vcpus);
    let third = lemma_third_device(vmgenid_gsi, vmclock_gsi, hotplug_gsi);
    lemma_three_again(
        cpu_aml::controller_device(mmio_addr),
        cpu_aml::cpus_device(max_vcpus),
        manager::ged_device(vmgenid_gsi, vmclock_gsi, hotplug_gsi),
        first,
        second,
        third,
    );
}

/// The device of the controller is an object.
proof fn lemma_first_device(mmio_addr: u64) -> (object: Object)
    requires
        mmio_addr + 11 <= u64::MAX,
    ensures
        reader::is_object(cpu_aml::controller_device(mmio_addr), object),
{
    let (_, body) = lemma_controller_objects(mmio_addr);
    Object::Device { name: "_SB_.PRES"@, body }
}

/// The device of the vCPUs is an object.
proof fn lemma_second_device(max_vcpus: u8) -> (object: Object)
    ensures
        reader::is_object(cpu_aml::cpus_device(max_vcpus), object),
{
    let body = lemma_container(max_vcpus);
    Object::Device { name: "_SB_.CPUS"@, body }
}

/// The event device is an object.
proof fn lemma_third_device(vmgenid_gsi: u32, vmclock_gsi: u32, hotplug_gsi: Option<u32>) -> (o:
    Object)
    ensures
        reader::is_object(manager::ged_device(vmgenid_gsi, vmclock_gsi, hotplug_gsi), o),
{
    let body = lemma_event_device(vmgenid_gsi, vmclock_gsi, hotplug_gsi);
    Object::Device { name: "_SB_.GED_"@, body }
}

/// Three objects, each of which is read alone, are read one after the other.
proof fn lemma_three_again(
    a: Seq<u8>,
    b: Seq<u8>,
    c: Seq<u8>,
    first: Object,
    second: Object,
    third: Object,
)
    requires
        reader::is_object(a, first),
        reader::is_object(b, second),
        reader::is_object(c, third),
    ensures
        are_read_in_turn(a, b, c),
{
    lemma_object_alone(a, first);
    lemma_object_alone(b, second);
    lemma_object_alone(c, third);
    lemma_three_objects(a, b, c, first, second, third);
}

/// A branch of `CTFY` alone notifies its vCPU, if that is the first argument, of the second.
pub proof fn branch_notifies_its_vcpu(cpu_id: u8, i: int, event: int)
    ensures
        ({
            let made = reader::effects(cpu_aml::cpu_notify(cpu_id), (i, event));
            if i == cpu_id {
                &&& made.len() == 1
                &&& made[0] is Notify
                &&& made[0]->value == event
                &&& made[0]->object.len() == 15
                &&& made[0]->object.take(11) == "\\_SB_.CPUS."@
                &&& names_vcpu(made[0]->object.skip(11), cpu_id as int)
            } else {
                made.len() == 0
            }
        }),
{
    let args = (i, event);
    let own = if i == cpu_id {
        seq![Effect::Notify { object: cpu_aml::cpu_path(cpu_id), value: event }]
    } else {
        seq![]
    };
    lemma_vcpu_name(cpu_id);
    assert(reader::read_value(grammar::arg(1), args).0 == event);
    reader::effect_of_branch(
        cpu_id as u64,
        cpu_aml::cpu_path(cpu_id),
        grammar::arg(1),
        args,
        event,
    );
    reader::just_these_effects(cpu_aml::cpu_notify(cpu_id), args, own);
    reveal_strlit("\\_SB_.CPUS.");
    let path = cpu_aml::cpu_path(cpu_id);
    assert(path.take(11) =~= "\\_SB_.CPUS."@);
    assert(path.skip(11) =~= cpu_aml::cpu_name(cpu_id));
}

/// The methods that the vCPUs share, each alone, are read as such.
pub proof fn shared_methods_are_described(max_vcpus: u8)
    ensures
        reader::read_objects(cpu_aml::csta_method()) == seq![
            Object::Method { name: "CSTA"@, flags: 9, body: guest::encode(guest::csta_body()) },
        ],
        reader::read_objects(cpu_aml::ctfy_method(max_vcpus)) == seq![
            Object::Method {
                name: "CTFY"@,
                flags: 10,
                body: cpu_aml::cpu_notifies(max_vcpus as nat),
            },
        ],
        reader::read_objects(cpu_aml::cscn_method(max_vcpus)) == seq![
            Object::Method {
                name: "CSCN"@,
                flags: 8,
                body: guest::encode(guest::cscn_body(max_vcpus)),
            },
        ],
{
    lemma_shared_csta(max_vcpus);
    lemma_shared_ctfy(max_vcpus);
    lemma_shared_cscn(max_vcpus);
    lemma_shared_objects(max_vcpus);
    lemma_object_alone(cpu_aml::csta_method(), shared_objects(max_vcpus)[2]);
    lemma_object_alone(cpu_aml::ctfy_method(max_vcpus), shared_objects(max_vcpus)[3]);
    lemma_object_alone(cpu_aml::cscn_method(max_vcpus), shared_objects(max_vcpus)[4]);
}

/// An object alone is read as one object.
proof fn lemma_object_alone(b: Seq<u8>, object: Object)
    requires
        reader::is_object(b, object),
    ensures
        reader::read_objects(b) == seq![object],
{
    reader::one_object(b, object);
    reader::just_these_objects(b, seq![object]);
}

/// The device of a vCPU alone is read as the device of that vCPU.
pub proof fn vcpu_device_is_described(cpu_id: u8)
    ensures
        reader::read_objects(cpu_aml::cpu_device(cpu_id)).len() == 1,
        is_vcpu(reader::read_objects(cpu_aml::cpu_device(cpu_id))[0], cpu_id as int),
{
    lemma_vcpu(cpu_id);
    lemma_object_alone(cpu_aml::cpu_device(cpu_id), vcpu_object(cpu_id));
}

/// The body is a loop after two statements, and goes on as long as the local variable is below the
/// number.
pub open spec fn loops_below(body: Seq<u8>, n: int) -> bool {
    let content = reader::package_content(body.skip(23));
    &&& body[19] == 0x70
    &&& body[20] == 0x00
    &&& body[21] == 0x60
    &&& body[22] == 0xa2
    &&& content[0] == 0x95
    &&& content[1] == 0x60
    &&& reader::integer_value(content.skip(2)) == n
}

/// `CSCN` counts from zero up to the number of vCPUs, so that it comes to each of them.
pub proof fn scan_comes_to_every_vcpu(max_vcpus: u8)
    ensures
        reader::read_objects(cpu_aml::cscn_method(max_vcpus)).len() == 1,
        loops_below(
            reader::read_objects(cpu_aml::cscn_method(max_vcpus))[0]->Method_body,
            max_vcpus as int,
        ),
{
    let start = grammar::acquire("\\_SB_.PRES.CPLK"@, 0xffff);
    let zero = grammar::store(grammar::local(0), grammar::integer(0));
    let test = grammar::less_than(grammar::local(0), grammar::integer(max_vcpus as u64));
    let round = grammar::store(grammar::path("\\_SB_.PRES.CSEL"@), grammar::local(0))
        + cpu_aml::scan_event("\\_SB_.PRES.CINS"@, 1) + cpu_aml::scan_event(
        "\\_SB_.PRES.CRMV"@,
        3,
    ) + grammar::sum(grammar::local(0), grammar::local(0), grammar::integer(1));
    let end = grammar::release("\\_SB_.PRES.CPLK"@);
    let body = start + zero + grammar::while_loop(test, round) + end;
    lemma_names();
    cpu_aml::lemma_controller_names();
    cpu_aml::lemma_methods_len(max_vcpus);
    assert(cpu_aml::cscn_method(max_vcpus) == grammar::method("CSCN"@, 0, true, body));
    lemma_short_method("CSCN"@, 0, body);
    lemma_object_alone(
        cpu_aml::cscn_method(max_vcpus),
        Object::Method { name: "CSCN"@, flags: 8, body },
    );
    assert(start.len() == 19);
    assert(zero =~= seq![0x70u8, 0x00, 0x60]);
    lemma_method_len("CSCN"@, 0, body);
    lemma_loop(start, zero, grammar::integer(max_vcpus as u64), round, end);
    reader::integers_read_back(max_vcpus as u64, round);
    assert(test == seq![0x95u8] + seq![0x60u8] + grammar::integer(max_vcpus as u64));
}

/// A loop after two statements, by its parts.
proof fn lemma_loop(start: Seq<u8>, zero: Seq<u8>, n: Seq<u8>, round: Seq<u8>, end: Seq<u8>)
    requires
        start.len() == 19,
        zero == seq![0x70u8, 0x00, 0x60],
        n.len() + round.len() < 0x10_0000,
    ensures
        loops_below(
            start + zero + (seq![0xa2u8] + grammar::package(
                seq![0x95u8] + seq![0x60u8] + n + round,
            )) + end,
            reader::integer_value(n + round),
        ),
{
    let content = seq![0x95u8] + seq![0x60u8] + n + round;
    let body = start + zero + (seq![0xa2u8] + grammar::package(content)) + end;
    assert(body[19] == zero[0] && body[20] == zero[1] && body[21] == zero[2]);
    assert(body[22] == 0xa2);
    reader::packages_read_back(content, end);
    assert(body.skip(23) =~= grammar::package(content) + end);
    assert(content[0] == 0x95 && content[1] == 0x60);
    assert(content.skip(2) =~= n + round);
}

} // verus!
