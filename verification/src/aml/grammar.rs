//! The bytes of AML objects, as the ACPI specification lays them down.

use vstd::prelude::*;

use crate::bytes;

verus! {

/// A character that a name segment can hold: one byte, and not the separator.
pub open spec fn is_name_char(c: char) -> bool {
    c != '.' && c < '\u{80}'
}

/// A name that starts at the root of the namespace.
pub open spec fn is_rooted(name: Seq<char>) -> bool {
    name.len() > 0 && name[0] == '\\'
}

/// A name without the root sign.
pub open spec fn unrooted(name: Seq<char>) -> Seq<char> {
    if is_rooted(name) {
        name.skip(1)
    } else {
        name
    }
}

/// A name string: four-character segments with dots between them, perhaps from the root.
pub open spec fn is_path(name: Seq<char>) -> bool {
    let s = unrooted(name);
    &&& s.len() % 5 == 4
    &&& s.len() < 5 * 0x100 - 1
    &&& forall|k: int|
        0 <= k < s.len() ==> if k % 5 == 4 {
            #[trigger] s[k] == '.'
        } else {
            is_name_char(s[k])
        }
}

/// The four characters from `i` on make up a segment.
pub open spec fn is_segment(name: Seq<char>, i: int) -> bool {
    &&& is_name_char(name[i])
    &&& is_name_char(name[i + 1])
    &&& is_name_char(name[i + 2])
    &&& is_name_char(name[i + 3])
}

/// Number of segments of a name string.
pub open spec fn segment_count(name: Seq<char>) -> nat {
    ((unrooted(name).len() + 1) / 5) as nat
}

/// A name string: the root sign, how many segments follow where it is not one, and the segments.
pub open spec fn path(name: Seq<char>) -> Seq<u8> {
    let s = unrooted(name);
    let n = segment_count(name);
    (if is_rooted(name) {
        seq!['\\' as u8]
    } else {
        seq![]
    }) + (if n == 1 {
        seq![]
    } else if n == 2 {
        seq![0x2eu8]
    } else {
        seq![0x2fu8, n as u8]
    }) + Seq::new(4 * n, |k: int| s[k / 4 * 5 + k % 4] as u8)
}

/// An integer constant, in the fewest bytes.
pub open spec fn integer(n: u64) -> Seq<u8> {
    if n <= 1 {
        seq![n as u8]
    } else if n <= 0xff {
        seq![0x0au8, n as u8]
    } else if n <= 0xffff {
        seq![0x0bu8] + bytes::le16(n as u16)
    } else if n <= 0xffff_ffff {
        seq![0x0cu8] + bytes::le32(n as u32)
    } else {
        seq![0x0eu8] + bytes::le64(n)
    }
}

/// Every character fits in seven bits.
pub open spec fn is_ascii(text: Seq<char>) -> bool {
    forall|k: int| 0 <= k < text.len() ==> #[trigger] text[k] < '\u{80}'
}

/// A string constant.
pub open spec fn string(text: Seq<char>) -> Seq<u8> {
    seq![0x0du8] + text.map_values(|c: char| c as u8) + seq![0u8]
}

/// The argument number `n` of the method.
pub open spec fn arg(n: u8) -> Seq<u8> {
    seq![(0x68 + n) as u8]
}

/// The local variable number `n` of the method.
pub open spec fn local(n: u8) -> Seq<u8> {
    seq![(0x60 + n) as u8]
}

/// Gives `value` a name.
pub open spec fn named(name: Seq<char>, value: Seq<u8>) -> Seq<u8> {
    seq![0x08u8] + path(name) + value
}

/// Stores `value` in `target`.
pub open spec fn store(target: Seq<u8>, value: Seq<u8>) -> Seq<u8> {
    seq![0x70u8] + value + target
}

/// Stores `a` plus `b` in `target`.
pub open spec fn sum(target: Seq<u8>, a: Seq<u8>, b: Seq<u8>) -> Seq<u8> {
    seq![0x72u8] + a + b + target
}

/// Whether two values are equal.
pub open spec fn equal(left: Seq<u8>, right: Seq<u8>) -> Seq<u8> {
    seq![0x93u8] + left + right
}

/// Whether the first value is less than the second.
pub open spec fn less_than(left: Seq<u8>, right: Seq<u8>) -> Seq<u8> {
    seq![0x95u8] + left + right
}

/// Tells the operating system that `value` happened to `object`.
pub open spec fn notify(object: Seq<u8>, value: Seq<u8>) -> Seq<u8> {
    seq![0x86u8] + object + value
}

/// Leaves the method with `value`.
pub open spec fn returns_value(value: Seq<u8>) -> Seq<u8> {
    seq![0xa4u8] + value
}

/// Calls a method.
pub open spec fn call(name: Seq<char>, args: Seq<u8>) -> Seq<u8> {
    path(name) + args
}

/// A mutex.
pub open spec fn mutex(name: Seq<char>, sync_level: u8) -> Seq<u8> {
    seq![0x5bu8, 0x01] + path(name) + seq![sync_level]
}

/// Takes a mutex, waiting for at most `timeout` milliseconds.
pub open spec fn acquire(name: Seq<char>, timeout: u16) -> Seq<u8> {
    seq![0x5bu8, 0x23] + path(name) + bytes::le16(timeout)
}

/// Gives a mutex back.
pub open spec fn release(name: Seq<char>) -> Seq<u8> {
    seq![0x5bu8, 0x27] + path(name)
}

/// The length that goes before `n` bytes of content. It counts itself. One byte holds six bits;
/// longer forms hold the low four bits in the first byte, whose top bits say how many bytes
/// follow.
pub open spec fn pkg_length(n: nat) -> Seq<u8> {
    if n + 1 < 0x40 {
        seq![(n + 1) as u8]
    } else if n + 2 < 0x1000 {
        seq![(0x40 + (n + 2) % 0x10) as u8, ((n + 2) / 0x10) as u8]
    } else if n + 3 < 0x10_0000 {
        seq![
            (0x80 + (n + 3) % 0x10) as u8,
            ((n + 3) / 0x10 % 0x100) as u8,
            ((n + 3) / 0x1000) as u8,
        ]
    } else {
        seq![
            (0xc0 + (n + 4) % 0x10) as u8,
            ((n + 4) / 0x10 % 0x100) as u8,
            ((n + 4) / 0x1000 % 0x100) as u8,
            ((n + 4) / 0x10_0000) as u8,
        ]
    }
}

/// Content with its length before it.
pub open spec fn package(content: Seq<u8>) -> Seq<u8> {
    pkg_length(content.len()) + content
}

/// Runs `body` if the predicate holds.
pub open spec fn if_then(predicate: Seq<u8>, body: Seq<u8>) -> Seq<u8> {
    seq![0xa0u8] + package(predicate + body)
}

/// Runs `body` as long as the predicate holds.
pub open spec fn while_loop(predicate: Seq<u8>, body: Seq<u8>) -> Seq<u8> {
    seq![0xa2u8] + package(predicate + body)
}

/// A method with a number of arguments; a serialized one runs once at a time.
pub open spec fn method(name: Seq<char>, args: u8, serialized: bool, body: Seq<u8>) -> Seq<u8> {
    let flags = args % 8 + (if serialized {
        8int
    } else {
        0
    });
    seq![0x14u8] + package(path(name) + seq![flags as u8] + body)
}

/// A device and the objects in it.
pub open spec fn device(name: Seq<char>, body: Seq<u8>) -> Seq<u8> {
    seq![0x5bu8, 0x82] + package(path(name) + body)
}

/// A buffer that holds `data`.
pub open spec fn buffer(data: Seq<u8>) -> Seq<u8> {
    seq![0x11u8] + package(integer(data.len() as u64) + data)
}

/// The resources of a device: a buffer of descriptors with an end tag.
pub open spec fn resource_template(descriptors: Seq<u8>) -> Seq<u8> {
    buffer(descriptors + seq![0x79u8, 0])
}

/// Value of an upper-case hexadecimal digit.
pub open spec fn hex_value(c: char) -> int {
    if '0' <= c <= '9' {
        c as int - '0' as int
    } else {
        c as int - 'A' as int + 10
    }
}

/// An upper-case hexadecimal digit.
pub open spec fn is_hex_digit(c: char) -> bool {
    '0' <= c <= '9' || 'A' <= c <= 'F'
}

/// An EISA identifier: three upper-case letters and four hexadecimal digits that are not all
/// zero.
pub open spec fn is_eisa_id(id: Seq<char>) -> bool {
    &&& id.len() == 7
    &&& 'A' <= id[0] <= 'Z' && 'A' <= id[1] <= 'Z' && 'A' <= id[2] <= 'Z'
    &&& is_hex_digit(id[3]) && is_hex_digit(id[4]) && is_hex_digit(id[5]) && is_hex_digit(id[6])
    &&& !(id[3] == '0' && id[4] == '0' && id[5] == '0' && id[6] == '0')
}

/// The integer constant of an EISA identifier: five bits per letter and four per digit, most
/// significant byte first.
pub open spec fn eisa_id(id: Seq<char>) -> Seq<u8> {
    let (a, b, c) = (id[0] as int - 0x40, id[1] as int - 0x40, id[2] as int - 0x40);
    seq![
        0x0cu8,
        (a * 4 + b / 8) as u8,
        (b % 8 * 0x20 + c) as u8,
        (hex_value(id[3]) * 0x10 + hex_value(id[4])) as u8,
        (hex_value(id[5]) * 0x10 + hex_value(id[6])) as u8,
    ]
}

/// Descriptor of an uncached range of memory addresses, both ends included.
pub open spec fn memory_range(read_write: bool, min: u64, max: u64) -> Seq<u8> {
    seq![
        0x8au8,
        0x2b,
        0,
        0,
        0x0c,
        if read_write {
            1u8
        } else {
            0u8
        },
    ] + bytes::le64(0) + bytes::le64(min) + bytes::le64(max) + bytes::le64(0) + bytes::le64(
        (max - min + 1) as u64,
    )
}

/// Descriptor of an interrupt line.
pub open spec fn interrupt(
    consumer: bool,
    edge_triggered: bool,
    active_low: bool,
    shared: bool,
    number: u32,
) -> Seq<u8> {
    let flags = (if consumer {
        1int
    } else {
        0
    }) + (if edge_triggered {
        2int
    } else {
        0
    }) + (if active_low {
        4int
    } else {
        0
    }) + (if shared {
        8int
    } else {
        0
    });
    seq![0x89u8, 6, 0, flags as u8, 1] + bytes::le32(number)
}

/// A window of `length` bytes of system memory.
pub open spec fn memory_region(name: Seq<char>, offset: u64, length: u64) -> Seq<u8> {
    seq![0x5bu8, 0x80] + path(name) + seq![0u8] + integer(offset) + integer(length)
}

/// How wide the accesses to a field are.
#[derive(Clone, Copy, Debug, PartialEq, Eq, Structural)]
pub enum FieldAccess {
    Byte,
    DWord,
}

/// What a write to a field does to the bits around it.
#[derive(Clone, Copy, Debug, PartialEq, Eq, Structural)]
pub enum FieldUpdate {
    Preserve,
    WriteAsZeroes,
}

/// A run of bits in a field: named, or skipped.
#[derive(Clone, Copy, Debug)]
pub enum FieldEntry {
    Named(&'static str, usize),
    Reserved(usize),
}

/// An entry that a field can hold: a name of one segment, and a length that takes one byte.
pub open spec fn is_field_entry(entry: FieldEntry) -> bool {
    match entry {
        FieldEntry::Named(name, bits) => name@.len() == 4 && is_ascii(name@) && bits < 63,
        FieldEntry::Reserved(bits) => bits < 63,
    }
}

/// The bytes of an entry.
pub open spec fn field_entry(entry: FieldEntry) -> Seq<u8> {
    match entry {
        FieldEntry::Named(name, bits) => name@.map_values(|c: char| c as u8) + seq![bits as u8],
        FieldEntry::Reserved(bits) => seq![0u8, bits as u8],
    }
}

/// The bytes of entries, one after the other.
pub open spec fn field_entries(entries: Seq<FieldEntry>) -> Seq<u8>
    decreases entries.len(),
{
    if entries.len() == 0 {
        seq![]
    } else {
        field_entries(entries.drop_last()) + field_entry(entries.last())
    }
}

/// The bits of a region, in order and without a lock.
pub open spec fn field(
    region: Seq<char>,
    access: FieldAccess,
    update: FieldUpdate,
    entries: Seq<FieldEntry>,
) -> Seq<u8> {
    let access_bits: int = match access {
        FieldAccess::Byte => 1,
        FieldAccess::DWord => 3,
    };
    let update_bits: int = match update {
        FieldUpdate::Preserve => 0,
        FieldUpdate::WriteAsZeroes => 0x40,
    };
    seq![0x5bu8, 0x81] + package(
        path(region) + seq![(access_bits + update_bits) as u8] + field_entries(entries),
    )
}

/// A segment alone is a name string.
pub proof fn lemma_one_segment(name: Seq<char>)
    requires
        name.len() == 4,
        name[0] != '\\',
        is_segment(name, 0),
    ensures
        is_path(name),
        path(name).len() == 4,
{
}

/// Two segments are a name string.
pub proof fn lemma_two_segments(name: Seq<char>)
    requires
        name.len() == 9,
        name[0] != '\\',
        is_segment(name, 0),
        name[4] == '.',
        is_segment(name, 5),
    ensures
        is_path(name),
        path(name).len() == 9,
{
}

/// Two segments from the root are a name string.
pub proof fn lemma_two_rooted_segments(name: Seq<char>)
    requires
        name.len() == 10,
        name[0] == '\\',
        is_segment(name, 1),
        name[5] == '.',
        is_segment(name, 6),
    ensures
        is_path(name),
        path(name).len() == 10,
{
}

/// Three segments from the root are a name string.
pub proof fn lemma_three_rooted_segments(name: Seq<char>)
    requires
        name.len() == 15,
        name[0] == '\\',
        is_segment(name, 1),
        name[5] == '.',
        is_segment(name, 6),
        name[10] == '.',
        is_segment(name, 11),
    ensures
        is_path(name),
        path(name).len() == 15,
{
}

} // verus!
