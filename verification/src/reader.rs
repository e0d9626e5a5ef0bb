//! How a guest reads AML tables: from bytes to the objects that they describe.
//!
//! The functions here go by the bytes alone. Each takes bytes that start with something and says
//! what it is and how many bytes it takes.

use vstd::prelude::*;

use crate::aml::grammar;
use crate::aml::grammar::{FieldAccess, FieldEntry, FieldUpdate};
use crate::bytes;

verus! {

/// The little-endian number in the two bytes from `at` on.
pub open spec fn number2(b: Seq<u8>, at: int) -> int {
    b[at] + 0x100 * b[at + 1]
}

/// The little-endian number in the four bytes from `at` on.
pub open spec fn number4(b: Seq<u8>, at: int) -> int {
    number2(b, at) + 0x1_0000 * number2(b, at + 2)
}

/// The little-endian number in the eight bytes from `at` on.
pub open spec fn number8(b: Seq<u8>, at: int) -> int {
    number4(b, at) + 0x1_0000_0000 * number4(b, at + 4)
}

/// How many bytes the integer constant takes.
pub open spec fn integer_size(b: Seq<u8>) -> int {
    if b[0] == 0x0a {
        2
    } else if b[0] == 0x0b {
        3
    } else if b[0] == 0x0c {
        5
    } else if b[0] == 0x0e {
        9
    } else {
        1
    }
}

/// Which number the integer constant is.
pub open spec fn integer_value(b: Seq<u8>) -> int {
    if b[0] == 0x0a {
        b[1] as int
    } else if b[0] == 0x0b {
        number2(b, 1)
    } else if b[0] == 0x0c {
        number4(b, 1)
    } else if b[0] == 0x0e {
        number8(b, 1)
    } else {
        b[0] as int
    }
}

/// How many bytes the root sign of the name takes.
pub open spec fn root_size(b: Seq<u8>) -> int {
    if b[0] == 0x5c {
        1
    } else {
        0
    }
}

/// How many bytes say how many segments the name has.
pub open spec fn count_size(b: Seq<u8>) -> int {
    let c = b[root_size(b)];
    if c == 0x2e {
        1
    } else if c == 0x2f {
        2
    } else {
        0
    }
}

/// How many segments the name has.
pub open spec fn segments(b: Seq<u8>) -> int {
    let c = b[root_size(b)];
    if c == 0x2e {
        2
    } else if c == 0x2f {
        b[root_size(b) + 1] as int
    } else {
        1
    }
}

/// How many bytes the name takes.
pub open spec fn name_size(b: Seq<u8>) -> int {
    root_size(b) + count_size(b) + 4 * segments(b)
}

/// The name as text, with dots between its segments.
pub open spec fn name_text(b: Seq<u8>) -> Seq<char> {
    let root = root_size(b);
    let start = root + count_size(b);
    Seq::new(
        (root + 5 * segments(b) - 1) as nat,
        |k: int|
            if k < root {
                '\\'
            } else if (k - root) % 5 == 4 {
                '.'
            } else {
                b[start + (k - root) / 5 * 4 + (k - root) % 5] as char
            },
    )
}

/// How many bytes of length the package starts with.
pub open spec fn length_size(b: Seq<u8>) -> int {
    1 + b[0] / 0x40
}

/// How many bytes the package takes, its length included.
pub open spec fn package_size(b: Seq<u8>) -> int {
    if b[0] < 0x40 {
        b[0] as int
    } else if b[0] < 0x80 {
        b[0] % 0x10 + 0x10 * b[1]
    } else if b[0] < 0xc0 {
        b[0] % 0x10 + 0x10 * b[1] + 0x1000 * b[2]
    } else {
        b[0] % 0x10 + 0x10 * b[1] + 0x1000 * b[2] + 0x10_0000 * b[3]
    }
}

/// What is in the package.
pub open spec fn package_content(b: Seq<u8>) -> Seq<u8> {
    b.subrange(length_size(b), package_size(b))
}

/// How many bytes come before a zero.
pub open spec fn text_size(b: Seq<u8>) -> int
    decreases b.len(),
{
    if b.len() == 0 || b[0] == 0 {
        0
    } else {
        1 + text_size(b.skip(1))
    }
}

/// A constant.
#[verifier::ext_equal]
pub enum Data {
    Integer(int),
    Text(Seq<char>),
    Buffer(Seq<u8>),
}

/// The constant, and how many bytes it takes.
pub open spec fn read_data(b: Seq<u8>) -> (Data, int) {
    if b[0] == 0x0d {
        let n = text_size(b.skip(1));
        (Data::Text(Seq::new(n as nat, |k: int| b[1 + k] as char)), n + 2)
    } else if b[0] == 0x11 {
        let content = package_content(b.skip(1));
        let n = integer_size(content);
        (Data::Buffer(content.subrange(n, n + integer_value(content))), 1 + package_size(b.skip(1)))
    } else {
        (Data::Integer(integer_value(b)), integer_size(b))
    }
}

/// Named bits of a region.
#[verifier::ext_equal]
pub struct Bits {
    pub name: Seq<char>,
    /// The bit of the region at which they start.
    pub start: int,
    pub count: int,
}

/// The named bits in a list of entries, the first of which starts at bit `start`.
#[verifier::opaque]
pub open spec fn read_bits(b: Seq<u8>, start: int) -> Seq<Bits>
    decreases b.len(),
{
    if b.len() == 0 {
        seq![]
    } else if b[0] == 0 && b.len() >= 2 {
        read_bits(b.skip(2), start + b[1])
    } else if b.len() >= 5 {
        seq![Bits { name: Seq::new(4, |k: int| b[k] as char), start, count: b[4] as int }]
            + read_bits(b.skip(5), start + b[4])
    } else {
        seq![]
    }
}

/// An object of the namespace.
#[verifier::ext_equal]
pub enum Object {
    Named { name: Seq<char>, value: Data },
    Mutex { name: Seq<char>, level: int },
    Region { name: Seq<char>, space: int, base: int, length: int },
    Fields { region: Seq<char>, flags: int, bits: Seq<Bits> },
    Method { name: Seq<char>, flags: int, body: Seq<u8> },
    Device { name: Seq<char>, body: Seq<u8> },
    Unknown,
}

/// The object, and how many bytes it takes.
#[verifier::opaque]
pub open spec fn read_object(b: Seq<u8>) -> (Object, int) {
    if b[0] == 0x08 {
        let n = name_size(b.skip(1));
        let (value, size) = read_data(b.skip(1 + n));
        (Object::Named { name: name_text(b.skip(1)), value }, 1 + n + size)
    } else if b[0] == 0x14 {
        let content = package_content(b.skip(1));
        let n = name_size(content);
        (
            Object::Method {
                name: name_text(content),
                flags: content[n] as int,
                body: content.skip(n + 1),
            },
            1 + package_size(b.skip(1)),
        )
    } else if b[0] == 0x5b && b[1] == 0x01 {
        let n = name_size(b.skip(2));
        (Object::Mutex { name: name_text(b.skip(2)), level: b[2 + n] as int }, 3 + n)
    } else if b[0] == 0x5b && b[1] == 0x80 {
        let n = name_size(b.skip(2));
        let base = b.skip(3 + n);
        let length = base.skip(integer_size(base));
        (
            Object::Region {
                name: name_text(b.skip(2)),
                space: b[2 + n] as int,
                base: integer_value(base),
                length: integer_value(length),
            },
            3 + n + integer_size(base) + integer_size(length),
        )
    } else if b[0] == 0x5b && b[1] == 0x81 {
        let content = package_content(b.skip(2));
        let n = name_size(content);
        (
            Object::Fields {
                region: name_text(content),
                flags: content[n] as int,
                bits: read_bits(content.skip(n + 1), 0),
            },
            2 + package_size(b.skip(2)),
        )
    } else if b[0] == 0x5b && b[1] == 0x82 {
        let content = package_content(b.skip(2));
        let n = name_size(content);
        (
            Object::Device { name: name_text(content), body: content.skip(n) },
            2 + package_size(b.skip(2)),
        )
    } else {
        (Object::Unknown, 1)
    }
}

/// All objects, one after the other.
#[verifier::opaque]
pub open spec fn read_objects(b: Seq<u8>) -> Seq<Object>
    decreases b.len(),
{
    if b.len() == 0 {
        seq![]
    } else {
        let (object, size) = read_object(b);
        if 0 < size <= b.len() {
            seq![object] + read_objects(b.skip(size))
        } else {
            seq![Object::Unknown]
        }
    }
}

/// Little-endian bytes are read as the number that they were made of.
pub proof fn lemma_numbers(b: Seq<u8>, at: int, x: u64)
    requires
        0 <= at,
    ensures
        x <= 0xffff && at + 2 <= b.len() && b.subrange(at, at + 2) == bytes::le16(x as u16)
            ==> number2(b, at) == x,
        x <= 0xffff_ffff && at + 4 <= b.len() && b.subrange(at, at + 4) == bytes::le32(x as u32)
            ==> number4(b, at) == x,
        at + 8 <= b.len() && b.subrange(at, at + 8) == bytes::le64(x) ==> number8(b, at) == x,
{
    let low = (x % 0x1_0000_0000) as u32;
    let high = (x / 0x1_0000_0000) as u32;
    if x <= 0xffff && at + 2 <= b.len() && b.subrange(at, at + 2) == bytes::le16(x as u16) {
        assert(b.subrange(at, at + 2)[0] == b[at] && b.subrange(at, at + 2)[1] == b[at + 1]);
    }
    if x <= 0xffff_ffff && at + 4 <= b.len() && b.subrange(at, at + 4) == bytes::le32(x as u32) {
        lemma_number4(b, at, x as u32);
    }
    if at + 8 <= b.len() && b.subrange(at, at + 8) == bytes::le64(x) {
        let eight = b.subrange(at, at + 8);
        assert(bytes::le64(x).subrange(0, 4) =~= bytes::le32(low));
        assert(bytes::le64(x).subrange(4, 8) =~= bytes::le32(high));
        assert(b.subrange(at, at + 4) =~= eight.subrange(0, 4));
        assert(b.subrange(at + 4, at + 8) =~= eight.subrange(4, 8));
        lemma_number4(b, at, low);
        lemma_number4(b, at + 4, high);
    }
}

/// Four little-endian bytes are read as the number that they were made of.
proof fn lemma_number4(b: Seq<u8>, at: int, x: u32)
    requires
        0 <= at,
        at + 4 <= b.len(),
        b.subrange(at, at + 4) == bytes::le32(x),
    ensures
        number4(b, at) == x,
{
    let four = b.subrange(at, at + 4);
    assert(four[0] == b[at] && four[1] == b[at + 1] && four[2] == b[at + 2] && four[3] == b[at
        + 3]);
    assert(x / 0x1_0000 % 0x100 + 0x100 * (x / 0x100_0000) == x / 0x1_0000);
    assert(x % 0x100 + 0x100 * (x / 0x100 % 0x100) == x % 0x1_0000);
}

/// An integer constant is read as its number.
pub proof fn integers_read_back(n: u64, rest: Seq<u8>)
    ensures
        integer_value(grammar::integer(n) + rest) == n,
        integer_size(grammar::integer(n) + rest) == grammar::integer(n).len(),
{
    let b = grammar::integer(n) + rest;
    lemma_numbers(b, 1, n);
    if n > 0xff {
        if n <= 0xffff {
            assert(b.subrange(1, 3) =~= bytes::le16(n as u16));
        } else if n <= 0xffff_ffff {
            assert(b.subrange(1, 5) =~= bytes::le32(n as u32));
        } else {
            assert(b.subrange(1, 9) =~= bytes::le64(n));
        }
    }
}

/// A name that reads back: its first character is no sign of its own.
pub open spec fn is_plain(name: Seq<char>) -> bool {
    grammar::is_path(name) && grammar::unrooted(name)[0] != '/'
        && grammar::unrooted(name)[0] != '\\'
}

/// A character of seven bits keeps its number as a byte.
pub proof fn lemma_one_byte(c: char)
    requires
        c < '\u{80}',
    ensures
        c as u8 == c as int,
        (c as u8) as char == c,
{
}

/// A name is read as its text.
pub proof fn names_read_back(name: Seq<char>, rest: Seq<u8>)
    requires
        is_plain(name),
    ensures
        name_text(grammar::path(name) + rest) == name,
        name_size(grammar::path(name) + rest) == grammar::path(name).len(),
{
    let b = grammar::path(name) + rest;
    let s = grammar::unrooted(name);
    let n = grammar::segment_count(name) as int;
    let root: int = if grammar::is_rooted(name) {
        1
    } else {
        0
    };
    let count: int = if n == 1 {
        0
    } else if n == 2 {
        1
    } else {
        2
    };
    assert(s.len() == 5 * n - 1);
    assert(grammar::is_name_char(s[0]));
    lemma_one_byte(s[0]);
    assert forall|k: int| 0 <= k < 4 * n implies #[trigger] b[root + count + k] == s[k / 4 * 5 + k
        % 4] as u8 by {}
    assert(b[root] == if n == 1 {
        s[0] as u8
    } else if n == 2 {
        0x2eu8
    } else {
        0x2fu8
    }) by {
        if n == 1 {
            assert(b[root + count + 0] == s[0] as u8);
        }
    }
    if grammar::is_rooted(name) {
        assert(b[0] == 0x5c);
    } else if n == 1 {
        assert(b[0] == s[0] as u8);
    } else {
        assert(b[0] != 0x5c);
    }
    assert(root_size(b) == root);
    if n > 2 {
        assert(b[root + 1] == n as u8);
    }
    assert(count_size(b) == count && segments(b) == n);
    assert forall|k: int| 0 <= k < name.len() implies #[trigger] name_text(b)[k] == name[k] by {
        if k >= root {
            let j = k - root;
            assert(name[k] == s[j]);
            if j % 5 != 4 {
                let m = j / 5 * 4 + j % 5;
                assert(m / 4 == j / 5 && m % 4 == j % 5);
                assert(b[root + count + m] == s[j] as u8);
                assert(grammar::is_name_char(s[j]));
                lemma_one_byte(s[j]);
            } else {
                assert(s[j] == '.');
            }
        }
    }
    assert(name_text(b) =~= name);
}

/// A package is read as its content.
pub proof fn packages_read_back(content: Seq<u8>, rest: Seq<u8>)
    requires
        content.len() + 4 < 0x1000_0000,
    ensures
        package_content(grammar::package(content) + rest) == content,
        package_size(grammar::package(content) + rest) == grammar::package(content).len(),
{
    let n = content.len() as int;
    let length = grammar::pkg_length(content.len());
    let b = grammar::package(content) + rest;
    if n + 1 < 0x40 {
        assert(length[0] == n + 1);
        assert(b[0] == length[0]);
    } else if n + 2 < 0x1000 {
        assert(length[0] == 0x40 + (n + 2) % 0x10 && length[1] == (n + 2) / 0x10);
        assert(b[0] == length[0] && b[1] == length[1]);
    } else if n + 3 < 0x10_0000 {
        lemma_length_digits(n + 3);
        assert(length[0] == 0x80 + (n + 3) % 0x10 && length[1] == (n + 3) / 0x10 % 0x100
            && length[2] == (n + 3) / 0x1000);
        assert(b[0] == length[0] && b[1] == length[1] && b[2] == length[2]);
    } else {
        lemma_length_digits(n + 4);
        assert(length[0] == 0xc0 + (n + 4) % 0x10 && length[1] == (n + 4) / 0x10 % 0x100
            && length[2] == (n + 4) / 0x1000 % 0x100 && length[3] == (n + 4) / 0x10_0000);
        assert(b[0] == length[0] && b[1] == length[1] && b[2] == length[2] && b[3] == length[3]);
    }
    assert(length_size(b) == length.len());
    assert(package_size(b) == length.len() + n);
    assert(package_content(b) =~= content);
}

/// The digits of a package length make up the length.
proof fn lemma_length_digits(t: int)
    requires
        0 <= t < 0x1000_0000,
    ensures
        t == t % 0x10 + 0x10 * (t / 0x10 % 0x100) + 0x1000 * (t / 0x1000),
        t == t % 0x10 + 0x10 * (t / 0x10 % 0x100) + 0x1000 * (t / 0x1000 % 0x100) + 0x10_0000 * (t
            / 0x10_0000),
        t / 0x10_0000 < 0x100,
{
    let q = t / 0x10;
    assert(t / 0x1000 == q / 0x100);
    assert(t / 0x10_0000 == q / 0x100 / 0x100);
}

/// Text that a string constant can hold: one byte per character, none of them zero.
pub open spec fn is_text(text: Seq<char>) -> bool {
    forall|k: int| 0 <= k < text.len() ==> '\u{0}' < #[trigger] text[k] < '\u{80}'
}

/// The text before the zero is as long as it was.
proof fn lemma_text_size(text: Seq<char>, rest: Seq<u8>)
    requires
        is_text(text),
    ensures
        text_size(text.map_values(|c: char| c as u8) + seq![0u8] + rest) == text.len(),
    decreases text.len(),
{
    let b = text.map_values(|c: char| c as u8) + seq![0u8] + rest;
    if text.len() > 0 {
        let tail = text.skip(1);
        assert(text[0] < '\u{80}');
        lemma_one_byte(text[0]);
        assert forall|k: int| 0 <= k < tail.len() implies '\u{0}' < #[trigger] tail[k]
            < '\u{80}' by {
            assert(tail[k] == text[k + 1]);
        }
        lemma_text_size(tail, rest);
        assert(b.skip(1) =~= tail.map_values(|c: char| c as u8) + seq![0u8] + rest);
    }
}

/// A string constant is read as its text.
proof fn strings_read_back(text: Seq<char>, rest: Seq<u8>)
    requires
        is_text(text),
    ensures
        read_data(grammar::string(text) + rest) == (
            Data::Text(text),
            grammar::string(text).len() as int,
        ),
{
    let b = grammar::string(text) + rest;
    lemma_text_size(text, rest);
    assert(b.skip(1) =~= text.map_values(|c: char| c as u8) + seq![0u8] + rest);
    let read = Seq::new(text.len(), |k: int| b[1 + k] as char);
    assert forall|k: int| 0 <= k < text.len() implies #[trigger] read[k] == text[k] by {
        lemma_one_byte(text[k]);
        assert(b[1 + k] == text[k] as u8);
    }
    assert(read =~= text);
}

/// An integer constant is read as data.
proof fn integer_data_reads_back(n: u64, rest: Seq<u8>)
    ensures
        read_data(grammar::integer(n) + rest) == (
            Data::Integer(n as int),
            grammar::integer(n).len() as int,
        ),
{
    integers_read_back(n, rest);
    assert((grammar::integer(n) + rest)[0] == grammar::integer(n)[0]);
}

/// A buffer is read as what it holds.
proof fn buffers_read_back(data: Seq<u8>, rest: Seq<u8>)
    requires
        data.len() < 0x100_0000,
    ensures
        read_data(grammar::buffer(data) + rest) == (
            Data::Buffer(data),
            grammar::buffer(data).len() as int,
        ),
{
    let content = grammar::integer(data.len() as u64) + data;
    let b = grammar::buffer(data) + rest;
    assert(b.skip(1) =~= grammar::package(content) + rest);
    packages_read_back(content, rest);
    integers_read_back(data.len() as u64, data);
    let n = grammar::integer(data.len() as u64).len() as int;
    assert(content.subrange(n, n + data.len()) =~= data);
}

/// A named constant is read as such.
proof fn named_reads_back(name: Seq<char>, value: Seq<u8>, data: Data, rest: Seq<u8>)
    requires
        is_plain(name),
        read_data(value + rest) == (data, value.len() as int),
    ensures
        read_object(grammar::named(name, value) + rest) == (
            Object::Named { name, value: data },
            grammar::named(name, value).len() as int,
        ),
{
    reveal(read_object);
    let b = grammar::named(name, value) + rest;
    names_read_back(name, value + rest);
    assert(b.skip(1) =~= grammar::path(name) + (value + rest));
    assert(b.skip(1 + grammar::path(name).len() as int) =~= value + rest);
}

/// A mutex is read as such.
proof fn mutexes_read_back(name: Seq<char>, level: u8, rest: Seq<u8>)
    requires
        is_plain(name),
    ensures
        read_object(grammar::mutex(name, level) + rest) == (
            Object::Mutex { name, level: level as int },
            grammar::mutex(name, level).len() as int,
        ),
{
    reveal(read_object);
    let b = grammar::mutex(name, level) + rest;
    names_read_back(name, seq![level] + rest);
    assert(b.skip(2) =~= grammar::path(name) + (seq![level] + rest));
}

/// A region is read by its parts.
proof fn lemma_region(name: Seq<char>, base: Seq<u8>, length: Seq<u8>, rest: Seq<u8>)
    requires
        is_plain(name),
        integer_size(base + (length + rest)) == base.len(),
        integer_size(length + rest) == length.len(),
    ensures
        read_object(seq![0x5bu8, 0x80] + grammar::path(name) + seq![0u8] + base + length + rest)
            == (
            Object::Region {
                name,
                space: 0,
                base: integer_value(base + (length + rest)),
                length: integer_value(length + rest),
            },
            (3 + grammar::path(name).len() + base.len() + length.len()) as int,
        ),
{
    reveal(read_object);
    let b = seq![0x5bu8, 0x80] + grammar::path(name) + seq![0u8] + base + length + rest;
    let n = grammar::path(name).len() as int;
    let after = length + rest;
    let from_base = base + after;
    names_read_back(name, seq![0u8] + from_base);
    assert(b.skip(2) =~= grammar::path(name) + (seq![0u8] + from_base));
    assert(b.skip(3 + n) =~= from_base);
    assert(from_base.skip(base.len() as int) =~= after);
    assert(b[2 + n] == 0);
}

/// A region of system memory is read as where it starts and how long it is.
proof fn regions_read_back(name: Seq<char>, base: u64, length: u64, rest: Seq<u8>)
    requires
        is_plain(name),
    ensures
        read_object(grammar::memory_region(name, base, length) + rest) == (
            Object::Region { name, space: 0, base: base as int, length: length as int },
            grammar::memory_region(name, base, length).len() as int,
        ),
{
    integers_read_back(base, grammar::integer(length) + rest);
    integers_read_back(length, rest);
    lemma_region(name, grammar::integer(base), grammar::integer(length), rest);
}

/// A method is read as its name, its flags and its body.
proof fn methods_read_back(
    name: Seq<char>,
    args: u8,
    serialized: bool,
    body: Seq<u8>,
    rest: Seq<u8>,
)
    requires
        is_plain(name),
        grammar::path(name).len() + body.len() < 0x100_0000,
    ensures
        read_object(grammar::method(name, args, serialized, body) + rest) == (
            Object::Method {
                name,
                flags: args % 8 + if serialized {
                    8int
                } else {
                    0
                },
                body,
            },
            grammar::method(name, args, serialized, body).len() as int,
        ),
{
    reveal(read_object);
    let flags = (args % 8 + if serialized {
        8int
    } else {
        0
    }) as u8;
    let content = grammar::path(name) + seq![flags] + body;
    let b = grammar::method(name, args, serialized, body) + rest;
    assert(b.skip(1) =~= grammar::package(content) + rest);
    packages_read_back(content, rest);
    names_read_back(name, seq![flags] + body);
    assert(content =~= grammar::path(name) + (seq![flags] + body));
    assert(content.skip(grammar::path(name).len() as int + 1) =~= body);
}

/// A device is read as its name and what it holds.
proof fn devices_read_back(name: Seq<char>, body: Seq<u8>, rest: Seq<u8>)
    requires
        is_plain(name),
        grammar::path(name).len() + body.len() < 0x100_0000,
    ensures
        read_object(grammar::device(name, body) + rest) == (
            Object::Device { name, body },
            grammar::device(name, body).len() as int,
        ),
{
    reveal(read_object);
    let content = grammar::path(name) + body;
    let b = grammar::device(name, body) + rest;
    assert(b.skip(2) =~= grammar::package(content) + rest);
    packages_read_back(content, rest);
    names_read_back(name, body);
    assert(content.skip(grammar::path(name).len() as int) =~= body);
}

/// Fields are read as the region they are laid over, how they are accessed, and their bits.
proof fn fields_read_back(
    region: Seq<char>,
    access: FieldAccess,
    update: FieldUpdate,
    entries: Seq<FieldEntry>,
    rest: Seq<u8>,
)
    requires
        is_plain(region),
        grammar::path(region).len() + grammar::field_entries(entries).len() < 0x100_0000,
    ensures
        read_object(grammar::field(region, access, update, entries) + rest) == (
            Object::Fields {
                region,
                flags: (if access is Byte {
                    1int
                } else {
                    3
                }) + (if update is Preserve {
                    0int
                } else {
                    0x40
                }),
                bits: read_bits(grammar::field_entries(entries), 0),
            },
            grammar::field(region, access, update, entries).len() as int,
        ),
{
    reveal(read_object);
    let flags = ((if access is Byte {
        1int
    } else {
        3
    }) + (if update is Preserve {
        0int
    } else {
        0x40
    })) as u8;
    let list = grammar::field_entries(entries);
    let content = grammar::path(region) + seq![flags] + list;
    let b = grammar::field(region, access, update, entries) + rest;
    assert(b.skip(2) =~= grammar::package(content) + rest);
    packages_read_back(content, rest);
    names_read_back(region, seq![flags] + list);
    assert(content =~= grammar::path(region) + (seq![flags] + list));
    assert(content.skip(grammar::path(region).len() as int + 1) =~= list);
}

/// The bytes are read as the object, whatever follows them.
#[verifier::opaque]
pub open spec fn is_object(b: Seq<u8>, object: Object) -> bool {
    b.len() > 0 && forall|rest: Seq<u8>| #[trigger]
        read_object(b + rest) == (object, b.len() as int)
}

/// The bytes are read as the objects, whatever follows them.
#[verifier::opaque]
pub open spec fn are_objects(b: Seq<u8>, objects: Seq<Object>) -> bool {
    forall|rest: Seq<u8>| #[trigger] read_objects(b + rest) == objects + read_objects(rest)
}

/// No bytes are no objects.
pub proof fn no_objects()
    ensures
        are_objects(seq![], seq![]),
{
    reveal(are_objects);
    assert forall|rest: Seq<u8>| #[trigger]
        read_objects(Seq::<u8>::empty() + rest) == Seq::<Object>::empty() + read_objects(
        rest,
    ) by {
        assert(Seq::<u8>::empty() + rest =~= rest);
        assert(Seq::<Object>::empty() + read_objects(rest) =~= read_objects(rest));
    }
}

/// Objects and one more are read in turn.
pub proof fn objects_and_one(b: Seq<u8>, objects: Seq<Object>, last: Seq<u8>, object: Object)
    requires
        are_objects(b, objects),
        is_object(last, object),
    ensures
        are_objects(b + last, objects.push(object)),
{
    reveal(read_objects);
    reveal(are_objects);
    reveal(is_object);
    assert forall|rest: Seq<u8>| #[trigger]
        read_objects(b + last + rest) == objects.push(object) + read_objects(rest) by {
        assert(b + last + rest =~= b + (last + rest));
        assert((last + rest).skip(last.len() as int) =~= rest);
        assert(read_objects(last + rest) == seq![object] + read_objects(rest));
        assert(objects + (seq![object] + read_objects(rest)) =~= objects.push(object)
            + read_objects(rest));
    }
}

/// One object is read as such.
pub proof fn one_object(b: Seq<u8>, object: Object)
    requires
        is_object(b, object),
    ensures
        are_objects(b, seq![object]),
{
    no_objects();
    objects_and_one(seq![], seq![], b, object);
    assert(Seq::<u8>::empty() + b =~= b);
    assert(Seq::<Object>::empty().push(object) =~= seq![object]);
}

/// With nothing behind them, the objects are all there is.
pub proof fn just_these_objects(b: Seq<u8>, objects: Seq<Object>)
    requires
        are_objects(b, objects),
    ensures
        read_objects(b) == objects,
{
    reveal(read_objects);
    reveal(are_objects);
    let none = Seq::<u8>::empty();
    assert(b + none =~= b);
    assert(read_objects(b + none) == objects + read_objects(none));
    assert(objects + read_objects(none) =~= objects);
}

/// A named string.
pub proof fn named_string(name: Seq<char>, text: Seq<char>)
    requires
        is_plain(name),
        is_text(text),
    ensures
        is_object(
            grammar::named(name, grammar::string(text)),
            Object::Named { name, value: Data::Text(text) },
        ),
{
    reveal(is_object);
    let b = grammar::named(name, grammar::string(text));
    let object = Object::Named { name, value: Data::Text(text) };
    assert forall|rest: Seq<u8>| #[trigger]
        read_object(b + rest) == (object, b.len() as int) by {
        strings_read_back(text, rest);
        named_reads_back(name, grammar::string(text), Data::Text(text), rest);
    }
}

/// A named integer.
pub proof fn named_integer(name: Seq<char>, n: u64)
    requires
        is_plain(name),
    ensures
        is_object(
            grammar::named(name, grammar::integer(n)),
            Object::Named { name, value: Data::Integer(n as int) },
        ),
{
    reveal(is_object);
    let b = grammar::named(name, grammar::integer(n));
    let object = Object::Named { name, value: Data::Integer(n as int) };
    assert forall|rest: Seq<u8>| #[trigger]
        read_object(b + rest) == (object, b.len() as int) by {
        integer_data_reads_back(n, rest);
        named_reads_back(name, grammar::integer(n), Data::Integer(n as int), rest);
    }
}

/// A named buffer.
pub proof fn named_buffer(name: Seq<char>, data: Seq<u8>)
    requires
        is_plain(name),
        data.len() < 0x100_0000,
    ensures
        is_object(
            grammar::named(name, grammar::buffer(data)),
            Object::Named { name, value: Data::Buffer(data) },
        ),
{
    reveal(is_object);
    let b = grammar::named(name, grammar::buffer(data));
    let object = Object::Named { name, value: Data::Buffer(data) };
    assert forall|rest: Seq<u8>| #[trigger]
        read_object(b + rest) == (object, b.len() as int) by {
        buffers_read_back(data, rest);
        named_reads_back(name, grammar::buffer(data), Data::Buffer(data), rest);
    }
}

/// A mutex.
pub proof fn mutex(name: Seq<char>, level: u8)
    requires
        is_plain(name),
    ensures
        is_object(grammar::mutex(name, level), Object::Mutex { name, level: level as int }),
{
    reveal(is_object);
    let b = grammar::mutex(name, level);
    assert forall|rest: Seq<u8>| #[trigger]
        read_object(b + rest) == (
        Object::Mutex { name, level: level as int },
        b.len() as int,
    ) by {
        mutexes_read_back(name, level, rest);
    }
}

/// A region of system memory.
pub proof fn region(name: Seq<char>, base: u64, length: u64)
    requires
        is_plain(name),
    ensures
        is_object(
            grammar::memory_region(name, base, length),
            Object::Region { name, space: 0, base: base as int, length: length as int },
        ),
{
    reveal(is_object);
    let b = grammar::memory_region(name, base, length);
    let object = Object::Region { name, space: 0, base: base as int, length: length as int };
    assert forall|rest: Seq<u8>| #[trigger]
        read_object(b + rest) == (object, b.len() as int) by {
        regions_read_back(name, base, length, rest);
    }
    assert(b[0] == 0x5b);
}

/// Fields over a region.
pub proof fn fields(
    name: Seq<char>,
    access: FieldAccess,
    update: FieldUpdate,
    entries: Seq<FieldEntry>,
)
    requires
        is_plain(name),
        grammar::path(name).len() + grammar::field_entries(entries).len() < 0x100_0000,
    ensures
        is_object(
            grammar::field(name, access, update, entries),
            Object::Fields {
                region: name,
                flags: (if access is Byte {
                    1int
                } else {
                    3
                }) + (if update is Preserve {
                    0int
                } else {
                    0x40
                }),
                bits: read_bits(grammar::field_entries(entries), 0),
            },
        ),
{
    reveal(is_object);
    let b = grammar::field(name, access, update, entries);
    let object = Object::Fields {
        region: name,
        flags: (if access is Byte {
            1int
        } else {
            3
        }) + (if update is Preserve {
            0int
        } else {
            0x40
        }),
        bits: read_bits(grammar::field_entries(entries), 0),
    };
    assert forall|rest: Seq<u8>| #[trigger]
        read_object(b + rest) == (object, b.len() as int) by {
        fields_read_back(name, access, update, entries, rest);
    }
}

/// A method.
pub proof fn method(name: Seq<char>, args: u8, serialized: bool, body: Seq<u8>)
    requires
        is_plain(name),
        grammar::path(name).len() + body.len() < 0x100_0000,
    ensures
        is_object(
            grammar::method(name, args, serialized, body),
            Object::Method {
                name,
                flags: args % 8 + if serialized {
                    8int
                } else {
                    0
                },
                body,
            },
        ),
{
    reveal(is_object);
    let b = grammar::method(name, args, serialized, body);
    let object = Object::Method {
        name,
        flags: args % 8 + if serialized {
            8int
        } else {
            0
        },
        body,
    };
    assert forall|rest: Seq<u8>| #[trigger]
        read_object(b + rest) == (object, b.len() as int) by {
        methods_read_back(name, args, serialized, body, rest);
    }
}

/// A device.
pub proof fn device(name: Seq<char>, body: Seq<u8>)
    requires
        is_plain(name),
        grammar::path(name).len() + body.len() < 0x100_0000,
    ensures
        is_object(grammar::device(name, body), Object::Device { name, body }),
{
    reveal(is_object);
    let b = grammar::device(name, body);
    assert forall|rest: Seq<u8>| #[trigger]
        read_object(b + rest) == (Object::Device { name, body }, b.len() as int) by {
        devices_read_back(name, body, rest);
    }
}

/// What a method does to the outside.
#[verifier::ext_equal]
pub enum Effect {
    /// It notifies the object of the value.
    Notify { object: Seq<char>, value: int },
    /// It calls the method.
    Call { method: Seq<char> },
}

/// The value of an argument or of an integer constant, and how many bytes it takes.
pub open spec fn read_value(b: Seq<u8>, args: (int, int)) -> (int, int) {
    if b[0] == 0x68 {
        (args.0, 1)
    } else if b[0] == 0x69 {
        (args.1, 1)
    } else {
        (integer_value(b), integer_size(b))
    }
}

/// What a method does that consists of branches, each of which notifies if two values are equal,
/// and of calls without arguments.
#[verifier::opaque]
pub open spec fn effects(b: Seq<u8>, args: (int, int)) -> Seq<Effect>
    decreases b.len(),
{
    if b.len() == 0 {
        seq![]
    } else if b[0] == 0xa0 {
        let content = package_content(b.skip(1));
        let size = 1 + package_size(b.skip(1));
        let (left, left_size) = read_value(content.skip(1), args);
        let (right, right_size) = read_value(content.skip(1 + left_size), args);
        let body = content.skip(1 + left_size + right_size);
        let notification = Effect::Notify {
            object: name_text(body.skip(1)),
            value: read_value(body.skip(1 + name_size(body.skip(1))), args).0,
        };
        let made = if content[0] == 0x93 && left == right && body[0] == 0x86 {
            seq![notification]
        } else {
            seq![]
        };
        if 0 < size <= b.len() {
            made + effects(b.skip(size), args)
        } else {
            made
        }
    } else {
        let size = name_size(b);
        let made = seq![Effect::Call { method: name_text(b) }];
        if 0 < size <= b.len() {
            made + effects(b.skip(size), args)
        } else {
            made
        }
    }
}

/// The bytes have the effects, and then those of what follows.
#[verifier::opaque]
pub open spec fn has_effects(b: Seq<u8>, args: (int, int), made: Seq<Effect>) -> bool {
    forall|rest: Seq<u8>| #[trigger] effects(b + rest, args) == made + effects(rest, args)
}

/// No bytes have no effects.
pub proof fn no_effects(args: (int, int))
    ensures
        has_effects(seq![], args, seq![]),
{
    reveal(has_effects);
    assert forall|rest: Seq<u8>| #[trigger]
        effects(Seq::<u8>::empty() + rest, args) == Seq::<Effect>::empty() + effects(
        rest,
        args,
    ) by {
        assert(Seq::<u8>::empty() + rest =~= rest);
        assert(Seq::<Effect>::empty() + effects(rest, args) =~= effects(rest, args));
    }
}

/// One part of a method and then another have the effects of both.
pub proof fn effects_of_both(
    a: Seq<u8>,
    b: Seq<u8>,
    args: (int, int),
    first: Seq<Effect>,
    second: Seq<Effect>,
)
    requires
        has_effects(a, args, first),
        has_effects(b, args, second),
    ensures
        has_effects(a + b, args, first + second),
{
    reveal(has_effects);
    assert forall|rest: Seq<u8>| #[trigger]
        effects(a + b + rest, args) == first + second + effects(rest, args) by {
        assert(a + b + rest =~= a + (b + rest));
        assert(first + (second + effects(rest, args)) =~= first + second + effects(rest, args));
    }
}

/// With nothing behind it, the effects are all there is.
pub proof fn just_these_effects(b: Seq<u8>, args: (int, int), made: Seq<Effect>)
    requires
        has_effects(b, args, made),
    ensures
        effects(b, args) == made,
{
    reveal(has_effects);
    reveal(effects);
    let none = Seq::<u8>::empty();
    assert(b + none =~= b);
    assert(effects(b + none, args) == made + effects(none, args));
    assert(made + effects(none, args) =~= made);
}

/// A call has the effect of a call.
pub proof fn effect_of_call(name: Seq<char>, args: (int, int))
    requires
        is_plain(name),
        grammar::is_rooted(name),
    ensures
        has_effects(
            grammar::call(name, seq![]),
            args,
            seq![Effect::Call { method: name }],
        ),
{
    reveal(has_effects);
    let b = grammar::call(name, seq![]);
    assert(b =~= grammar::path(name));
    assert forall|rest: Seq<u8>| #[trigger]
        effects(b + rest, args) == seq![Effect::Call { method: name }] + effects(rest, args) by {
        reveal(effects);
        names_read_back(name, rest);
        assert((b + rest)[0] == 0x5c);
        assert((b + rest).skip(b.len() as int) =~= rest);
    }
}

/// A branch that compares the first argument with a number, and notifies an object of a value.
pub proof fn effect_of_branch(
    n: u64,
    name: Seq<char>,
    value: Seq<u8>,
    args: (int, int),
    meant: int,
)
    requires
        is_plain(name),
        grammar::path(name).len() + value.len() < 0x1000,
        value.len() > 0,
        read_value(value, args).0 == meant,
    ensures
        has_effects(
            grammar::if_then(
                grammar::equal(grammar::arg(0), grammar::integer(n)),
                grammar::notify(grammar::path(name), value),
            ),
            args,
            if args.0 == n {
                seq![Effect::Notify { object: name, value: meant }]
            } else {
                seq![]
            },
        ),
{
    let notice = seq![0x86u8] + grammar::path(name) + value;
    integers_read_back(n, notice);
    lemma_integer_start(n, notice);
    names_read_back(name, value);
    lemma_branch(grammar::integer(n), grammar::path(name), value, args);
    let branch = grammar::if_then(
        grammar::equal(grammar::arg(0), grammar::integer(n)),
        grammar::notify(grammar::path(name), value),
    );
    assert(branch == seq![0xa0u8] + grammar::package(
        seq![0x93u8] + seq![0x68u8] + grammar::integer(n) + notice,
    ));
}

/// A branch, by its parts.
proof fn lemma_branch(number: Seq<u8>, object: Seq<u8>, value: Seq<u8>, args: (int, int))
    requires
        ({
            let compared = number + (seq![0x86u8] + object + value);
            &&& integer_size(compared) == number.len()
            &&& compared[0] != 0x68
            &&& compared[0] != 0x69
        }),
        name_size(object + value) == object.len(),
        number.len() + object.len() + value.len() < 0x2000,
    ensures
        ({
            let notice = seq![0x86u8] + object + value;
            has_effects(
                seq![0xa0u8] + grammar::package(seq![0x93u8] + seq![0x68u8] + number + notice),
                args,
                if args.0 == integer_value(number + notice) {
                    seq![
                        Effect::Notify {
                            object: name_text(object + value),
                            value: read_value(value, args).0,
                        },
                    ]
                } else {
                    seq![]
                },
            )
        }),
{
    let notice = seq![0x86u8] + object + value;
    let content = seq![0x93u8] + seq![0x68u8] + number + notice;
    let b = seq![0xa0u8] + grammar::package(content);
    let made = if args.0 == integer_value(number + notice) {
        seq![
            Effect::Notify {
                object: name_text(object + value),
                value: read_value(value, args).0,
            },
        ]
    } else {
        seq![]
    };
    assert(content.skip(1)[0] == 0x68);
    assert(content.skip(2) =~= number + notice);
    assert(content.skip(2 + number.len() as int) =~= notice);
    assert(notice.skip(1) =~= object + value);
    assert(notice.skip(1 + object.len() as int) =~= value);
    assert(content[0] == 0x93 && notice[0] == 0x86);
    reveal(has_effects);
    assert forall|rest: Seq<u8>| #[trigger]
        effects(b + rest, args) == made + effects(rest, args) by {
        reveal(effects);
        packages_read_back(content, rest);
        assert((b + rest).skip(1) =~= grammar::package(content) + rest);
        assert((b + rest).skip(b.len() as int) =~= rest);
        assert((b + rest)[0] == 0xa0);
    }
}

/// An integer constant does not start as an argument does.
proof fn lemma_integer_start(n: u64, rest: Seq<u8>)
    ensures
        (grammar::integer(n) + rest)[0] != 0x68,
        (grammar::integer(n) + rest)[0] != 0x69,
        grammar::integer(n).len() <= 9,
{
}

} // verus!
