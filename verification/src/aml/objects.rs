//! AML objects that the `acpi_tables` crate makes.
//!
//! Its objects hold their parts as trait objects. Where a part is known only as bytes, the object
//! is made around as many placeholder bytes, and [`crate::aml::terms`] puts the part in their
//! place.

use acpi_tables::{aml, Aml};
use vstd::prelude::*;

use crate::aml::grammar;
use crate::aml::grammar::{FieldAccess, FieldEntry, FieldUpdate};

verus! {

/// Longest content of an object that is made here; a package length could express twice that.
pub const MAX_CONTENT: usize = 0x800_0000;

/// `len` bytes that stand for content to come.
pub open spec fn placeholder(len: nat) -> Seq<u8> {
    Seq::new(len, |i: int| ' ' as u8)
}

/// Calls `aml::Path::new`, which takes a name string apart and panics where it is none, and
/// encodes the path: the bytes are those of the name string.
#[verifier::external_body]
pub(crate) fn path(name: &str) -> (r: Vec<u8>)
    requires
        grammar::is_path(name@),
    ensures
        r@ == grammar::path(name@),
{
    let mut bytes: Vec<u8> = Vec::new();
    aml::Path::new(name).to_aml_bytes(&mut bytes);
    bytes
}

/// Calls the encoding of `u8`, an `aml::Byte`: the bytes are those of the integer constant.
#[verifier::external_body]
pub(crate) fn byte(value: u8) -> (r: Vec<u8>)
    ensures
        r@ == grammar::integer(value as u64),
{
    let mut bytes: Vec<u8> = Vec::new();
    value.to_aml_bytes(&mut bytes);
    bytes
}

/// Calls the encoding of `usize`, an `aml::Usize`: the bytes are those of the integer constant.
#[verifier::external_body]
pub(crate) fn size(value: usize) -> (r: Vec<u8>)
    ensures
        r@ == grammar::integer(value as u64),
{
    let mut bytes: Vec<u8> = Vec::new();
    value.to_aml_bytes(&mut bytes);
    bytes
}

/// Calls the encoding of `&'static str`, an `aml::AmlStr`: the bytes are those of the string
/// constant.
#[verifier::external_body]
pub(crate) fn string(text: &'static str) -> (r: Vec<u8>)
    requires
        grammar::is_ascii(text@),
    ensures
        r@ == grammar::string(text@),
{
    let mut bytes: Vec<u8> = Vec::new();
    text.to_aml_bytes(&mut bytes);
    bytes
}

/// Calls `aml::EISAName::new`, which panics on what is no identifier, and encodes it: the bytes
/// are those of the compressed identifier.
#[verifier::external_body]
pub(crate) fn eisa_id(id: &str) -> (r: Vec<u8>)
    requires
        grammar::is_eisa_id(id@),
    ensures
        r@ == grammar::eisa_id(id@),
{
    let mut bytes: Vec<u8> = Vec::new();
    aml::EISAName::new(id).to_aml_bytes(&mut bytes);
    bytes
}

/// Encodes `aml::Arg`, which panics beyond the seventh argument: the byte is that of the
/// argument.
#[verifier::external_body]
pub(crate) fn arg(n: u8) -> (r: Vec<u8>)
    requires
        n <= 6,
    ensures
        r@ == grammar::arg(n),
{
    let mut bytes: Vec<u8> = Vec::new();
    aml::Arg(n).to_aml_bytes(&mut bytes);
    bytes
}

/// Encodes `aml::Local`, which panics beyond the eighth variable: the byte is that of the local
/// variable.
#[verifier::external_body]
pub(crate) fn local(n: u8) -> (r: Vec<u8>)
    requires
        n <= 7,
    ensures
        r@ == grammar::local(n),
{
    let mut bytes: Vec<u8> = Vec::new();
    aml::Local(n).to_aml_bytes(&mut bytes);
    bytes
}

/// Calls `aml::Mutex::new` and encodes it: the bytes are those of a mutex of that name and level.
#[verifier::external_body]
pub(crate) fn mutex(name: &str, sync_level: u8) -> (r: Vec<u8>)
    requires
        grammar::is_path(name@),
    ensures
        r@ == grammar::mutex(name@, sync_level),
{
    let mut bytes: Vec<u8> = Vec::new();
    aml::Mutex::new(aml::Path::new(name), sync_level).to_aml_bytes(&mut bytes);
    bytes
}

/// Calls `aml::Acquire::new` and encodes it: the bytes are those that take the mutex.
#[verifier::external_body]
pub(crate) fn acquire(name: &str, timeout: u16) -> (r: Vec<u8>)
    requires
        grammar::is_path(name@),
    ensures
        r@ == grammar::acquire(name@, timeout),
{
    let mut bytes: Vec<u8> = Vec::new();
    aml::Acquire::new(aml::Path::new(name), timeout).to_aml_bytes(&mut bytes);
    bytes
}

/// Calls `aml::Release::new` and encodes it: the bytes are those that give the mutex back.
#[verifier::external_body]
pub(crate) fn release(name: &str) -> (r: Vec<u8>)
    requires
        grammar::is_path(name@),
    ensures
        r@ == grammar::release(name@),
{
    let mut bytes: Vec<u8> = Vec::new();
    aml::Release::new(aml::Path::new(name)).to_aml_bytes(&mut bytes);
    bytes
}

/// Calls `aml::BufferData::new` and encodes it: the bytes are those of a buffer of `data`.
#[verifier::external_body]
pub(crate) fn buffer(data: Vec<u8>) -> (r: Vec<u8>)
    requires
        data@.len() <= MAX_CONTENT,
    ensures
        r@ == grammar::buffer(data@),
{
    let mut bytes: Vec<u8> = Vec::new();
    aml::BufferData::new(data).to_aml_bytes(&mut bytes);
    bytes
}

/// Calls `aml::AddressSpace::new_memory` for addresses of eight bytes, neither cached nor
/// translated, and encodes it: the bytes are those of the descriptor. Its encoding computes the
/// length of the range, which must not overflow.
#[verifier::external_body]
pub(crate) fn memory_range(read_write: bool, min: u64, max: u64) -> (r: Vec<u8>)
    requires
        min <= max,
        max - min < u64::MAX,
    ensures
        r@ == grammar::memory_range(read_write, min, max),
{
    let cacheable = aml::AddressSpaceCacheable::NotCacheable;
    let mut bytes: Vec<u8> = Vec::new();
    aml::AddressSpace::<u64>::new_memory(cacheable, read_write, min, max, None)
        .to_aml_bytes(&mut bytes);
    bytes
}

/// Calls `aml::Interrupt::new` and encodes it: the bytes are those of the descriptor.
#[verifier::external_body]
pub(crate) fn interrupt(
    consumer: bool,
    edge_triggered: bool,
    active_low: bool,
    shared: bool,
    number: u32,
) -> (r: Vec<u8>)
    ensures
        r@ == grammar::interrupt(consumer, edge_triggered, active_low, shared, number),
{
    let mut bytes: Vec<u8> = Vec::new();
    aml::Interrupt::new(consumer, edge_triggered, active_low, shared, number)
        .to_aml_bytes(&mut bytes);
    bytes
}

/// Calls `aml::OpRegion::new` for system memory and encodes it: the bytes are those of the
/// region.
#[verifier::external_body]
pub(crate) fn memory_region(name: &str, offset: usize, length: usize) -> (r: Vec<u8>)
    requires
        grammar::is_path(name@),
    ensures
        r@ == grammar::memory_region(name@, offset as u64, length as u64),
{
    let space = aml::OpRegionSpace::SystemMemory;
    let mut bytes: Vec<u8> = Vec::new();
    aml::OpRegion::new(aml::Path::new(name), space, &offset, &length).to_aml_bytes(&mut bytes);
    bytes
}

/// Calls `aml::Field::new` without a lock and encodes it: the bytes are those of the field.
#[verifier::external_body]
pub(crate) fn field(
    region: &str,
    access: FieldAccess,
    update: FieldUpdate,
    entries: Vec<FieldEntry>,
) -> (r: Vec<u8>)
    requires
        grammar::is_path(region@),
        entries@.len() <= 0x1000,
        forall|i: int| 0 <= i < entries@.len() ==> grammar::is_field_entry(#[trigger] entries@[i]),
    ensures
        r@ == grammar::field(region@, access, update, entries@),
{
    let access = match access {
        FieldAccess::Byte => aml::FieldAccessType::Byte,
        FieldAccess::DWord => aml::FieldAccessType::DWord,
    };
    let update = match update {
        FieldUpdate::Preserve => aml::FieldUpdateRule::Preserve,
        FieldUpdate::WriteAsZeroes => aml::FieldUpdateRule::WriteAsZeroes,
    };
    let entries = entries.into_iter().map(|entry| match entry {
        FieldEntry::Named(n, bits) => aml::FieldEntry::Named(n.as_bytes().try_into().unwrap(), bits),
        FieldEntry::Reserved(bits) => aml::FieldEntry::Reserved(bits),
    }).collect();
    let (path, lock, mut bytes) = (aml::Path::new(region), aml::FieldLockRule::NoLock, Vec::new());
    aml::Field::new(path, access, lock, update, entries).to_aml_bytes(&mut bytes);
    bytes
}

/// Calls `aml::If::new` around `len` placeholder bytes, made by `aml::Name::new_field_name`, and
/// encodes it: the bytes are those of an `If` whose predicate they are, with an empty body.
#[verifier::external_body]
pub(crate) fn if_object(len: usize) -> (r: Vec<u8>)
    requires
        len <= MAX_CONTENT,
    ensures
        r@ == grammar::if_then(placeholder(len as nat), seq![]),
{
    let content = aml::Name::new_field_name(&" ".repeat(len));
    let mut bytes: Vec<u8> = Vec::new();
    aml::If::new(&content, Vec::new()).to_aml_bytes(&mut bytes);
    bytes
}

/// Calls `aml::While::new` around `len` placeholder bytes, made by `aml::Name::new_field_name`,
/// and encodes it: the bytes are those of a `While` whose predicate they are, with an empty body.
#[verifier::external_body]
pub(crate) fn while_object(len: usize) -> (r: Vec<u8>)
    requires
        len <= MAX_CONTENT,
    ensures
        r@ == grammar::while_loop(placeholder(len as nat), seq![]),
{
    let content = aml::Name::new_field_name(&" ".repeat(len));
    let mut bytes: Vec<u8> = Vec::new();
    aml::While::new(&content, Vec::new()).to_aml_bytes(&mut bytes);
    bytes
}

/// Calls `aml::Method::new` around `len` placeholder bytes, made by `aml::Name::new_field_name`,
/// and encodes it: the bytes are those of a method whose body they are.
#[verifier::external_body]
pub(crate) fn method_object(name: &str, args: u8, serialized: bool, len: usize) -> (r: Vec<u8>)
    requires
        grammar::is_path(name@),
        len <= MAX_CONTENT,
    ensures
        r@ == grammar::method(name@, args, serialized, placeholder(len as nat)),
{
    let content = aml::Name::new_field_name(&" ".repeat(len));
    let mut bytes: Vec<u8> = Vec::new();
    aml::Method::new(aml::Path::new(name), args, serialized, vec![&content])
        .to_aml_bytes(&mut bytes);
    bytes
}

/// Calls `aml::Device::new` around `len` placeholder bytes, made by `aml::Name::new_field_name`,
/// and encodes it: the bytes are those of a device that holds them.
#[verifier::external_body]
pub(crate) fn device_object(name: &str, len: usize) -> (r: Vec<u8>)
    requires
        grammar::is_path(name@),
        len <= MAX_CONTENT,
    ensures
        r@ == grammar::device(name@, placeholder(len as nat)),
{
    let content = aml::Name::new_field_name(&" ".repeat(len));
    let mut bytes: Vec<u8> = Vec::new();
    aml::Device::new(aml::Path::new(name), vec![&content]).to_aml_bytes(&mut bytes);
    bytes
}

/// Calls `aml::ResourceTemplate::new` around `len` placeholder bytes, made by
/// `aml::Name::new_field_name`, and encodes it: the bytes are those of a template whose
/// descriptors they are.
#[verifier::external_body]
pub(crate) fn resource_object(len: usize) -> (r: Vec<u8>)
    requires
        len <= MAX_CONTENT,
    ensures
        r@ == grammar::resource_template(placeholder(len as nat)),
{
    let content = aml::Name::new_field_name(&" ".repeat(len));
    let mut bytes: Vec<u8> = Vec::new();
    aml::ResourceTemplate::new(vec![&content]).to_aml_bytes(&mut bytes);
    bytes
}

} // verus!
