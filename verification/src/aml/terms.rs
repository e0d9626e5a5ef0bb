//! AML objects made of parts that are bytes.

use vstd::prelude::*;

use crate::aml::grammar;
use crate::aml::objects;
use crate::aml::objects::MAX_CONTENT;

verus! {

/// `first` and then `second`.
pub(crate) fn join(first: Vec<u8>, second: Vec<u8>) -> (r: Vec<u8>)
    ensures
        r@ == first@ + second@,
{
    let mut joined = first;
    let mut rest = second;
    joined.append(&mut rest);
    joined
}

/// `object`, which ends in as many placeholders as `content` has bytes, with `content` in their
/// place.
fn fill(object: Vec<u8>, content: Vec<u8>) -> (r: Vec<u8>)
    requires
        content@.len() <= object@.len(),
    ensures
        r@ == object@.take(object@.len() - content@.len()) + content@,
{
    let mut filled = object;
    let mut content = content;
    let head: usize = filled.len() - content.len();
    filled.truncate(head);
    filled.append(&mut content);
    filled
}

/// Gives `value` a name.
pub(crate) fn named(name: &str, value: Vec<u8>) -> (r: Vec<u8>)
    requires
        grammar::is_path(name@),
    ensures
        r@ == grammar::named(name@, value@),
{
    join(join(vec![0x08], objects::path(name)), value)
}

/// Stores `value` in `target`.
pub(crate) fn store(target: Vec<u8>, value: Vec<u8>) -> (r: Vec<u8>)
    ensures
        r@ == grammar::store(target@, value@),
{
    join(join(vec![0x70], value), target)
}

/// Stores `a` plus `b` in `target`.
pub(crate) fn sum(target: Vec<u8>, a: Vec<u8>, b: Vec<u8>) -> (r: Vec<u8>)
    ensures
        r@ == grammar::sum(target@, a@, b@),
{
    join(join(join(vec![0x72], a), b), target)
}

/// Whether two values are equal.
pub(crate) fn equal(left: Vec<u8>, right: Vec<u8>) -> (r: Vec<u8>)
    ensures
        r@ == grammar::equal(left@, right@),
{
    join(join(vec![0x93], left), right)
}

/// Whether the first value is less than the second.
pub(crate) fn less_than(left: Vec<u8>, right: Vec<u8>) -> (r: Vec<u8>)
    ensures
        r@ == grammar::less_than(left@, right@),
{
    join(join(vec![0x95], left), right)
}

/// Tells the operating system that `value` happened to `object`.
pub(crate) fn notify(object: Vec<u8>, value: Vec<u8>) -> (r: Vec<u8>)
    ensures
        r@ == grammar::notify(object@, value@),
{
    join(join(vec![0x86], object), value)
}

/// Leaves the method with `value`.
pub(crate) fn returns_value(value: Vec<u8>) -> (r: Vec<u8>)
    ensures
        r@ == grammar::returns_value(value@),
{
    join(vec![0xa4], value)
}

/// Calls a method.
pub(crate) fn call(name: &str, args: Vec<u8>) -> (r: Vec<u8>)
    requires
        grammar::is_path(name@),
    ensures
        r@ == grammar::call(name@, args@),
{
    join(objects::path(name), args)
}

/// Runs `body` if the predicate holds.
pub(crate) fn if_then(predicate: Vec<u8>, body: Vec<u8>) -> (r: Vec<u8>)
    requires
        predicate@.len() + body@.len() <= MAX_CONTENT,
    ensures
        r@ == grammar::if_then(predicate@, body@),
{
    let content = join(predicate, body);
    let object = objects::if_object(content.len());
    let filled = fill(object, content);
    assert(filled@ =~= grammar::if_then(predicate@, body@));
    filled
}

/// Runs `body` as long as the predicate holds.
pub(crate) fn while_loop(predicate: Vec<u8>, body: Vec<u8>) -> (r: Vec<u8>)
    requires
        predicate@.len() + body@.len() <= MAX_CONTENT,
    ensures
        r@ == grammar::while_loop(predicate@, body@),
{
    let content = join(predicate, body);
    let object = objects::while_object(content.len());
    let filled = fill(object, content);
    assert(filled@ =~= grammar::while_loop(predicate@, body@));
    filled
}

/// A method with a number of arguments; a serialized one runs once at a time.
pub(crate) fn method(name: &str, args: u8, serialized: bool, body: Vec<u8>) -> (r: Vec<u8>)
    requires
        grammar::is_path(name@),
        body@.len() <= MAX_CONTENT,
    ensures
        r@ == grammar::method(name@, args, serialized, body@),
{
    let object = objects::method_object(name, args, serialized, body.len());
    let filled = fill(object, body);
    assert(filled@ =~= grammar::method(name@, args, serialized, body@));
    filled
}

/// A device and the objects in it.
pub(crate) fn device(name: &str, body: Vec<u8>) -> (r: Vec<u8>)
    requires
        grammar::is_path(name@),
        body@.len() <= MAX_CONTENT,
    ensures
        r@ == grammar::device(name@, body@),
{
    let object = objects::device_object(name, body.len());
    let filled = fill(object, body);
    assert(filled@ =~= grammar::device(name@, body@));
    filled
}

/// The resources of a device.
pub(crate) fn resource_template(descriptors: Vec<u8>) -> (r: Vec<u8>)
    requires
        descriptors@.len() <= MAX_CONTENT,
    ensures
        r@ == grammar::resource_template(descriptors@),
{
    let mut object = objects::resource_object(descriptors.len());
    let end: usize = object.len() - 2;
    let end_tag = object.split_off(end);
    let filled = join(fill(object, descriptors), end_tag);
    assert(filled@ =~= grammar::resource_template(descriptors@));
    filled
}

} // verus!
