//! What the guest's AML interpreter does when it runs the methods of the vCPUs.
//!
//! A method body is a [`Term`]. It has its bytes, [`encode`], which are those that the tables
//! hold, and its effect, [`run`], on the registers and on whom the guest notifies. The terms are
//! those that the methods `CSTA`, `CTFY`, `CSCN` and `_EJ0` are made of.

use vstd::prelude::*;

use crate::aml::grammar;
use crate::controller::{
    Controller, CPU_EJECT_FLAG, CPU_ENABLE_FLAG, CPU_INSERTING_FLAG, CPU_REMOVING_FLAG,
};
use crate::cpu_aml;
use crate::laws;
use crate::laws::{INSERTION_EVENT, REMOVAL_EVENT};

verus! {

/// A one-bit field of the status register.
pub enum Flag {
    Enabled,
    Inserting,
    Removing,
    Eject,
}

/// A value that is stored.
pub enum Value {
    /// A number.
    Constant(u8),
    /// The method's local variable.
    Local,
    /// The method's first argument.
    Arg,
}

/// A piece of a method.
pub enum Term {
    /// Nothing.
    Nothing,
    /// Takes the controller's mutex.
    Acquire,
    /// Gives the controller's mutex back.
    Release,
    /// Stores in the local variable.
    SetLocal(Value),
    /// Adds one to the local variable.
    Increment,
    /// Stores in the selection register.
    Select(Value),
    /// Stores one in a flag.
    Raise(Flag),
    /// If the flag is one.
    IfSet(Flag, Box<Term>),
    /// If the first argument is the number.
    IfArg(u8, Box<Term>),
    /// As long as the local variable is below the number.
    WhileBelow(u8, Box<Term>),
    /// Calls `CTFY` for the vCPU of the local variable, with an event.
    Announce(u8),
    /// Notifies the device of a vCPU of the second argument.
    Notify(u8),
    /// Leaves the method with the local variable.
    ReturnLocal,
    /// One term and then another.
    Both(Box<Term>, Box<Term>),
}

/// The name of a flag, from the root.
pub open spec fn flag_name(flag: Flag) -> Seq<char> {
    match flag {
        Flag::Enabled => "\\_SB_.PRES.CPEN"@,
        Flag::Inserting => "\\_SB_.PRES.CINS"@,
        Flag::Removing => "\\_SB_.PRES.CRMV"@,
        Flag::Eject => "\\_SB_.PRES.CEJ0"@,
    }
}

/// The status bit behind a flag.
pub open spec fn flag_bit(flag: Flag) -> usize {
    match flag {
        Flag::Enabled => CPU_ENABLE_FLAG,
        Flag::Inserting => CPU_INSERTING_FLAG,
        Flag::Removing => CPU_REMOVING_FLAG,
        Flag::Eject => CPU_EJECT_FLAG,
    }
}

/// The bytes of a value.
pub open spec fn encode_value(value: Value) -> Seq<u8> {
    match value {
        Value::Constant(n) => grammar::integer(n as u64),
        Value::Local => grammar::local(0),
        Value::Arg => grammar::arg(0),
    }
}

/// The bytes of a term.
pub open spec fn encode(term: Term) -> Seq<u8>
    decreases term,
{
    match term {
        Term::Nothing => seq![],
        Term::Acquire => grammar::acquire("\\_SB_.PRES.CPLK"@, 0xffff),
        Term::Release => grammar::release("\\_SB_.PRES.CPLK"@),
        Term::SetLocal(value) => grammar::store(grammar::local(0), encode_value(value)),
        Term::Increment => grammar::sum(grammar::local(0), grammar::local(0), grammar::integer(1)),
        Term::Select(value) => grammar::store(
            grammar::path("\\_SB_.PRES.CSEL"@),
            encode_value(value),
        ),
        Term::Raise(flag) => grammar::store(grammar::path(flag_name(flag)), grammar::integer(1)),
        Term::IfSet(flag, body) => grammar::if_then(
            grammar::equal(grammar::path(flag_name(flag)), grammar::integer(1)),
            encode(*body),
        ),
        Term::IfArg(n, body) => grammar::if_then(
            grammar::equal(grammar::arg(0), grammar::integer(n as u64)),
            encode(*body),
        ),
        Term::WhileBelow(n, body) => grammar::while_loop(
            grammar::less_than(grammar::local(0), grammar::integer(n as u64)),
            encode(*body),
        ),
        Term::Announce(event) => grammar::call(
            "CTFY"@,
            grammar::local(0) + grammar::integer(event as u64),
        ),
        Term::Notify(cpu_id) => grammar::notify(
            grammar::path(cpu_aml::cpu_path(cpu_id)),
            grammar::arg(1),
        ),
        Term::ReturnLocal => grammar::returns_value(grammar::local(0)),
        Term::Both(first, second) => encode(*first) + encode(*second),
    }
}

/// The guest in the middle of a method.
pub struct Guest {
    /// The controller behind the registers.
    pub controller: Controller,
    /// How often the running thread holds the controller's mutex.
    pub held: nat,
    /// Whom the guest has notified, and of what.
    pub notified: Seq<(u32, u8)>,
    /// The method's local variable.
    pub local: u64,
    /// The method's arguments.
    pub args: (u64, u64),
    /// What the method has returned, once it has.
    pub returned: Option<u64>,
}

/// What a value is.
pub open spec fn value_of(value: Value, g: Guest) -> u64 {
    match value {
        Value::Constant(n) => n as u64,
        Value::Local => g.local,
        Value::Arg => g.args.0,
    }
}

/// The flag reads as one. The guest reads the status byte and takes the flag's bit.
pub open spec fn reads_one(c: Controller, flag: Flag) -> bool {
    match flag {
        Flag::Enabled => laws::status(c) % 2 == 1,
        Flag::Inserting => laws::sees_insertion(c),
        Flag::Removing => laws::sees_removal(c),
        Flag::Eject => laws::status(c) / 8 % 2 == 1,
    }
}

/// The branches of `CTFY` for the vCPUs below `n`.
pub open spec fn ctfy_body(n: nat) -> Term
    decreases n,
{
    if n == 0 {
        Term::Nothing
    } else {
        let cpu_id = (n - 1) as u8;
        Term::Both(
            Box::new(ctfy_body((n - 1) as nat)),
            Box::new(Term::IfArg(cpu_id, Box::new(Term::Notify(cpu_id)))),
        )
    }
}

/// What a term does, where the tables describe `max_vcpus` vCPUs. `None` says that it fails, or
/// that it takes more than `fuel` rounds of loops and calls. A store to a flag writes the status
/// byte with that bit alone, because the field writes its other bits as zeroes.
pub open spec fn run(term: Term, g: Guest, max_vcpus: u8, fuel: nat) -> Option<Guest>
    decreases fuel, term,
{
    match term {
        Term::Nothing => Some(g),
        Term::Acquire => Some(Guest { held: g.held + 1, ..g }),
        Term::Release => if g.held == 0 {
            None
        } else {
            Some(Guest { held: (g.held - 1) as nat, ..g })
        },
        Term::SetLocal(value) => Some(Guest { local: value_of(value, g), ..g }),
        Term::Increment => Some(
            Guest { local: ((g.local + 1) % 0x1_0000_0000_0000_0000) as u64, ..g },
        ),
        Term::Select(value) => Some(
            Guest {
                controller: laws::select(
                    g.controller,
                    (value_of(value, g) % 0x1_0000_0000) as u32,
                ),
                ..g
            },
        ),
        Term::Raise(flag) => Some(
            Guest { controller: laws::write_flag(g.controller, flag_bit(flag)), ..g },
        ),
        Term::IfSet(flag, body) => if reads_one(g.controller, flag) {
            run(*body, g, max_vcpus, fuel)
        } else {
            Some(g)
        },
        Term::IfArg(n, body) => if g.args.0 == n {
            run(*body, g, max_vcpus, fuel)
        } else {
            Some(g)
        },
        Term::WhileBelow(n, body) => if g.local >= n {
            Some(g)
        } else if fuel == 0 {
            None
        } else {
            match run(*body, g, max_vcpus, fuel) {
                None => None,
                Some(next) => if next.returned is Some {
                    Some(next)
                } else {
                    run(term, next, max_vcpus, (fuel - 1) as nat)
                },
            }
        },
        Term::Announce(event) => if fuel == 0 {
            None
        } else {
            let callee = Guest { local: 0, args: (g.local, event as u64), returned: None, ..g };
            match run(ctfy_body(max_vcpus as nat), callee, max_vcpus, (fuel - 1) as nat) {
                None => None,
                Some(done) => Some(
                    Guest { local: g.local, args: g.args, returned: g.returned, ..done },
                ),
            }
        },
        Term::Notify(cpu_id) => Some(
            Guest {
                notified: g.notified.push((cpu_id as u32, (g.args.1 % 0x100) as u8)),
                ..g
            },
        ),
        Term::ReturnLocal => Some(Guest { returned: Some(g.local), ..g }),
        Term::Both(first, second) => match run(*first, g, max_vcpus, fuel) {
            None => None,
            Some(next) => if next.returned is Some {
                Some(next)
            } else {
                run(*second, next, max_vcpus, fuel)
            },
        },
    }
}

/// The part of `CSCN` for one kind of event.
pub open spec fn event_body(flag: Flag, event: u8) -> Term {
    Term::IfSet(
        flag,
        Box::new(Term::Both(Box::new(Term::Announce(event)), Box::new(Term::Raise(flag)))),
    )
}

/// The first part of a round of `CSCN`: the vCPU is selected and its insertion passed on.
pub open spec fn insertion_body() -> Term {
    Term::Both(
        Box::new(Term::Select(Value::Local)),
        Box::new(event_body(Flag::Inserting, INSERTION_EVENT)),
    )
}

/// One round of `CSCN`.
pub open spec fn round_body() -> Term {
    Term::Both(
        Box::new(
            Term::Both(
                Box::new(insertion_body()),
                Box::new(event_body(Flag::Removing, REMOVAL_EVENT)),
            ),
        ),
        Box::new(Term::Increment),
    )
}

/// The loop of `CSCN`.
pub open spec fn loop_body(max_vcpus: u8) -> Term {
    Term::WhileBelow(max_vcpus, Box::new(round_body()))
}

/// The body of `CSCN`.
pub open spec fn cscn_body(max_vcpus: u8) -> Term {
    Term::Both(
        Box::new(
            Term::Both(
                Box::new(
                    Term::Both(
                        Box::new(Term::Acquire),
                        Box::new(Term::SetLocal(Value::Constant(0))),
                    ),
                ),
                Box::new(loop_body(max_vcpus)),
            ),
        ),
        Box::new(Term::Release),
    )
}

/// The body of `CSTA`, up to where it gives the mutex back.
pub open spec fn csta_inquiry() -> Term {
    Term::Both(
        Box::new(
            Term::Both(
                Box::new(
                    Term::Both(Box::new(Term::Acquire), Box::new(Term::Select(Value::Arg))),
                ),
                Box::new(Term::SetLocal(Value::Constant(0))),
            ),
        ),
        Box::new(
            Term::IfSet(Flag::Enabled, Box::new(Term::SetLocal(Value::Constant(0x0f)))),
        ),
    )
}

/// The body of `CSTA`.
pub open spec fn csta_body() -> Term {
    Term::Both(
        Box::new(Term::Both(Box::new(csta_inquiry()), Box::new(Term::Release))),
        Box::new(Term::ReturnLocal),
    )
}

/// The body of a vCPU's `_EJ0`.
pub open spec fn ej0_body(cpu_id: u8) -> Term {
    Term::Both(
        Box::new(Term::Select(Value::Constant(cpu_id))),
        Box::new(Term::Raise(Flag::Eject)),
    )
}

/// The bytes of the branches of `CTFY`.
proof fn lemma_ctfy_bytes(n: nat)
    requires
        n <= 0x100,
    ensures
        encode(ctfy_body(n)) == cpu_aml::cpu_notifies(n),
    decreases n,
{
    if n > 0 {
        let cpu_id = (n - 1) as u8;
        lemma_ctfy_bytes((n - 1) as nat);
        let branch = Term::IfArg(cpu_id, Box::new(Term::Notify(cpu_id)));
        reveal_with_fuel(encode, 3);
        assert(encode(branch) == cpu_aml::cpu_notify(cpu_id));
        assert(ctfy_body(n) == Term::Both(
            Box::new(ctfy_body((n - 1) as nat)),
            Box::new(branch),
        ));
    }
}

/// The bytes of two terms.
proof fn lemma_both_bytes(first: Term, second: Term)
    ensures
        encode(Term::Both(Box::new(first), Box::new(second))) == encode(first) + encode(second),
{
}

/// The bytes of the body of `CSTA`.
pub proof fn lemma_csta_bytes()
    ensures
        cpu_aml::csta_method() == grammar::method("CSTA"@, 1, true, encode(csta_body())),
{
    let locked = Term::Both(Box::new(Term::Acquire), Box::new(Term::Select(Value::Arg)));
    let zero = Term::SetLocal(Value::Constant(0));
    let cleared = Term::Both(Box::new(locked), Box::new(zero));
    let found = Term::SetLocal(Value::Constant(0x0f));
    let test = Term::IfSet(Flag::Enabled, Box::new(found));
    lemma_both_bytes(Term::Acquire, Term::Select(Value::Arg));
    lemma_both_bytes(locked, zero);
    lemma_both_bytes(cleared, test);
    lemma_both_bytes(csta_inquiry(), Term::Release);
    lemma_both_bytes(
        Term::Both(Box::new(csta_inquiry()), Box::new(Term::Release)),
        Term::ReturnLocal,
    );
    assert(encode(found) == grammar::store(grammar::local(0), grammar::integer(0x0f)));
}

/// The bytes of the part of `CSCN` for one kind of event.
proof fn lemma_event_bytes(flag: Flag, event: u8)
    ensures
        encode(event_body(flag, event)) == cpu_aml::scan_event(flag_name(flag), event),
{
    lemma_both_bytes(Term::Announce(event), Term::Raise(flag));
}

/// The bytes of the body of `CSCN`.
pub proof fn lemma_cscn_bytes(max_vcpus: u8)
    ensures
        cpu_aml::cscn_method(max_vcpus) == grammar::method(
            "CSCN"@,
            0,
            true,
            encode(cscn_body(max_vcpus)),
        ),
{
    let insertion = event_body(Flag::Inserting, INSERTION_EVENT);
    let removal = event_body(Flag::Removing, REMOVAL_EVENT);
    let zero = Term::SetLocal(Value::Constant(0));
    let start = Term::Both(Box::new(Term::Acquire), Box::new(zero));
    lemma_event_bytes(Flag::Inserting, INSERTION_EVENT);
    lemma_event_bytes(Flag::Removing, REMOVAL_EVENT);
    lemma_both_bytes(Term::Select(Value::Local), insertion);
    lemma_both_bytes(insertion_body(), removal);
    lemma_both_bytes(
        Term::Both(Box::new(insertion_body()), Box::new(removal)),
        Term::Increment,
    );
    lemma_both_bytes(Term::Acquire, zero);
    lemma_both_bytes(start, loop_body(max_vcpus));
    lemma_both_bytes(
        Term::Both(Box::new(start), Box::new(loop_body(max_vcpus))),
        Term::Release,
    );
}

/// The methods in the tables are the bodies, byte for byte: `CSTA`, `CTFY` and `CSCN`, and the
/// `_EJ0` in the device of each vCPU.
pub proof fn methods_are_the_bodies(max_vcpus: u8, cpu_id: u8)
    ensures
        cpu_aml::csta_method() == grammar::method("CSTA"@, 1, true, encode(csta_body())),
        cpu_aml::ctfy_method(max_vcpus) == grammar::method(
            "CTFY"@,
            2,
            true,
            encode(ctfy_body(max_vcpus as nat)),
        ),
        cpu_aml::cscn_method(max_vcpus) == grammar::method(
            "CSCN"@,
            0,
            true,
            encode(cscn_body(max_vcpus)),
        ),
        cpu_aml::cpu_device(cpu_id) == grammar::device(
            cpu_aml::cpu_name(cpu_id),
            grammar::named("_HID"@, grammar::string("ACPI0007"@)) + grammar::named(
                "_UID"@,
                grammar::integer(cpu_id as u64),
            ) + grammar::method(
                "_STA"@,
                0,
                false,
                grammar::returns_value(grammar::call("CSTA"@, grammar::integer(cpu_id as u64))),
            ) + grammar::method("_EJ0"@, 1, false, encode(ej0_body(cpu_id))) + grammar::named(
                "_MAT"@,
                grammar::buffer(cpu_aml::apic_entry(cpu_id)),
            ),
        ),
{
    lemma_ctfy_bytes(max_vcpus as nat);
    lemma_csta_bytes();
    lemma_cscn_bytes(max_vcpus);
    lemma_both_bytes(Term::Select(Value::Constant(cpu_id)), Term::Raise(Flag::Eject));
}

/// Two terms run one after the other.
proof fn lemma_both(first: Term, second: Term, g: Guest, next: Guest, max_vcpus: u8, fuel: nat)
    requires
        run(first, g, max_vcpus, fuel) == Some(next),
        next.returned is None,
    ensures
        run(Term::Both(Box::new(first), Box::new(second)), g, max_vcpus, fuel) == run(
            second,
            next,
            max_vcpus,
            fuel,
        ),
{
}

/// A store to the selection register selects.
proof fn lemma_select(value: Value, i: u32, g: Guest, max_vcpus: u8, fuel: nat)
    requires
        value_of(value, g) == i,
    ensures
        run(Term::Select(value), g, max_vcpus, fuel) == Some(
            Guest { controller: laws::select(g.controller, i), ..g },
        ),
{
}

/// A store to a flag writes the status byte.
proof fn lemma_raise(flag: Flag, g: Guest, max_vcpus: u8, fuel: nat)
    ensures
        run(Term::Raise(flag), g, max_vcpus, fuel) == Some(
            Guest { controller: laws::write_flag(g.controller, flag_bit(flag)), ..g },
        ),
{
}

/// A branch of `CTFY` notifies its vCPU, if that is the first argument, of the second.
proof fn lemma_branch(cpu_id: u8, g: Guest, max_vcpus: u8, fuel: nat)
    requires
        g.args.1 < 0x100,
    ensures
        run(Term::IfArg(cpu_id, Box::new(Term::Notify(cpu_id))), g, max_vcpus, fuel) == Some(
            if g.args.0 == cpu_id {
                Guest { notified: g.notified.push((cpu_id as u32, g.args.1 as u8)), ..g }
            } else {
                g
            },
        ),
{
    assert(run(Term::Notify(cpu_id), g, max_vcpus, fuel) == Some(
        Guest { notified: g.notified.push((cpu_id as u32, g.args.1 as u8)), ..g },
    ));
}

/// `CTFY` notifies the vCPU of its first argument, if it is below `n`, of the second.
proof fn lemma_ctfy(n: nat, g: Guest, max_vcpus: u8, fuel: nat)
    requires
        n <= 0x100,
        g.returned is None,
        g.args.1 < 0x100,
    ensures
        run(ctfy_body(n), g, max_vcpus, fuel) == Some(
            Guest {
                notified: if g.args.0 < n {
                    g.notified.push((g.args.0 as u32, g.args.1 as u8))
                } else {
                    g.notified
                },
                ..g
            },
        ),
    decreases n,
{
    if n > 0 {
        let cpu_id = (n - 1) as u8;
        let below = ctfy_body((n - 1) as nat);
        let branch = Term::IfArg(cpu_id, Box::new(Term::Notify(cpu_id)));
        lemma_ctfy((n - 1) as nat, g, max_vcpus, fuel);
        let next = run(below, g, max_vcpus, fuel)->0;
        lemma_both(below, branch, g, next, max_vcpus, fuel);
        lemma_branch(cpu_id, next, max_vcpus, fuel);
    }
}

/// A call of `CTFY` notifies the vCPU of the local variable.
proof fn lemma_announce(event: u8, g: Guest, max_vcpus: u8, fuel: nat)
    requires
        g.local < max_vcpus,
        fuel >= 1,
    ensures
        run(Term::Announce(event), g, max_vcpus, fuel) == Some(
            Guest { notified: g.notified.push((g.local as u32, event)), ..g },
        ),
{
    let callee = Guest { local: 0, args: (g.local, event as u64), returned: None, ..g };
    lemma_ctfy(max_vcpus as nat, callee, max_vcpus, (fuel - 1) as nat);
}

/// The part of `CSCN` for one kind of event notifies the vCPU and acknowledges the event, if it
/// is there.
proof fn lemma_event(flag: Flag, event: u8, g: Guest, max_vcpus: u8, fuel: nat)
    requires
        g.local < max_vcpus,
        g.returned is None,
        fuel >= 1,
    ensures
        run(event_body(flag, event), g, max_vcpus, fuel) == Some(
            if reads_one(g.controller, flag) {
                Guest {
                    controller: laws::write_flag(g.controller, flag_bit(flag)),
                    notified: g.notified.push((g.local as u32, event)),
                    ..g
                }
            } else {
                g
            },
        ),
{
    lemma_announce(event, g, max_vcpus, fuel);
    let next = run(Term::Announce(event), g, max_vcpus, fuel)->0;
    lemma_both(Term::Announce(event), Term::Raise(flag), g, next, max_vcpus, fuel);
    lemma_raise(flag, next, max_vcpus, fuel);
}

/// One round of `CSCN` scans one vCPU.
#[verifier::rlimit(30)]
proof fn lemma_round(g: Guest, max_vcpus: u8, fuel: nat)
    requires
        g.local < max_vcpus,
        g.returned is None,
        fuel >= 1,
    ensures
        run(round_body(), g, max_vcpus, fuel) == Some(
            Guest {
                controller: laws::scan_one(g.controller, g.local as u32),
                notified: g.notified + laws::scan_one_notifications(
                    g.controller,
                    g.local as u32,
                ),
                local: (g.local + 1) as u64,
                ..g
            },
        ),
{
    let insertion = event_body(Flag::Inserting, INSERTION_EVENT);
    let removal = event_body(Flag::Removing, REMOVAL_EVENT);
    let selected = Guest { controller: laws::select(g.controller, g.local as u32), ..g };
    lemma_select(Value::Local, g.local as u32, g, max_vcpus, fuel);
    lemma_both(Term::Select(Value::Local), insertion, g, selected, max_vcpus, fuel);
    lemma_event(Flag::Inserting, INSERTION_EVENT, selected, max_vcpus, fuel);
    let seen = run(insertion, selected, max_vcpus, fuel)->0;
    lemma_both(insertion_body(), removal, g, seen, max_vcpus, fuel);
    lemma_event(Flag::Removing, REMOVAL_EVENT, seen, max_vcpus, fuel);
    let scanned = run(removal, seen, max_vcpus, fuel)->0;
    let both = Term::Both(Box::new(insertion_body()), Box::new(removal));
    lemma_both(both, Term::Increment, g, scanned, max_vcpus, fuel);
    assert(run(Term::Increment, scanned, max_vcpus, fuel) == Some(
        Guest { local: (g.local + 1) as u64, ..scanned },
    ));
    assert(scanned.notified =~= g.notified + laws::scan_one_notifications(
        g.controller,
        g.local as u32,
    ));
}

/// The loop of `CSCN`, entered when the vCPUs below the local variable are scanned, scans the
/// others.
proof fn lemma_loop(c: Controller, notified: Seq<(u32, u8)>, g: Guest, max_vcpus: u8, fuel: nat)
    requires
        g.local <= max_vcpus,
        g.returned is None,
        fuel >= max_vcpus - g.local,
        g.controller == laws::scan(c, g.local as nat),
        g.notified == notified + laws::scan_notifications(c, g.local as nat),
    ensures
        run(loop_body(max_vcpus), g, max_vcpus, fuel) == Some(
            Guest {
                controller: laws::scan(c, max_vcpus as nat),
                notified: notified + laws::scan_notifications(c, max_vcpus as nat),
                local: max_vcpus as u64,
                ..g
            },
        ),
    decreases max_vcpus - g.local,
{
    if g.local < max_vcpus {
        lemma_round(g, max_vcpus, fuel);
        let next = run(round_body(), g, max_vcpus, fuel)->0;
        assert(next.notified =~= notified + laws::scan_notifications(c, next.local as nat));
        lemma_loop(c, notified, next, max_vcpus, (fuel - 1) as nat);
    }
}

/// The method `CSCN` scans the vCPUs and makes the notifications of the scan. It ends, within as
/// many rounds as there are vCPUs, and has then given the mutex back.
pub proof fn cscn_scans(g: Guest, max_vcpus: u8, fuel: nat)
    requires
        g.returned is None,
        fuel >= max_vcpus,
    ensures
        run(cscn_body(max_vcpus), g, max_vcpus, fuel) == Some(
            Guest {
                controller: laws::scan(g.controller, max_vcpus as nat),
                notified: g.notified + laws::scan_notifications(
                    g.controller,
                    max_vcpus as nat,
                ),
                local: max_vcpus as u64,
                ..g
            },
        ),
{
    let zero = Term::SetLocal(Value::Constant(0));
    let start = Term::Both(Box::new(Term::Acquire), Box::new(zero));
    let locked = Guest { held: g.held + 1, ..g };
    let entered = Guest { local: 0, ..locked };
    assert(run(Term::Acquire, g, max_vcpus, fuel) == Some(locked));
    lemma_both(Term::Acquire, zero, g, locked, max_vcpus, fuel);
    assert(run(zero, locked, max_vcpus, fuel) == Some(entered));
    lemma_both(start, loop_body(max_vcpus), g, entered, max_vcpus, fuel);
    assert(entered.notified =~= g.notified + laws::scan_notifications(g.controller, 0));
    lemma_loop(g.controller, g.notified, entered, max_vcpus, fuel);
    let scanned = run(loop_body(max_vcpus), entered, max_vcpus, fuel)->0;
    lemma_both(
        Term::Both(Box::new(start), Box::new(loop_body(max_vcpus))),
        Term::Release,
        g,
        scanned,
        max_vcpus,
        fuel,
    );
    assert(run(Term::Release, scanned, max_vcpus, fuel) == Some(Guest { held: g.held, ..scanned }));
}

/// Once the guest has run `CSCN`, nothing is left to acknowledge, every vCPU is enabled or not as
/// it was, the mutex is held as often as before, and the guest has notified each vCPU that was
/// inserting of its insertion and each that was removing of its removal.
pub proof fn cscn_settles(g: Guest, fuel: nat)
    requires
        g.controller.consistent(),
        g.returned is None,
        fuel >= g.controller.max_vcpus,
    ensures
        ({
            let max_vcpus = g.controller.max_vcpus;
            let done = run(cscn_body(max_vcpus), g, max_vcpus, fuel);
            let made = laws::scan_notifications(g.controller, max_vcpus as nat);
            &&& done is Some
            &&& laws::same_shape(done->0.controller, g.controller)
            &&& laws::settled(done->0.controller)
            &&& forall|i: int|
                0 <= i < max_vcpus ==> (#[trigger] done->0.controller.cpus[i]).enabled
                    == g.controller.cpus[i].enabled
            &&& done->0.held == g.held
            &&& done->0.notified == g.notified + made
            &&& forall|i: u32, event: u8| #[trigger]
                made.contains((i, event)) <==> i < max_vcpus && ((event == INSERTION_EVENT
                    && g.controller.cpus[i as int].inserting) || (event == REMOVAL_EVENT
                    && g.controller.cpus[i as int].removing))
        }),
{
    let max_vcpus = g.controller.max_vcpus;
    cscn_scans(g, max_vcpus, fuel);
    laws::scan_acknowledges(g.controller, max_vcpus as nat);
    laws::scan_notifies(g.controller, max_vcpus as nat);
}

/// The method `CSTA` selects the vCPU of its argument and returns 15 if it is present, else 0. It
/// changes nothing else, and has given the mutex back.
pub proof fn csta_reports_presence(g: Guest, max_vcpus: u8, fuel: nat)
    requires
        g.returned is None,
        g.args.0 <= u32::MAX,
    ensures
        ({
            let i = g.args.0 as u32;
            let present = i < g.controller.cpus.len() && g.controller.cpus[i as int].enabled;
            let answer: u64 = if present {
                0x0f
            } else {
                0
            };
            run(csta_body(), g, max_vcpus, fuel) == Some(
                Guest {
                    controller: laws::select(g.controller, i),
                    local: answer,
                    returned: Some(answer),
                    ..g
                },
            )
        }),
{
    let i = g.args.0 as u32;
    laws::selecting(g.controller, i);
    if i < g.controller.cpus.len() {
        laws::status_shows_the_flags(g.controller.cpus[i as int]);
    }
    let zero = Term::SetLocal(Value::Constant(0));
    let found = Term::SetLocal(Value::Constant(0x0f));
    let test = Term::IfSet(Flag::Enabled, Box::new(found));
    let start = Term::Both(Box::new(Term::Acquire), Box::new(Term::Select(Value::Arg)));
    let cleared = Term::Both(Box::new(start), Box::new(zero));
    let locked = Guest { held: g.held + 1, ..g };
    let selected = Guest { controller: laws::select(g.controller, i), ..locked };
    let asked = Guest { local: 0, ..selected };
    assert(run(Term::Acquire, g, max_vcpus, fuel) == Some(locked));
    lemma_both(Term::Acquire, Term::Select(Value::Arg), g, locked, max_vcpus, fuel);
    lemma_select(Value::Arg, i, locked, max_vcpus, fuel);
    lemma_both(start, zero, g, selected, max_vcpus, fuel);
    assert(run(zero, selected, max_vcpus, fuel) == Some(asked));
    lemma_both(cleared, test, g, asked, max_vcpus, fuel);
    assert(run(found, asked, max_vcpus, fuel) == Some(Guest { local: 0x0f, ..asked }));
    let answered = run(test, asked, max_vcpus, fuel)->0;
    lemma_both(csta_inquiry(), Term::Release, g, answered, max_vcpus, fuel);
    let unlocked = Guest { held: g.held, ..answered };
    assert(run(Term::Release, answered, max_vcpus, fuel) == Some(unlocked));
    lemma_both(
        Term::Both(Box::new(csta_inquiry()), Box::new(Term::Release)),
        Term::ReturnLocal,
        g,
        unlocked,
        max_vcpus,
        fuel,
    );
    assert(run(Term::ReturnLocal, unlocked, max_vcpus, fuel) == Some(
        Guest { returned: Some(unlocked.local), ..unlocked },
    ));
}

/// The method `_EJ0` of a vCPU ejects it.
pub proof fn ej0_ejects(g: Guest, cpu_id: u8, max_vcpus: u8, fuel: nat)
    requires
        g.returned is None,
    ensures
        run(ej0_body(cpu_id), g, max_vcpus, fuel) == Some(
            Guest { controller: laws::eject(g.controller, cpu_id as u32), ..g },
        ),
{
    let selecting = Term::Select(Value::Constant(cpu_id));
    let selected = Guest { controller: laws::select(g.controller, cpu_id as u32), ..g };
    lemma_select(Value::Constant(cpu_id), cpu_id as u32, g, max_vcpus, fuel);
    lemma_both(selecting, Term::Raise(Flag::Eject), g, selected, max_vcpus, fuel);
    lemma_raise(Flag::Eject, selected, max_vcpus, fuel);
}

} // verus!
