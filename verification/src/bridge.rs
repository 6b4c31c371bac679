//! What the host answers when the guest calls one of its functions.
//!
//! The guest's call arrives as the function that [`crate::abi`] lists under the
//! called name, together with the arguments. Floating-point numbers travel as
//! their bits; where a function computes with them, the program around the
//! library does it.

use crate::abi;
use crate::abi::{HostFunction, ValueType};
use crate::arena;
use crate::arrays;
use crate::guest;
use crate::host::{Fault, Host};
use crate::output;
use crate::scalar;
use crate::strings;
use crate::strings::Ends;
use crate::text;
use vstd::prelude::*;
use vstd::string::*;
use wasmtime::Caller;

verus! {

broadcast use crate::guest::lemma_denial_carries;

/// An argument or a result.
#[derive(Clone, Copy, Debug, PartialEq, Eq, Structural)]
pub enum Value {
    I32(i32),
    I64(i64),
    /// A floating-point number, by its bits.
    F64(u64),
}

/// How a call of the guest goes on.
#[derive(Clone, Copy, Debug, PartialEq, Eq)]
pub enum Reply {
    /// The call returns, with or without a result.
    Done(Option<Value>),
    /// The call returns after that many milliseconds.
    Sleep(u64),
    /// The function computes with floating-point numbers, which is left to the
    /// program.
    Number,
    /// The arguments are not those that the function takes.
    Mistyped,
}

/// The type of a value.
pub open spec fn type_of(value: Value) -> ValueType {
    match value {
        Value::I32(_) => ValueType::I32,
        Value::I64(_) => ValueType::I64,
        Value::F64(_) => ValueType::F64,
    }
}

/// Whether the arguments have the types that are asked for.
pub open spec fn typed(args: Seq<Value>, types: Seq<ValueType>) -> bool {
    &&& args.len() == types.len()
    &&& forall|i: int| 0 <= i < args.len() ==> type_of(#[trigger] args[i]) == types[i]
}

/// The type of a value.
fn value_type(value: Value) -> (r: ValueType)
    ensures
        r == type_of(value),
{
    match value {
        Value::I32(_) => ValueType::I32,
        Value::I64(_) => ValueType::I64,
        Value::F64(_) => ValueType::F64,
    }
}

/// Whether the arguments have the types that are asked for.
fn well_typed(args: &[Value], types: &Vec<ValueType>) -> (r: bool)
    ensures
        r == typed(args@, types@),
{
    if args.len() != types.len() {
        return false;
    }
    let mut i: usize = 0;
    while i < args.len()
        invariant
            i <= args@.len() == types@.len(),
            forall|j: int| 0 <= j < i ==> type_of(#[trigger] args@[j]) == types@[j],
        decreases args@.len() - i,
    {
        if value_type(args[i]) != types[i] {
            assert(type_of(args@[i as int]) != types@[i as int]);
            return false;
        }
        i = i + 1;
    }
    true
}

/// The integer argument at `index`.
pub open spec fn integer(args: Seq<Value>, index: int) -> i32 {
    match args[index] {
        Value::I32(value) => value,
        _ => 0,
    }
}

/// The 64-bit integer argument at `index`.
pub open spec fn long(args: Seq<Value>, index: int) -> i64 {
    match args[index] {
        Value::I64(value) => value,
        _ => 0,
    }
}

/// The bits of the floating-point argument at `index`.
pub open spec fn bits(args: Seq<Value>, index: int) -> u64 {
    match args[index] {
        Value::F64(value) => value,
        _ => 0,
    }
}

fn integer_at(args: &[Value], index: usize) -> (r: i32)
    requires
        index < args@.len(),
    ensures
        r == integer(args@, index as int),
{
    match args[index] {
        Value::I32(value) => value,
        _ => 0,
    }
}

fn long_at(args: &[Value], index: usize) -> (r: i64)
    requires
        index < args@.len(),
    ensures
        r == long(args@, index as int),
{
    match args[index] {
        Value::I64(value) => value,
        _ => 0,
    }
}

fn bits_at(args: &[Value], index: usize) -> (r: u64)
    requires
        index < args@.len(),
    ensures
        r == bits(args@, index as int),
{
    match args[index] {
        Value::F64(value) => value,
        _ => 0,
    }
}

/// The reply of a function that neither reads nor changes anything but its
/// arguments; none for the other functions.
pub open spec fn plain_reply(function: HostFunction, args: Seq<Value>) -> Option<Reply> {
    match function {
        HostFunction::Ignore(_) => Some(Reply::Done(None)),
        HostFunction::Zero(_) | HostFunction::ZeroOfFloat => Some(Reply::Done(Some(Value::I32(0)))),
        HostFunction::ZeroFloat(_) => Some(Reply::Done(Some(Value::F64(0)))),
        HostFunction::ConditionalInteger => Some(
            Reply::Done(
                Some(
                    Value::I32(
                        if integer(args, 0) != 0 {
                            integer(args, 1)
                        } else {
                            integer(args, 2)
                        },
                    ),
                ),
            ),
        ),
        HostFunction::ConditionalNumber => Some(
            Reply::Done(
                Some(
                    Value::F64(
                        if integer(args, 0) != 0 {
                            bits(args, 1)
                        } else {
                            bits(args, 2)
                        },
                    ),
                ),
            ),
        ),
        HostFunction::Same | HostFunction::SameFloat => Some(Reply::Done(Some(args[0]))),
        HostFunction::IntToBool => Some(
            Reply::Done(
                Some(
                    Value::I32(
                        if integer(args, 0) != 0 {
                            1
                        } else {
                            0
                        },
                    ),
                ),
            ),
        ),
        HostFunction::ServerSleep => Some(
            Reply::Sleep(
                if long(args, 0) > 0 {
                    long(args, 0) as u64
                } else {
                    0
                },
            ),
        ),
        HostFunction::PrintFloat
        | HostFunction::FloatToString
        | HostFunction::Pow
        | HostFunction::Atan2
        | HostFunction::Math(_)
        | HostFunction::IntToFloat
        | HostFunction::FloatToInt
        | HostFunction::FloatToBool => Some(Reply::Number),
        _ => None,
    }
}

/// The reply of a function that works on its arguments alone.
pub fn reply_plainly(function: HostFunction, args: &[Value]) -> (r: Option<Reply>)
    requires
        typed(args@, abi::parameters(function)),
    ensures
        r == plain_reply(function, args@),
{
    match function {
        HostFunction::Ignore(_) => Some(Reply::Done(None)),
        HostFunction::Zero(_) | HostFunction::ZeroOfFloat => Some(Reply::Done(Some(Value::I32(0)))),
        HostFunction::ZeroFloat(_) => Some(Reply::Done(Some(Value::F64(0)))),
        HostFunction::ConditionalInteger => {
            let value: i32 = scalar::conditional(
                integer_at(args, 0),
                integer_at(args, 1),
                integer_at(args, 2),
            );
            Some(Reply::Done(Some(Value::I32(value))))
        },
        HostFunction::ConditionalNumber => {
            let value: u64 = scalar::conditional(
                integer_at(args, 0),
                bits_at(args, 1),
                bits_at(args, 2),
            );
            Some(Reply::Done(Some(Value::F64(value))))
        },
        HostFunction::Same | HostFunction::SameFloat => Some(Reply::Done(Some(args[0]))),
        HostFunction::IntToBool => {
            let value: i32 = scalar::integer_to_boolean(integer_at(args, 0));
            Some(Reply::Done(Some(Value::I32(value))))
        },
        HostFunction::ServerSleep => Some(Reply::Sleep(scalar::sleep_millis(long_at(args, 0)))),
        HostFunction::PrintFloat
        | HostFunction::FloatToString
        | HostFunction::Pow
        | HostFunction::Atan2
        | HostFunction::Math(_)
        | HostFunction::IntToFloat
        | HostFunction::FloatToInt
        | HostFunction::FloatToBool => Some(Reply::Number),
        _ => None,
    }
}

/// The plan of a function that stores a string or a list, from the bytes of the
/// guest's memory, if there is one; none for the other functions.
pub open spec fn storing_plan(
    function: HostFunction,
    name: Seq<char>,
    args: Seq<Value>,
    memory: Option<Seq<u8>>,
) -> Option<strings::Plan> {
    let quiet = strings::Plan::Quit(Seq::empty());
    match function {
        HostFunction::IntToString => Some(
            match memory {
                None => quiet,
                Some(_) => strings::Plan::Store(text::decimal(integer(args, 0) as int)),
            },
        ),
        HostFunction::BoolToString => Some(
            match memory {
                None => quiet,
                Some(_) => strings::Plan::Store(text::truth_word(integer(args, 0) as int)),
            },
        ),
        HostFunction::StringConcat => Some(
            match memory {
                None => strings::Plan::Quit(strings::message(name, ": Failed to get memory"@)),
                Some(data) => strings::concat_plan(data, name, integer(args, 0), integer(args, 1)),
            },
        ),
        HostFunction::StringReplace => Some(
            match memory {
                None => quiet,
                Some(data) => strings::replace_plan(
                    data,
                    integer(args, 0),
                    integer(args, 1),
                    integer(args, 2),
                ),
            },
        ),
        HostFunction::StringTrim => Some(
            match memory {
                None => quiet,
                Some(data) => strings::trim_plan(data, Ends::Both, integer(args, 0)),
            },
        ),
        HostFunction::StringTrimStart => Some(
            match memory {
                None => quiet,
                Some(data) => strings::trim_plan(data, Ends::Start, integer(args, 0)),
            },
        ),
        HostFunction::StringTrimEnd => Some(
            match memory {
                None => quiet,
                Some(data) => strings::trim_plan(data, Ends::End, integer(args, 0)),
            },
        ),
        HostFunction::StringSplit => Some(
            match memory {
                None => strings::Plan::Quit(strings::message(name, ": no memory"@)),
                Some(data) => strings::split_plan(data, integer(args, 0), integer(args, 1)),
            },
        ),
        HostFunction::StringRepeat => Some(
            match memory {
                None => quiet,
                Some(data) => strings::repeat_plan(data, integer(args, 0), integer(args, 2)),
            },
        ),
        _ => None,
    }
}

/// Nothing has changed.
pub open spec fn unmoved(
    caller: Caller<'_, ()>,
    caller_after: Caller<'_, ()>,
    host: Host,
    host_after: Host,
) -> bool {
    &&& guest::same_guest(caller, caller_after)
    &&& host_after.arena@ == host.arena@
    &&& host_after.console@ == host.console@
}

/// Nothing has changed but that `text` was printed.
pub open spec fn only_said(
    caller: Caller<'_, ()>,
    caller_after: Caller<'_, ()>,
    host: Host,
    host_after: Host,
    text: Seq<char>,
) -> bool {
    &&& guest::same_guest(caller, caller_after)
    &&& host_after.arena@ == host.arena@
    &&& host_after.console@ == host.console@.said(text)
}

/// The reply as a call that returns an integer.
pub open spec fn integer_reply(r: Result<Reply, Fault>) -> Option<Result<i32, Fault>> {
    match r {
        Ok(Reply::Done(Some(Value::I32(value)))) => Some(Ok(value)),
        Err(fault) => Some(Err(fault)),
        _ => None,
    }
}

/// The reply as a call that returns nothing.
pub open spec fn empty_reply(r: Result<Reply, Fault>) -> Option<Result<(), Fault>> {
    match r {
        Ok(Reply::Done(None)) => Some(Ok(())),
        Err(fault) => Some(Err(fault)),
        _ => None,
    }
}

/// Answering a call of `function` under the name `name`, from the state before to
/// the state after.
pub open spec fn answered(
    function: HostFunction,
    name: Seq<char>,
    args: Seq<Value>,
    caller: Caller<'_, ()>,
    caller_after: Caller<'_, ()>,
    host: Host,
    host_after: Host,
    r: Result<Reply, Fault>,
) -> bool {
    let memory = guest::guest_bytes(caller);
    if !typed(args, abi::parameters(function)) {
        &&& r == Ok::<Reply, Fault>(Reply::Mistyped)
        &&& unmoved(caller, caller_after, host, host_after)
    } else if plain_reply(function, args) is Some {
        &&& r == Ok::<Reply, Fault>(plain_reply(function, args)->0)
        &&& unmoved(caller, caller_after, host, host_after)
    } else if storing_plan(function, name, args, memory) is Some {
        &&& integer_reply(r) is Some
        &&& strings::carried_out(
            storing_plan(function, name, args, memory)->0,
            caller,
            caller_after,
            host,
            host_after,
            integer_reply(r)->0,
        )
    } else {
        match function {
            HostFunction::Print => {
                &&& empty_reply(r) is Some
                &&& output::printed(
                    caller,
                    caller_after,
                    host,
                    host_after,
                    output::shown(memory, "print"@, integer(args, 0), integer(args, 1)),
                    Seq::empty(),
                    empty_reply(r)->0,
                )
            },
            HostFunction::Printl => {
                &&& empty_reply(r) is Some
                &&& output::printed(
                    caller,
                    caller_after,
                    host,
                    host_after,
                    output::shown(memory, "printl"@, integer(args, 0), integer(args, 1)),
                    "\n"@,
                    empty_reply(r)->0,
                )
            },
            HostFunction::PrintSimple => {
                &&& r == Ok::<Reply, Fault>(Reply::Done(None))
                &&& only_said(
                    caller,
                    caller_after,
                    host,
                    host_after,
                    text::decimal(integer(args, 0) as int),
                )
            },
            HostFunction::PrintlSimple => {
                &&& r == Ok::<Reply, Fault>(Reply::Done(None))
                &&& only_said(
                    caller,
                    caller_after,
                    host,
                    host_after,
                    text::decimal(integer(args, 0) as int) + "\n"@,
                )
            },
            HostFunction::PrintInteger => {
                &&& r == Ok::<Reply, Fault>(Reply::Done(None))
                &&& only_said(
                    caller,
                    caller_after,
                    host,
                    host_after,
                    text::decimal(long(args, 0) as int) + "\n"@,
                )
            },
            HostFunction::PrintBoolean => {
                &&& r == Ok::<Reply, Fault>(Reply::Done(None))
                &&& only_said(
                    caller,
                    caller_after,
                    host,
                    host_after,
                    text::truth_word(integer(args, 0) as int) + "\n"@,
                )
            },
            HostFunction::StringCompare => {
                &&& unmoved(caller, caller_after, host, host_after)
                &&& integer_reply(r) == Some(
                    match memory {
                        None => Ok(0),
                        Some(data) => strings::comparison(data, integer(args, 0), integer(args, 1)),
                    },
                )
            },
            HostFunction::StringMatches => {
                &&& unmoved(caller, caller_after, host, host_after)
                &&& integer_reply(r) == Some(
                    match memory {
                        None => Ok(0),
                        Some(data) => strings::pattern_check(
                            data,
                            integer(args, 0),
                            integer(args, 2),
                        ),
                    },
                )
            },
            HostFunction::MemAlloc => {
                &&& guest::same_guest(caller, caller_after)
                &&& host_after.console@ == host.console@
                &&& integer_reply(r) is Some
                &&& arena::allocated(
                    host.arena@,
                    host_after.arena@,
                    integer(args, 1),
                    integer_reply(r)->0,
                )
            },
            HostFunction::MemScopePush => {
                &&& r == Ok::<Reply, Fault>(Reply::Done(None))
                &&& guest::same_guest(caller, caller_after)
                &&& host_after.console@ == host.console@
                &&& host_after.arena@ == host.arena@.pushed()
            },
            HostFunction::MemScopePop => {
                &&& r == Ok::<Reply, Fault>(Reply::Done(None))
                &&& guest::same_guest(caller, caller_after)
                &&& host_after.console@ == host.console@
                &&& host_after.arena@ == host.arena@.popped()
            },
            HostFunction::ArrayGet => {
                &&& integer_reply(r) is Some
                &&& arrays::element_read(
                    caller,
                    caller_after,
                    host,
                    host_after,
                    integer(args, 0),
                    integer(args, 1),
                    integer_reply(r)->0,
                )
            },
            HostFunction::ListPushF64 => {
                &&& integer_reply(r) is Some
                &&& arrays::number_pushed(
                    caller,
                    caller_after,
                    host,
                    host_after,
                    integer(args, 0),
                    bits(args, 1),
                    integer_reply(r)->0,
                )
            },
            _ => false,
        }
    }
}

/// The reply of a call that returns an integer.
fn returning(outcome: Result<i32, Fault>) -> (r: Result<Reply, Fault>)
    ensures
        integer_reply(r) == Some(outcome),
{
    match outcome {
        Ok(value) => Ok(Reply::Done(Some(Value::I32(value)))),
        Err(fault) => Err(fault),
    }
}

/// The reply of a call that returns nothing.
fn returning_nothing(outcome: Result<(), Fault>) -> (r: Result<Reply, Fault>)
    ensures
        empty_reply(r) == Some(outcome),
{
    match outcome {
        Ok(unit) => {
            assert(unit == ());
            Ok(Reply::Done(None))
        },
        Err(fault) => Err(fault),
    }
}

/// Answers a call of a function that stores a string or a list.
fn store(
    function: HostFunction,
    name: &str,
    args: &[Value],
    caller: &mut Caller<'_, ()>,
    host: &mut Host,
) -> (r: Result<i32, Fault>)
    requires
        typed(args@, abi::parameters(function)),
        storing_plan(function, name@, args@, guest::guest_bytes(*old(caller))) is Some,
    ensures
        strings::carried_out(
            storing_plan(function, name@, args@, guest::guest_bytes(*old(caller)))->0,
            *old(caller),
            *final(caller),
            *old(host),
            *final(host),
            r,
        ),
{
    let first: i32 = integer_at(args, 0);
    match function {
        HostFunction::IntToString => strings::int_to_string(caller, host, first),
        HostFunction::BoolToString => strings::bool_to_string(caller, host, first),
        HostFunction::StringTrim => strings::string_trim(caller, host, first),
        HostFunction::StringTrimStart => strings::string_trim_start(caller, host, first),
        HostFunction::StringTrimEnd => strings::string_trim_end(caller, host, first),
        HostFunction::StringConcat => strings::string_concat(
            caller,
            host,
            name,
            first,
            integer_at(args, 1),
        ),
        HostFunction::StringReplace => strings::string_replace(
            caller,
            host,
            first,
            integer_at(args, 1),
            integer_at(args, 2),
        ),
        HostFunction::StringRepeat => strings::string_repeat(
            caller,
            host,
            first,
            integer_at(args, 1),
            integer_at(args, 2),
        ),
        _ => strings::string_split(caller, host, name, first, integer_at(args, 1)),
    }
}

/// Answers a call of `function`, which the guest made under the name `name`.
pub fn answer(
    function: HostFunction,
    name: &str,
    args: &[Value],
    caller: &mut Caller<'_, ()>,
    host: &mut Host,
) -> (r: Result<Reply, Fault>)
    ensures
        answered(
            function,
            name@,
            args@,
            *old(caller),
            *final(caller),
            *old(host),
            *final(host),
            r,
        ),
{
    if !well_typed(args, &abi::signature(function).params) {
        return Ok(Reply::Mistyped);
    }
    if let Some(reply) = reply_plainly(function, args) {
        return Ok(reply);
    }
    match function {
        HostFunction::Print => returning_nothing(
            output::print(caller, host, integer_at(args, 0), integer_at(args, 1)),
        ),
        HostFunction::Printl => returning_nothing(
            output::printl(caller, host, integer_at(args, 0), integer_at(args, 1)),
        ),
        HostFunction::PrintSimple => {
            output::print_simple(host, integer_at(args, 0));
            Ok(Reply::Done(None))
        },
        HostFunction::PrintlSimple => {
            output::printl_simple(host, integer_at(args, 0));
            Ok(Reply::Done(None))
        },
        HostFunction::PrintInteger => {
            output::print_integer(host, long_at(args, 0));
            Ok(Reply::Done(None))
        },
        HostFunction::PrintBoolean => {
            output::print_boolean(host, integer_at(args, 0));
            Ok(Reply::Done(None))
        },
        HostFunction::StringCompare => returning(
            strings::string_compare(caller, integer_at(args, 0), integer_at(args, 1)),
        ),
        HostFunction::StringMatches => returning(
            strings::string_matches(
                caller,
                integer_at(args, 0),
                integer_at(args, 1),
                integer_at(args, 2),
                integer_at(args, 3),
            ),
        ),
        HostFunction::MemAlloc => returning(
            host.arena.mem_alloc(integer_at(args, 0), integer_at(args, 1)),
        ),
        HostFunction::MemScopePush => {
            host.arena.mem_scope_push();
            Ok(Reply::Done(None))
        },
        HostFunction::MemScopePop => {
            host.arena.mem_scope_pop();
            Ok(Reply::Done(None))
        },
        HostFunction::ArrayGet => returning(
            arrays::array_get(caller, host, integer_at(args, 0), integer_at(args, 1)),
        ),
        HostFunction::ListPushF64 => returning(
            arrays::list_push_f64(caller, host, integer_at(args, 0), bits_at(args, 1)),
        ),
        _ => returning(store(function, name, args, caller, host)),
    }
}

/// A reply that returns has a result of the type under which the function is
/// linked, and none where it returns nothing.
pub proof fn law_reply_is_well_typed(
    function: HostFunction,
    name: Seq<char>,
    args: Seq<Value>,
    caller: Caller<'_, ()>,
    caller_after: Caller<'_, ()>,
    host: Host,
    host_after: Host,
    r: Result<Reply, Fault>,
)
    requires
        answered(function, name, args, caller, caller_after, host, host_after, r),
    ensures
        r matches Ok(Reply::Done(result)) ==> match result {
            Some(value) => abi::result_type(function) == Some(type_of(value)),
            None => abi::result_type(function) is None,
        },
        r matches Ok(Reply::Mistyped) ==> !typed(args, abi::parameters(function)),
{
    if typed(args, abi::parameters(function)) && args.len() > 0 {
        assert(type_of(args[0]) == abi::parameters(function)[0]);
    }
}

} // verus!
