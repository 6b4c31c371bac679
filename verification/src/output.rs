//! The host functions that print.

use crate::frame;
use crate::guest;
use crate::host::{Fault, Host};
use crate::text;
use crate::word;
use vstd::prelude::*;
use vstd::slice::slice_subrange;
use vstd::string::*;
use wasmtime::Caller;

verus! {

/// A pointer and a length inside a bracketed note: `[` the note `ptr=`, the
/// pointer, `, len=`, the length `]`.
pub open spec fn range_note(note: Seq<char>, ptr: i32, len: i32) -> Seq<char> {
    "["@ + note + "ptr="@ + text::decimal(ptr as int) + ", len="@ + text::decimal(len as int)
        + "]"@
}

/// The bracketed note on a pointer and a length.
fn range_note_of(name: &str, note: &str, ptr: i32, len: i32) -> (r: String)
    ensures
        r@ == range_note(name@ + note@, ptr, len),
{
    let mut r = "[".to_owned();
    r.append(name);
    r.append(note);
    r.append("ptr=");
    r.append(text::decimal_of(ptr as i64).as_str());
    r.append(", len=");
    r.append(text::decimal_of(len as i64).as_str());
    r.append("]");
    assert("["@ + name@ + note@ == "["@ + (name@ + note@));
    r
}

/// The text that the function called `name` prints for the `len` bytes at `ptr`:
/// the bytes as UTF-8, or a bracketed note where there is no memory, no such
/// range or no UTF-8. A range whose end is no `i32` is a fault.
pub open spec fn shown(data: Option<Seq<u8>>, name: Seq<char>, ptr: i32, len: i32) -> Result<
    Seq<char>,
    Fault,
> {
    match data {
        None => Ok(range_note(name + ": "@, ptr, len)),
        Some(data) => if !(i32::MIN <= ptr + len <= i32::MAX) {
            Err(Fault::AddressOverflow)
        } else {
            let start = word::address_of(ptr);
            let end = word::address_of((ptr + len) as i32);
            if start <= end <= data.len() {
                match frame::decoded(data.subrange(start, end)) {
                    Some(text) => Ok(text),
                    None => Ok("[invalid utf8: "@ + text::decimal(len as int) + " bytes]"@),
                }
            } else {
                Ok(range_note(name + ": invalid range "@, ptr, len))
            }
        },
    }
}

/// The text to print for the `len` bytes at `ptr` of the guest's memory.
pub fn show_range(data: &[u8], name: &str, ptr: i32, len: i32) -> (r: Result<String, Fault>)
    ensures
        shown(Some(data@), name@, ptr, len) == (match r {
            Ok(text) => Ok(text@),
            Err(fault) => Err(fault),
        }),
{
    let last: i32 = match ptr.checked_add(len) {
        Some(last) => last,
        None => {
            return Err(Fault::AddressOverflow);
        },
    };
    let start: usize = word::to_address(ptr);
    let end: usize = word::to_address(last);
    if start > end || end > data.len() {
        return Ok(range_note_of(name, ": invalid range ", ptr, len));
    }
    match std::str::from_utf8(slice_subrange(data, start, end)) {
        Ok(s) => Ok(s.to_owned()),
        Err(_) => {
            let mut r = "[invalid utf8: ".to_owned();
            r.append(text::decimal_of(len as i64).as_str());
            r.append(" bytes]");
            Ok(r)
        },
    }
}

/// The text to print for the `len` bytes at `ptr` of the calling guest.
fn show(caller: &mut Caller<'_, ()>, name: &str, ptr: i32, len: i32) -> (r: Result<String, Fault>)
    ensures
        guest::same_guest(*old(caller), *final(caller)),
        shown(guest::guest_bytes(*old(caller)), name@, ptr, len) == (match r {
            Ok(text) => Ok(text@),
            Err(fault) => Err(fault),
        }),
{
    match guest::guest_memory(caller) {
        None => Ok(range_note_of(name, ": ", ptr, len)),
        Some(memory) => show_range(guest::memory_data(&memory, caller), name, ptr, len),
    }
}

/// Printing a text of the guest, from the state before to the state after: the
/// text is added to standard output, or nothing changes where it is a fault.
pub open spec fn printed(
    caller: Caller<'_, ()>,
    caller_after: Caller<'_, ()>,
    host: Host,
    host_after: Host,
    text: Result<Seq<char>, Fault>,
    ending: Seq<char>,
    r: Result<(), Fault>,
) -> bool {
    &&& guest::same_guest(caller, caller_after)
    &&& host_after.arena@ == host.arena@
    &&& match text {
        Ok(text) => {
            &&& r == Ok::<(), Fault>(())
            &&& host_after.console@ == host.console@.said(text + ending)
        },
        Err(fault) => {
            &&& r == Err::<(), Fault>(fault)
            &&& host_after.console@ == host.console@
        },
    }
}

/// Prints text of the guest.
pub fn print(caller: &mut Caller<'_, ()>, host: &mut Host, ptr: i32, len: i32) -> (r: Result<
    (),
    Fault,
>)
    ensures
        printed(
            *old(caller),
            *final(caller),
            *old(host),
            *final(host),
            shown(guest::guest_bytes(*old(caller)), "print"@, ptr, len),
            Seq::empty(),
            r,
        ),
{
    match show(caller, "print", ptr, len) {
        Ok(text) => {
            assert(text@ + Seq::<char>::empty() == text@);
            host.console.say(text.as_str());
            Ok(())
        },
        Err(fault) => Err(fault),
    }
}

/// Prints text of the guest and ends the line.
pub fn printl(caller: &mut Caller<'_, ()>, host: &mut Host, ptr: i32, len: i32) -> (r: Result<
    (),
    Fault,
>)
    ensures
        printed(
            *old(caller),
            *final(caller),
            *old(host),
            *final(host),
            shown(guest::guest_bytes(*old(caller)), "printl"@, ptr, len),
            "\n"@,
            r,
        ),
{
    match show(caller, "printl", ptr, len) {
        Ok(text) => {
            print_line(host, text.as_str());
            Ok(())
        },
        Err(fault) => Err(fault),
    }
}

/// Prints `text` and ends the line.
pub fn print_line(host: &mut Host, text: &str)
    ensures
        final(host).arena@ == old(host).arena@,
        final(host).console@ == old(host).console@.said(text@ + "\n"@),
{
    let mut line = text.to_owned();
    line.append("\n");
    host.console.say(line.as_str());
}

/// Prints a whole number.
pub fn print_simple(host: &mut Host, value: i32)
    ensures
        final(host).arena@ == old(host).arena@,
        final(host).console@ == old(host).console@.said(text::decimal(value as int)),
{
    host.console.say(text::decimal_of(value as i64).as_str());
}

/// Prints a whole number and ends the line.
pub fn printl_simple(host: &mut Host, value: i32)
    ensures
        final(host).arena@ == old(host).arena@,
        final(host).console@ == old(host).console@.said(text::decimal(value as int) + "\n"@),
{
    print_line(host, text::decimal_of(value as i64).as_str());
}

/// Prints a whole number of 64 bits and ends the line.
pub fn print_integer(host: &mut Host, value: i64)
    ensures
        final(host).arena@ == old(host).arena@,
        final(host).console@ == old(host).console@.said(text::decimal(value as int) + "\n"@),
{
    print_line(host, text::decimal_of(value).as_str());
}

/// Prints a truth value and ends the line.
pub fn print_boolean(host: &mut Host, value: i32)
    ensures
        final(host).arena@ == old(host).arena@,
        final(host).console@ == old(host).console@.said(text::truth_word(value as int) + "\n"@),
{
    print_line(host, text::truth_word_of(value).as_str());
}

} // verus!
