//! The host functions that work on strings.
//!
//! Each function first plans: from the bytes of the guest's memory alone it
//! decides what is to be done. Then the plan is carried out on the guest.

use crate::frame;
use crate::guest;
use crate::host::{Fault, Host};
use crate::list;
use crate::text;
use crate::word;
use vstd::prelude::*;
use vstd::string::*;
use wasmtime::{Caller, Memory};

verus! {

broadcast use crate::guest::lemma_denial_carries;

/// What a host function is to do, as a value of the mathematical model.
pub ghost enum Plan {
    /// Stop: an address leaves the address range.
    Fault,
    /// Return zero after printing a complaint, which may be empty.
    Quit(Seq<char>),
    /// Store a string and return the pointer to it.
    Store(Seq<char>),
    /// Store a list of strings and return the pointer to it.
    List(Seq<Seq<char>>),
}

/// What a host function is to do.
pub enum Action {
    Fault,
    Quit(String),
    Store(String),
    List(Vec<String>),
}

impl View for Action {
    type V = Plan;

    open spec fn view(&self) -> Plan {
        match self {
            Action::Fault => Plan::Fault,
            Action::Quit(complaint) => Plan::Quit(complaint@),
            Action::Store(text) => Plan::Store(text@),
            Action::List(parts) => Plan::List(text::views(parts@)),
        }
    }
}

/// Everything is as it was, but for a complaint on standard error.
pub open spec fn left_alone(
    caller: Caller<'_, ()>,
    caller_after: Caller<'_, ()>,
    host: Host,
    host_after: Host,
    complaint: Seq<char>,
) -> bool {
    &&& guest::same_guest(caller, caller_after)
    &&& host_after.arena@ == host.arena@
    &&& host_after.console@ == host.console@.complained(complaint)
}

/// The plan was carried out on the memory that the guest exports.
pub open spec fn carried_out(
    plan: Plan,
    caller: Caller<'_, ()>,
    caller_after: Caller<'_, ()>,
    host: Host,
    host_after: Host,
    r: Result<i32, Fault>,
) -> bool {
    let memory = guest::memory_of(caller)->0;
    match plan {
        Plan::Fault => {
            &&& r == Err::<i32, Fault>(Fault::AddressOverflow)
            &&& left_alone(caller, caller_after, host, host_after, Seq::empty())
        },
        Plan::Quit(complaint) => {
            &&& r == Ok::<i32, Fault>(0)
            &&& left_alone(caller, caller_after, host, host_after, complaint)
        },
        Plan::Store(text) => guest::stored(
            caller,
            caller_after,
            memory,
            host,
            host_after,
            text,
            r,
        ),
        Plan::List(parts) => list::listed(
            caller,
            caller_after,
            memory,
            host,
            host_after,
            parts,
            r,
        ),
    }
}

/// Carries a plan out on the memory that the guest exports.
fn carry_out(action: Action, memory: &Memory, caller: &mut Caller<'_, ()>, host: &mut Host) -> (r:
    Result<i32, Fault>)
    requires
        guest::memory_of(*old(caller)) == Some(*memory),
        guest::memory_bytes(*old(caller), *memory) is Some,
    ensures
        carried_out(action@, *old(caller), *final(caller), *old(host), *final(host), r),
{
    match action {
        Action::Fault => {
            assert(host.console@ == host.console@.complained(Seq::empty()));
            Err(Fault::AddressOverflow)
        },
        Action::Quit(complaint) => {
            host.console.complain(complaint.as_str());
            Ok(0)
        },
        Action::Store(text) => guest::allocate_string_in_memory(
            memory,
            caller,
            host,
            text.as_str(),
        ),
        Action::List(parts) => list::allocate_list_in_memory(memory, caller, host, &parts),
    }
}

/// The string that a guest pointer leads to. Four pointers, those just below
/// zero, lead past the end of the address range.
pub open spec fn text_at(data: Seq<u8>, ptr: i32) -> Result<Option<Seq<char>>, Fault> {
    if word::address_of(ptr) + 4 > usize::MAX {
        Err(Fault::AddressOverflow)
    } else {
        Ok(frame::framed_at(data, word::address_of(ptr)))
    }
}

/// The string itself, or the empty string in place of none.
pub open spec fn or_empty(text: Option<Seq<char>>) -> Seq<char> {
    match text {
        Some(text) => text,
        None => Seq::empty(),
    }
}

/// The string that a guest pointer leads to.
pub fn read_text(data: &[u8], ptr: i32) -> (r: Result<Option<String>, Fault>)
    ensures
        text_at(data@, ptr) == (match r {
            Ok(Some(s)) => Ok(Some(s@)),
            Ok(None) => Ok(None),
            Err(fault) => Err(fault),
        }),
{
    let address: usize = word::to_address(ptr);
    if address > usize::MAX - 4 {
        return Err(Fault::AddressOverflow);
    }
    Ok(frame::read_length_prefixed_string(data, address))
}

/// The string that a guest pointer leads to, or the empty string.
fn read_text_or_empty(data: &[u8], ptr: i32) -> (r: Result<String, Fault>)
    ensures
        match r {
            Ok(s) => text_at(data@, ptr) matches Ok(text) && s@ == or_empty(text),
            Err(fault) => text_at(data@, ptr) == Err::<Option<Seq<char>>, Fault>(fault),
        },
{
    match read_text(data, ptr) {
        Ok(Some(s)) => Ok(s),
        Ok(None) => Ok(String::new()),
        Err(fault) => Err(fault),
    }
}

/// A message of the host function called `name`.
pub open spec fn message(name: Seq<char>, text: Seq<char>) -> Seq<char> {
    name + text + "\n"@
}

/// A message of the host function called `name`.
fn message_of(name: &str, text: &str) -> (r: String)
    ensures
        r@ == message(name@, text@),
{
    let mut r = name.to_owned();
    r.append(text);
    r.append("\n");
    r
}

/// Concatenation: both strings must be readable, the first is read first.
pub open spec fn concat_plan(data: Seq<u8>, name: Seq<char>, ptr1: i32, ptr2: i32) -> Plan {
    match text_at(data, ptr1) {
        Err(_) => Plan::Fault,
        Ok(None) => Plan::Quit(message(name, ": ptr1 out of bounds or invalid UTF-8"@)),
        Ok(Some(first)) => match text_at(data, ptr2) {
            Err(_) => Plan::Fault,
            Ok(None) => Plan::Quit(message(name, ": ptr2 out of bounds or invalid UTF-8"@)),
            Ok(Some(second)) => Plan::Store(first + second),
        },
    }
}

/// Plans a concatenation.
pub fn plan_concat(data: &[u8], name: &str, ptr1: i32, ptr2: i32) -> (r: Action)
    ensures
        r@ == concat_plan(data@, name@, ptr1, ptr2),
{
    let first = match read_text(data, ptr1) {
        Ok(Some(s)) => s,
        Ok(None) => {
            return Action::Quit(message_of(name, ": ptr1 out of bounds or invalid UTF-8"));
        },
        Err(_) => {
            return Action::Fault;
        },
    };
    let second = match read_text(data, ptr2) {
        Ok(Some(s)) => s,
        Ok(None) => {
            return Action::Quit(message_of(name, ": ptr2 out of bounds or invalid UTF-8"));
        },
        Err(_) => {
            return Action::Fault;
        },
    };
    Action::Store(first.concat(second.as_str()))
}

/// Stores the concatenation of two strings. `name` is the name under which the
/// guest calls this function.
pub fn string_concat(
    caller: &mut Caller<'_, ()>,
    host: &mut Host,
    name: &str,
    ptr1: i32,
    ptr2: i32,
) -> (r: Result<i32, Fault>)
    ensures
        match guest::guest_bytes(*old(caller)) {
            None => carried_out(
                Plan::Quit(message(name@, ": Failed to get memory"@)),
                *old(caller),
                *final(caller),
                *old(host),
                *final(host),
                r,
            ),
            Some(data) => carried_out(
                concat_plan(data, name@, ptr1, ptr2),
                *old(caller),
                *final(caller),
                *old(host),
                *final(host),
                r,
            ),
        },
{
    match guest::guest_memory(caller) {
        None => {
            host.console.complain(message_of(name, ": Failed to get memory").as_str());
            Ok(0)
        },
        Some(memory) => {
            let action = plan_concat(guest::memory_data(&memory, caller), name, ptr1, ptr2);
            carry_out(action, &memory, caller, host)
        },
    }
}

/// Replacement: an unreadable string counts as empty.
pub open spec fn replace_plan(
    data: Seq<u8>,
    string_ptr: i32,
    search_ptr: i32,
    replace_ptr: i32,
) -> Plan {
    match (text_at(data, string_ptr), text_at(data, search_ptr), text_at(data, replace_ptr)) {
        (Ok(source), Ok(search), Ok(replacement)) => Plan::Store(
            text::replaced(or_empty(source), or_empty(search), or_empty(replacement)),
        ),
        _ => Plan::Fault,
    }
}

/// Plans a replacement.
pub fn plan_replace(data: &[u8], string_ptr: i32, search_ptr: i32, replace_ptr: i32) -> (r: Action)
    ensures
        r@ == replace_plan(data@, string_ptr, search_ptr, replace_ptr),
{
    match (
        read_text_or_empty(data, string_ptr),
        read_text_or_empty(data, search_ptr),
        read_text_or_empty(data, replace_ptr),
    ) {
        (Ok(source), Ok(search), Ok(replacement)) => Action::Store(
            text::replace(source.as_str(), search.as_str(), replacement.as_str()),
        ),
        _ => Action::Fault,
    }
}

/// Stores a string with every occurrence of a search string replaced.
pub fn string_replace(
    caller: &mut Caller<'_, ()>,
    host: &mut Host,
    string_ptr: i32,
    search_ptr: i32,
    replace_ptr: i32,
) -> (r: Result<i32, Fault>)
    ensures
        carried_out(
            match guest::guest_bytes(*old(caller)) {
                None => Plan::Quit(Seq::empty()),
                Some(data) => replace_plan(data, string_ptr, search_ptr, replace_ptr),
            },
            *old(caller),
            *final(caller),
            *old(host),
            *final(host),
            r,
        ),
{
    match guest::guest_memory(caller) {
        None => {
            assert(host.console@ == host.console@.complained(Seq::empty()));
            Ok(0)
        },
        Some(memory) => {
            let action = plan_replace(guest::memory_data(&memory, caller), string_ptr, search_ptr, replace_ptr);
            carry_out(action, &memory, caller, host)
        },
    }
}

/// The ends of a string that are to be freed of white space.
#[derive(Clone, Copy, Debug, PartialEq, Eq, Structural)]
pub enum Ends {
    Both,
    Start,
    End,
}

/// The string without white space at the chosen ends.
pub open spec fn trimmed_at(ends: Ends, s: Seq<char>) -> Seq<char> {
    match ends {
        Ends::Both => text::trimmed(s),
        Ends::Start => text::trimmed_start(s),
        Ends::End => text::trimmed_end(s),
    }
}

/// Trimming: the string must be readable.
pub open spec fn trim_plan(data: Seq<u8>, ends: Ends, ptr: i32) -> Plan {
    match text_at(data, ptr) {
        Err(_) => Plan::Fault,
        Ok(None) => Plan::Quit(Seq::empty()),
        Ok(Some(s)) => Plan::Store(trimmed_at(ends, s)),
    }
}

/// Plans trimming a string.
pub fn plan_trim(data: &[u8], ends: Ends, ptr: i32) -> (r: Action)
    ensures
        r@ == trim_plan(data@, ends, ptr),
{
    match read_text(data, ptr) {
        Err(_) => Action::Fault,
        Ok(None) => Action::Quit(String::new()),
        Ok(Some(s)) => Action::Store(
            match ends {
                Ends::Both => text::trim(s.as_str()),
                Ends::Start => text::trim_start(s.as_str()),
                Ends::End => text::trim_end(s.as_str()),
            },
        ),
    }
}

/// Stores a string without the white space at the chosen ends.
fn trim_at(caller: &mut Caller<'_, ()>, host: &mut Host, ends: Ends, ptr: i32) -> (r: Result<
    i32,
    Fault,
>)
    ensures
        carried_out(
            match guest::guest_bytes(*old(caller)) {
                None => Plan::Quit(Seq::empty()),
                Some(data) => trim_plan(data, ends, ptr),
            },
            *old(caller),
            *final(caller),
            *old(host),
            *final(host),
            r,
        ),
{
    match guest::guest_memory(caller) {
        None => {
            assert(host.console@ == host.console@.complained(Seq::empty()));
            Ok(0)
        },
        Some(memory) => {
            let action = plan_trim(guest::memory_data(&memory, caller), ends, ptr);
            carry_out(action, &memory, caller, host)
        },
    }
}

/// Stores a string without white space at either end.
pub fn string_trim(caller: &mut Caller<'_, ()>, host: &mut Host, ptr: i32) -> (r: Result<
    i32,
    Fault,
>)
    ensures
        carried_out(
            match guest::guest_bytes(*old(caller)) {
                None => Plan::Quit(Seq::empty()),
                Some(data) => trim_plan(data, Ends::Both, ptr),
            },
            *old(caller),
            *final(caller),
            *old(host),
            *final(host),
            r,
        ),
{
    trim_at(caller, host, Ends::Both, ptr)
}

/// Stores a string without its leading white space.
pub fn string_trim_start(caller: &mut Caller<'_, ()>, host: &mut Host, ptr: i32) -> (r: Result<
    i32,
    Fault,
>)
    ensures
        carried_out(
            match guest::guest_bytes(*old(caller)) {
                None => Plan::Quit(Seq::empty()),
                Some(data) => trim_plan(data, Ends::Start, ptr),
            },
            *old(caller),
            *final(caller),
            *old(host),
            *final(host),
            r,
        ),
{
    trim_at(caller, host, Ends::Start, ptr)
}

/// Stores a string without its trailing white space.
pub fn string_trim_end(caller: &mut Caller<'_, ()>, host: &mut Host, ptr: i32) -> (r: Result<
    i32,
    Fault,
>)
    ensures
        carried_out(
            match guest::guest_bytes(*old(caller)) {
                None => Plan::Quit(Seq::empty()),
                Some(data) => trim_plan(data, Ends::End, ptr),
            },
            *old(caller),
            *final(caller),
            *old(host),
            *final(host),
            r,
        ),
{
    trim_at(caller, host, Ends::End, ptr)
}

/// Splitting: both strings must be readable, the first is read first.
pub open spec fn split_plan(data: Seq<u8>, string_ptr: i32, delimiter_ptr: i32) -> Plan {
    match text_at(data, string_ptr) {
        Err(_) => Plan::Fault,
        Ok(None) => Plan::Quit(Seq::empty()),
        Ok(Some(s)) => match text_at(data, delimiter_ptr) {
            Err(_) => Plan::Fault,
            Ok(None) => Plan::Quit(Seq::empty()),
            Ok(Some(delimiter)) => Plan::List(text::pieces(s, delimiter)),
        },
    }
}

/// Plans splitting a string.
pub fn plan_split(data: &[u8], string_ptr: i32, delimiter_ptr: i32) -> (r: Action)
    ensures
        r@ == split_plan(data@, string_ptr, delimiter_ptr),
{
    let s = match read_text(data, string_ptr) {
        Ok(Some(s)) => s,
        Ok(None) => {
            return Action::Quit(String::new());
        },
        Err(_) => {
            return Action::Fault;
        },
    };
    match read_text(data, delimiter_ptr) {
        Ok(Some(delimiter)) => Action::List(text::split(s.as_str(), delimiter.as_str())),
        Ok(None) => Action::Quit(String::new()),
        Err(_) => Action::Fault,
    }
}

/// Stores the list of the pieces of a string. `name` is the name under which the
/// guest calls this function.
pub fn string_split(
    caller: &mut Caller<'_, ()>,
    host: &mut Host,
    name: &str,
    string_ptr: i32,
    delimiter_ptr: i32,
) -> (r: Result<i32, Fault>)
    ensures
        match guest::guest_bytes(*old(caller)) {
            None => carried_out(
                Plan::Quit(message(name@, ": no memory"@)),
                *old(caller),
                *final(caller),
                *old(host),
                *final(host),
                r,
            ),
            Some(data) => carried_out(
                split_plan(data, string_ptr, delimiter_ptr),
                *old(caller),
                *final(caller),
                *old(host),
                *final(host),
                r,
            ),
        },
{
    match guest::guest_memory(caller) {
        None => {
            host.console.complain(message_of(name, ": no memory").as_str());
            Ok(0)
        },
        Some(memory) => {
            let action = plan_split(
                guest::memory_data(&memory, caller),
                string_ptr,
                delimiter_ptr,
            );
            carry_out(action, &memory, caller, host)
        },
    }
}

/// Repetition: the string must be readable; a negative count means none.
pub open spec fn repeat_plan(data: Seq<u8>, ptr: i32, count: i32) -> Plan {
    match text_at(data, ptr) {
        Err(_) => Plan::Fault,
        Ok(None) => Plan::Quit(Seq::empty()),
        Ok(Some(s)) => Plan::Store(
            text::repeated(
                s,
                if count > 0 {
                    count as nat
                } else {
                    0
                },
            ),
        ),
    }
}

/// Plans a repetition.
pub fn plan_repeat(data: &[u8], ptr: i32, count: i32) -> (r: Action)
    ensures
        r@ == repeat_plan(data@, ptr, count),
{
    match read_text(data, ptr) {
        Err(_) => Action::Fault,
        Ok(None) => Action::Quit(String::new()),
        Ok(Some(s)) => {
            let times: usize = if count > 0 {
                count as usize
            } else {
                0
            };
            Action::Store(text::repeat(s.as_str(), times))
        },
    }
}

/// Stores `count` copies of a string. The length that the guest passes along
/// plays no part: the string carries its own.
pub fn string_repeat(
    caller: &mut Caller<'_, ()>,
    host: &mut Host,
    ptr: i32,
    _len: i32,
    count: i32,
) -> (r: Result<i32, Fault>)
    ensures
        carried_out(
            match guest::guest_bytes(*old(caller)) {
                None => Plan::Quit(Seq::empty()),
                Some(data) => repeat_plan(data, ptr, count),
            },
            *old(caller),
            *final(caller),
            *old(host),
            *final(host),
            r,
        ),
{
    match guest::guest_memory(caller) {
        None => {
            assert(host.console@ == host.console@.complained(Seq::empty()));
            Ok(0)
        },
        Some(memory) => {
            let action = plan_repeat(guest::memory_data(&memory, caller), ptr, count);
            carry_out(action, &memory, caller, host)
        },
    }
}

/// Stores a text that the host has at hand, such as a number in writing.
pub fn store_text(caller: &mut Caller<'_, ()>, host: &mut Host, text: &str) -> (r: Result<
    i32,
    Fault,
>)
    ensures
        carried_out(
            match guest::guest_bytes(*old(caller)) {
                None => Plan::Quit(Seq::empty()),
                Some(data) => Plan::Store(text@),
            },
            *old(caller),
            *final(caller),
            *old(host),
            *final(host),
            r,
        ),
{
    match guest::guest_memory(caller) {
        None => {
            assert(host.console@ == host.console@.complained(Seq::empty()));
            Ok(0)
        },
        Some(memory) => {
            let action = Action::Store(text.to_owned());
            carry_out(action, &memory, caller, host)
        },
    }
}

/// Stores a whole number in decimal.
pub fn int_to_string(caller: &mut Caller<'_, ()>, host: &mut Host, value: i32) -> (r: Result<
    i32,
    Fault,
>)
    ensures
        carried_out(
            match guest::guest_bytes(*old(caller)) {
                None => Plan::Quit(Seq::empty()),
                Some(data) => Plan::Store(text::decimal(value as int)),
            },
            *old(caller),
            *final(caller),
            *old(host),
            *final(host),
            r,
        ),
{
    store_text(caller, host, text::decimal_of(value as i64).as_str())
}

/// Stores the word for a truth value.
pub fn bool_to_string(caller: &mut Caller<'_, ()>, host: &mut Host, value: i32) -> (r: Result<
    i32,
    Fault,
>)
    ensures
        carried_out(
            match guest::guest_bytes(*old(caller)) {
                None => Plan::Quit(Seq::empty()),
                Some(data) => Plan::Store(text::truth_word(value as int)),
            },
            *old(caller),
            *final(caller),
            *old(host),
            *final(host),
            r,
        ),
{
    store_text(caller, host, text::truth_word_of(value).as_str())
}

/// Comparison: zero for equal strings, one for different ones. An unreadable
/// string counts as empty.
pub open spec fn comparison(data: Seq<u8>, ptr1: i32, ptr2: i32) -> Result<i32, Fault> {
    match (text_at(data, ptr1), text_at(data, ptr2)) {
        (Ok(first), Ok(second)) => if or_empty(first) == or_empty(second) {
            Ok(0)
        } else {
            Ok(1)
        },
        _ => Err(Fault::AddressOverflow),
    }
}

/// Compares two strings in the guest's memory.
pub fn compare_texts(data: &[u8], ptr1: i32, ptr2: i32) -> (r: Result<i32, Fault>)
    ensures
        r == comparison(data@, ptr1, ptr2),
{
    match (read_text_or_empty(data, ptr1), read_text_or_empty(data, ptr2)) {
        (Ok(first), Ok(second)) => if first == second {
            Ok(0)
        } else {
            Ok(1)
        },
        _ => Err(Fault::AddressOverflow),
    }
}

/// Compares two strings: zero for equal, one for different.
pub fn string_compare(caller: &mut Caller<'_, ()>, ptr1: i32, ptr2: i32) -> (r: Result<i32, Fault>)
    ensures
        guest::same_guest(*old(caller), *final(caller)),
        r == (match guest::guest_bytes(*old(caller)) {
            None => Ok(0),
            Some(data) => comparison(data, ptr1, ptr2),
        }),
{
    match guest::guest_memory(caller) {
        None => Ok(0),
        Some(memory) => compare_texts(guest::memory_data(&memory, caller), ptr1, ptr2),
    }
}

/// Pattern check: one where the string passes the check that the pattern names,
/// else zero. An unreadable string counts as empty.
pub open spec fn pattern_check(data: Seq<u8>, str_ptr: i32, pat_ptr: i32) -> Result<i32, Fault> {
    match (text_at(data, str_ptr), text_at(data, pat_ptr)) {
        (Ok(s), Ok(pattern)) => if text::fits_pattern(or_empty(s), or_empty(pattern)) {
            Ok(1)
        } else {
            Ok(0)
        },
        _ => Err(Fault::AddressOverflow),
    }
}

/// Checks a string in the guest's memory against a named pattern.
pub fn check_pattern(data: &[u8], str_ptr: i32, pat_ptr: i32) -> (r: Result<i32, Fault>)
    ensures
        r == pattern_check(data@, str_ptr, pat_ptr),
{
    match (read_text_or_empty(data, str_ptr), read_text_or_empty(data, pat_ptr)) {
        (Ok(s), Ok(pattern)) => if text::matches_pattern(s.as_str(), pattern.as_str()) {
            Ok(1)
        } else {
            Ok(0)
        },
        _ => Err(Fault::AddressOverflow),
    }
}

/// Checks a string against a named pattern. The lengths that the guest passes
/// along play no part: the strings carry their own.
pub fn string_matches(
    caller: &mut Caller<'_, ()>,
    str_ptr: i32,
    _str_len: i32,
    pat_ptr: i32,
    _pat_len: i32,
) -> (r: Result<i32, Fault>)
    ensures
        guest::same_guest(*old(caller), *final(caller)),
        r == (match guest::guest_bytes(*old(caller)) {
            None => Ok(0),
            Some(data) => pattern_check(data, str_ptr, pat_ptr),
        }),
{
    match guest::guest_memory(caller) {
        None => Ok(0),
        Some(memory) => check_pattern(guest::memory_data(&memory, caller), str_ptr, pat_ptr),
    }
}

/// What a host function has stored is what the guest's pointer leads to, as long
/// as the block lies in the lower two gibibytes.
pub proof fn law_result_leads_to_text(
    caller: Caller<'_, ()>,
    caller_after: Caller<'_, ()>,
    host: Host,
    host_after: Host,
    text: Seq<char>,
    r: Result<i32, Fault>,
)
    requires
        guest::guest_bytes(caller) is Some,
        carried_out(Plan::Store(text), caller, caller_after, host, host_after, r),
        guest::block_start(caller, host) < 0x8000_0000,
        vstd::utf8::encode_utf8(text).len() < 0x1_0000_0000,
        r is Ok,
        !guest::growth_refused(
            guest::guest_bytes(caller)->0,
            guest::guest_bytes(caller_after)->0,
            guest::block_end(caller, host, text),
        ),
    ensures
        guest::guest_bytes(caller_after) is Some,
        text_at(guest::guest_bytes(caller_after)->0, r->Ok_0) == Ok::<
            Option<Seq<char>>,
            Fault,
        >(Some(text)),
{
    let memory = guest::memory_of(caller)->0;
    assert(guest::memory_of(caller_after) == guest::memory_of(caller));
    guest::law_stored_text_reads_back(
        caller,
        caller_after,
        memory,
        host,
        host_after,
        text,
        r,
    );
}

/// Comparing a string with itself finds it equal, and the order of two strings
/// does not matter.
pub proof fn law_comparison(data: Seq<u8>, ptr1: i32, ptr2: i32)
    ensures
        comparison(data, ptr1, ptr2) == comparison(data, ptr2, ptr1),
        text_at(data, ptr1) is Ok ==> comparison(data, ptr1, ptr1) == Ok::<i32, Fault>(0),
{
}

/// A list that a host function has stored below two gibibytes is what the guest's
/// pointer leads to: its length, capacity and kind, the spare word of zero, and
/// one pointer per element, each leading to its string.
pub proof fn law_result_leads_to_list(
    caller: Caller<'_, ()>,
    caller_after: Caller<'_, ()>,
    host: Host,
    host_after: Host,
    parts: Seq<Seq<char>>,
    r: Result<i32, Fault>,
)
    requires
        guest::guest_bytes(caller) is Some,
        carried_out(Plan::List(parts), caller, caller_after, host, host_after, r),
        list::list_end(guest::block_start(caller, host), parts) < 0x8000_0000,
        r is Ok,
    ensures
        guest::guest_bytes(caller_after) is Some,
        ({
            let after = guest::guest_bytes(caller_after)->0;
            let at = word::address_of(r->Ok_0);
            &&& word::le_word(after, at) == parts.len()
            &&& word::le_word(after, at + 4) == parts.len()
            &&& word::le_word(after, at + 8) == list::STRING_KIND
            &&& word::le_word(after, at + 12) == 0
            &&& forall|i: int|
                0 <= i < parts.len() ==> text_at(
                    after,
                    word::pointer_of(#[trigger] word::le_word(after, at + 16 + 4 * i)) as i32,
                ) == Ok::<Option<Seq<char>>, Fault>(Some(parts[i]))
        }),
{
    let memory = guest::memory_of(caller)->0;
    let start = guest::block_start(caller, host);
    assert(guest::memory_of(caller_after) == guest::memory_of(caller));
    crate::arena::law_offset_is_address(host.arena);
    list::lemma_strings_inside(start, parts);
    list::law_stored_list_reads_back(caller, caller_after, memory, host, host_after, parts, r);
    let after = guest::guest_bytes(caller_after)->0;
    assert forall|i: int| 0 <= i < parts.len() implies text_at(
        after,
        word::pointer_of(#[trigger] word::le_word(after, start + 16 + 4 * i)) as i32,
    ) == Ok::<Option<Seq<char>>, Fault>(Some(parts[i])) by {
        let place = list::string_address(start, parts, i);
        assert(word::le_word(after, start + 16 + 4 * i) == place);
        word::law_pointer_round_trip(place);
    }
}

} // verus!
