//! The host functions that reach into arrays and number lists of the guest.

use crate::guest;
use crate::host::{Fault, Host};
use crate::text;
use crate::word;
use vstd::prelude::*;
use vstd::string::*;
use wasmtime::Caller;

verus! {

/// Why an element cannot be had.
#[derive(Clone, Copy, Debug, PartialEq, Eq, Structural)]
pub enum ArrayError {
    /// The array's header reaches past the address range.
    AddressOverflow,
    /// The array's header reaches past the memory.
    InvalidPointer,
    /// The array, which has the given length, has no such element.
    IndexOutOfBounds(i32),
    /// The element lies past the memory.
    OutOfMemoryBounds,
}

/// The length that the array at `at` states: the word behind a reference count, a
/// kind, a size and one byte of flags.
pub open spec fn array_length(data: Seq<u8>, at: int) -> i32 {
    word::pointer_of(word::le_word(data, at + 13)) as i32
}

/// The element `index` of the array that `array_ptr` leads to.
pub open spec fn element(data: Seq<u8>, array_ptr: i32, index: i32) -> Result<i32, ArrayError> {
    let at = word::address_of(array_ptr);
    if at + 17 > usize::MAX {
        Err(ArrayError::AddressOverflow)
    } else if at + 17 > data.len() {
        Err(ArrayError::InvalidPointer)
    } else if index < 0 || index >= array_length(data, at) {
        Err(ArrayError::IndexOutOfBounds(array_length(data, at)))
    } else if at + 17 + 4 * index + 4 > data.len() {
        Err(ArrayError::OutOfMemoryBounds)
    } else {
        Ok(word::pointer_of(word::le_word(data, at + 17 + 4 * index)) as i32)
    }
}

/// Reads the element `index` of the array that `array_ptr` leads to.
pub fn array_element(data: &[u8], array_ptr: i32, index: i32) -> (r: Result<i32, ArrayError>)
    ensures
        r == element(data@, array_ptr, index),
{
    let at: usize = word::to_address(array_ptr);
    if at > usize::MAX - 17 {
        return Err(ArrayError::AddressOverflow);
    }
    if at + 17 > data.len() {
        return Err(ArrayError::InvalidPointer);
    }
    let length: i32 = word::word_to_pointer(word::read_word(data, at + 13));
    if index < 0 || index >= length {
        return Err(ArrayError::IndexOutOfBounds(length));
    }
    let room: usize = data.len() - (at + 17);
    if (room as u64) < 4 * (index as u64) + 4 {
        return Err(ArrayError::OutOfMemoryBounds);
    }
    Ok(word::word_to_pointer(word::read_word(data, at + 17 + 4 * index as usize)))
}

/// What is printed where an element cannot be had.
pub open spec fn array_complaint(error: ArrayError, array_ptr: i32, index: i32) -> Seq<char> {
    match error {
        ArrayError::AddressOverflow => Seq::empty(),
        ArrayError::InvalidPointer => "[array_get: invalid array pointer "@ + text::decimal(
            array_ptr as int,
        ) + "]\n"@,
        ArrayError::IndexOutOfBounds(length) => "[array_get: index "@ + text::decimal(
            index as int,
        ) + " out of bounds for array of length "@ + text::decimal(length as int) + "]\n"@,
        ArrayError::OutOfMemoryBounds => "[array_get: element access out of memory bounds]\n"@,
    }
}

/// What is to be printed where an element cannot be had.
pub fn array_complaint_of(error: ArrayError, array_ptr: i32, index: i32) -> (r: String)
    ensures
        r@ == array_complaint(error, array_ptr, index),
{
    match error {
        ArrayError::AddressOverflow => String::new(),
        ArrayError::InvalidPointer => {
            let mut r = "[array_get: invalid array pointer ".to_owned();
            r.append(text::decimal_of(array_ptr as i64).as_str());
            r.append("]\n");
            r
        },
        ArrayError::IndexOutOfBounds(length) => {
            let mut r = "[array_get: index ".to_owned();
            r.append(text::decimal_of(index as i64).as_str());
            r.append(" out of bounds for array of length ");
            r.append(text::decimal_of(length as i64).as_str());
            r.append("]\n");
            r
        },
        ArrayError::OutOfMemoryBounds => {
            "[array_get: element access out of memory bounds]\n".to_owned()
        },
    }
}

/// Reading an element of an array, from the state before to the state after: the
/// element, or zero and a complaint on standard output where there is none.
pub open spec fn element_read(
    caller: Caller<'_, ()>,
    caller_after: Caller<'_, ()>,
    host: Host,
    host_after: Host,
    array_ptr: i32,
    index: i32,
    r: Result<i32, Fault>,
) -> bool {
    &&& guest::same_guest(caller, caller_after)
    &&& host_after.arena@ == host.arena@
    &&& match guest::guest_bytes(caller) {
        None => {
            &&& r == Ok::<i32, Fault>(0)
            &&& host_after.console@ == host.console@.said(
                "[array_get: no memory export]\n"@,
            )
        },
        Some(data) => match element(data, array_ptr, index) {
            Ok(value) => {
                &&& r == Ok::<i32, Fault>(value)
                &&& host_after.console@ == host.console@
            },
            Err(ArrayError::AddressOverflow) => {
                &&& r == Err::<i32, Fault>(Fault::AddressOverflow)
                &&& host_after.console@ == host.console@
            },
            Err(error) => {
                &&& r == Ok::<i32, Fault>(0)
                &&& host_after.console@ == host.console@.said(
                    array_complaint(error, array_ptr, index),
                )
            },
        },
    }
}

/// Reads an element of an array: zero, and a complaint on standard output, where
/// there is none.
pub fn array_get(caller: &mut Caller<'_, ()>, host: &mut Host, array_ptr: i32, index: i32) -> (r:
    Result<i32, Fault>)
    ensures
        element_read(*old(caller), *final(caller), *old(host), *final(host), array_ptr, index, r),
{
    match guest::guest_memory(caller) {
        None => {
            host.console.say("[array_get: no memory export]\n");
            Ok(0)
        },
        Some(memory) => match array_element(
            guest::memory_data(&memory, caller),
            array_ptr,
            index,
        ) {
            Ok(value) => Ok(value),
            Err(ArrayError::AddressOverflow) => Err(Fault::AddressOverflow),
            Err(error) => {
                host.console.say(array_complaint_of(error, array_ptr, index).as_str());
                Ok(0)
            },
        },
    }
}

/// Why a number cannot be appended.
#[derive(Clone, Copy, Debug, PartialEq, Eq, Structural)]
pub enum PushError {
    /// The list's header reaches past the address range.
    AddressOverflow,
    /// The list's header reaches past the memory.
    InvalidPointer,
    /// The new element would lie past the memory.
    OutOfMemoryBounds,
}

/// The eight little-endian bytes of a 64-bit word.
pub open spec fn le_bytes_long(bits: int) -> Seq<u8> {
    word::le_bytes(bits % 0x1_0000_0000) + word::le_bytes(bits / 0x1_0000_0000)
}

/// Where the element `index` of a list of numbers at `at` lies.
pub open spec fn number_address(at: int, index: int) -> int {
    at + 16 + 8 * index
}

/// The memory after a number was appended to the list that `array_ptr` leads to:
/// the number, given by its bits, behind the last element, and the length one
/// higher.
pub open spec fn appended(data: Seq<u8>, array_ptr: i32, bits: u64) -> Result<
    Seq<u8>,
    PushError,
> {
    let at = word::address_of(array_ptr);
    let length = word::le_word(data, at);
    if at + 16 > usize::MAX {
        Err(PushError::AddressOverflow)
    } else if at + 16 > data.len() {
        Err(PushError::InvalidPointer)
    } else if number_address(at, length) + 8 > data.len() {
        Err(PushError::OutOfMemoryBounds)
    } else {
        Ok(
            word::overwrite(
                word::overwrite(data, number_address(at, length), le_bytes_long(bits as int)),
                at,
                word::le_bytes(length + 1),
            ),
        )
    }
}

/// Appends a number, given by its bits, to the list that `array_ptr` leads to.
pub fn append_number(data: &mut [u8], array_ptr: i32, bits: u64) -> (r: Result<(), PushError>)
    ensures
        match appended(old(data)@, array_ptr, bits) {
            Ok(after) => r is Ok && final(data)@ == after,
            Err(error) => r == Err::<(), PushError>(error) && final(data)@ == old(data)@,
        },
{
    let at: usize = word::to_address(array_ptr);
    let size: usize = data.len();
    if at > usize::MAX - 16 {
        return Err(PushError::AddressOverflow);
    }
    if at + 16 > size {
        return Err(PushError::InvalidPointer);
    }
    let length: u32 = word::read_word(data, at);
    let room: usize = size - (at + 16);
    if (room as u64) < 8 * (length as u64) + 8 {
        return Err(PushError::OutOfMemoryBounds);
    }
    let place: usize = at + 16 + 8 * length as usize;
    let low: u32 = (bits % 0x1_0000_0000) as u32;
    let high: u32 = (bits / 0x1_0000_0000) as u32;
    proof {
        word::lemma_overwrite_adjacent(
            data@,
            place as int,
            word::le_bytes(low as int),
            word::le_bytes(high as int),
        );
        word::lemma_bytes_of_low_word(length + 1);
    }
    word::write_word(data, place, low);
    word::write_word(data, place + 4, high);
    let longer: u32 = if length == 0xffff_ffff {
        0
    } else {
        length + 1
    };
    word::write_word(data, at, longer);
    Ok(())
}

/// What is printed where a number cannot be appended.
pub open spec fn push_complaint(error: PushError, array_ptr: i32) -> Seq<char> {
    match error {
        PushError::AddressOverflow => Seq::empty(),
        PushError::InvalidPointer => "[list.push_f64: invalid pointer "@ + text::decimal(
            array_ptr as int,
        ) + "]\n"@,
        PushError::OutOfMemoryBounds => "[list.push_f64: out of memory bounds]\n"@,
    }
}

/// What is to be printed where a number cannot be appended.
pub fn push_complaint_of(error: PushError, array_ptr: i32) -> (r: String)
    ensures
        r@ == push_complaint(error, array_ptr),
{
    match error {
        PushError::AddressOverflow => String::new(),
        PushError::InvalidPointer => {
            let mut r = "[list.push_f64: invalid pointer ".to_owned();
            r.append(text::decimal_of(array_ptr as i64).as_str());
            r.append("]\n");
            r
        },
        PushError::OutOfMemoryBounds => "[list.push_f64: out of memory bounds]\n".to_owned(),
    }
}

/// Appending a number to a list, from the state before to the state after: the
/// pointer to the list comes back, and where the number cannot be appended, there
/// is a complaint on standard error and the memory stays as it was.
pub open spec fn number_pushed(
    caller: Caller<'_, ()>,
    caller_after: Caller<'_, ()>,
    host: Host,
    host_after: Host,
    array_ptr: i32,
    bits: u64,
    r: Result<i32, Fault>,
) -> bool {
    &&& guest::same_exports(caller, caller_after)
    &&& guest::same_globals(caller, caller_after)
    &&& host_after.arena@ == host.arena@
    &&& match guest::guest_bytes(caller) {
        None => {
            &&& r == Ok::<i32, Fault>(array_ptr)
            &&& guest::same_memories(caller, caller_after)
            &&& host_after.console@ == host.console@.complained(
                "[list.push_f64: no memory export]\n"@,
            )
        },
        Some(data) => match appended(data, array_ptr, bits) {
            Ok(after) => {
                &&& r == Ok::<i32, Fault>(array_ptr)
                &&& guest::guest_bytes(caller_after) == Some(after)
                &&& host_after.console@ == host.console@
            },
            Err(PushError::AddressOverflow) => {
                &&& r == Err::<i32, Fault>(Fault::AddressOverflow)
                &&& guest::guest_bytes(caller_after) == Some(data)
                &&& host_after.console@ == host.console@
            },
            Err(error) => {
                &&& r == Ok::<i32, Fault>(array_ptr)
                &&& guest::guest_bytes(caller_after) == Some(data)
                &&& host_after.console@ == host.console@.complained(
                    push_complaint(error, array_ptr),
                )
            },
        },
    }
}

/// Appends a floating-point number, given by its bits, to a list, and returns the
/// pointer to the list. Where that cannot be done, there is a complaint on
/// standard error and the memory stays as it was.
pub fn list_push_f64(caller: &mut Caller<'_, ()>, host: &mut Host, array_ptr: i32, bits: u64) -> (r:
    Result<i32, Fault>)
    ensures
        number_pushed(*old(caller), *final(caller), *old(host), *final(host), array_ptr, bits, r),
{
    match guest::guest_memory(caller) {
        None => {
            host.console.complain("[list.push_f64: no memory export]\n");
            Ok(array_ptr)
        },
        Some(memory) => {
            let outcome = append_number(
                guest::memory_data_mut(&memory, caller),
                array_ptr,
                bits,
            );
            match outcome {
                Ok(()) => Ok(array_ptr),
                Err(PushError::AddressOverflow) => Err(Fault::AddressOverflow),
                Err(error) => {
                    host.console.complain(push_complaint_of(error, array_ptr).as_str());
                    Ok(array_ptr)
                },
            }
        },
    }
}

/// A number that was appended stands behind the elements that were there, which
/// stay as they were, and the list is one element longer.
pub proof fn law_append(data: Seq<u8>, array_ptr: i32, bits: u64)
    requires
        appended(data, array_ptr, bits) is Ok,
        word::le_word(data, word::address_of(array_ptr)) + 1 < 0x1_0000_0000,
    ensures
        ({
            let at = word::address_of(array_ptr);
            let length = word::le_word(data, at);
            let after = appended(data, array_ptr, bits)->Ok_0;
            &&& word::le_word(after, at) == length + 1
            &&& after.subrange(
                number_address(at, length),
                number_address(at, length + 1),
            ) == le_bytes_long(bits as int)
            &&& after.subrange(at + 4, number_address(at, length)) == data.subrange(
                at + 4,
                number_address(at, length),
            )
        }),
{
    let at = word::address_of(array_ptr);
    let length = word::le_word(data, at);
    let after = appended(data, array_ptr, bits)->Ok_0;
    let place = number_address(at, length);
    let grown = word::overwrite(data, place, le_bytes_long(bits as int));
    word::law_word_round_trip(grown, at, length + 1);
    assert(after.subrange(place, number_address(at, length + 1)) == le_bytes_long(bits as int));
    assert(after.subrange(at + 4, place) == data.subrange(at + 4, place));
}

} // verus!
