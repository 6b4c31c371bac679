//! Lists of strings in the guest's memory.
//!
//! A list is a header of four words, its length, its capacity, the kind of its
//! elements and a spare word, followed by one pointer per element. The strings
//! that the pointers lead to, each behind its length, follow the pointers.

use crate::frame;
use crate::guest;
use crate::host::{Fault, Host};
use crate::text;
use crate::word;
use vstd::prelude::*;
use vstd::string::*;
use wasmtime::{Caller, Memory};

verus! {

broadcast use crate::guest::lemma_denial_carries;

/// The kind of element that a list of strings holds.
pub const STRING_KIND: u32 = 3;

/// The bytes that the first `count` strings take up.
pub open spec fn strings_size(parts: Seq<Seq<char>>, count: int) -> int
    decreases count,
{
    if count <= 0 {
        0
    } else {
        strings_size(parts, count - 1) + frame::frame(parts[count - 1]).len()
    }
}

/// Where the string at `index` is to be stored.
pub open spec fn string_address(start: int, parts: Seq<Seq<char>>, index: int) -> int {
    start + 16 + 4 * parts.len() + strings_size(parts, index)
}

/// Where the list and its strings end.
pub open spec fn list_end(start: int, parts: Seq<Seq<char>>) -> int {
    string_address(start, parts, parts.len() as int)
}

/// The header of the list.
pub open spec fn header(parts: Seq<Seq<char>>) -> Seq<u8> {
    word::le_bytes(parts.len() as int) + word::le_bytes(parts.len() as int) + word::le_bytes(
        STRING_KIND as int,
    ) + word::le_bytes(0)
}

/// `data` with the first `count` pointers of the list written.
pub open spec fn with_pointers(
    data: Seq<u8>,
    start: int,
    parts: Seq<Seq<char>>,
    count: int,
) -> Seq<u8>
    decreases count,
{
    if count <= 0 {
        data
    } else {
        word::overwrite(
            with_pointers(data, start, parts, count - 1),
            start + 16 + 4 * (count - 1),
            word::le_bytes(string_address(start, parts, count - 1)),
        )
    }
}

/// `data` with the first `count` strings of the list written, each where its
/// 32-bit pointer leads.
pub open spec fn with_strings(
    data: Seq<u8>,
    start: int,
    parts: Seq<Seq<char>>,
    count: int,
) -> Seq<u8>
    decreases count,
{
    if count <= 0 {
        data
    } else {
        word::overwrite(
            with_strings(data, start, parts, count - 1),
            word::low_word(string_address(start, parts, count - 1)),
            frame::frame(parts[count - 1]),
        )
    }
}

/// `data` with the whole list written at `start`.
pub open spec fn with_list(data: Seq<u8>, start: int, parts: Seq<Seq<char>>) -> Seq<u8> {
    let headed = word::overwrite(data, start, header(parts));
    let pointed = with_pointers(headed, start, parts, parts.len() as int);
    with_strings(pointed, start, parts, parts.len() as int)
}

/// Whether everything that makes up the list lies inside `size` bytes.
pub open spec fn list_fits(size: int, start: int, parts: Seq<Seq<char>>) -> bool {
    &&& start + 16 + 4 * parts.len() <= size
    &&& forall|i: int|
        0 <= i < parts.len() ==> word::low_word(#[trigger] string_address(start, parts, i))
            + frame::frame(parts[i]).len() <= size
}

/// The 32-bit bound past which both allocators continue after the list.
pub open spec fn list_bound(start: int, parts: Seq<Seq<char>>) -> int {
    word::low_word(word::align8(list_end(start, parts)))
}

/// Storing a list of strings in the guest's memory, from the state before to the
/// state after.
///
/// The list goes to where the host's next block starts. Both allocators then
/// continue at [`list_bound`], and the pointer to the list is the result. A
/// memory that ends short of the bound is extended first, if the memory allows it. It
/// is a fault where the list still does not fit, and where its end lies beyond
/// the address range.
pub open spec fn listed(
    caller: Caller<'_, ()>,
    caller_after: Caller<'_, ()>,
    memory: Memory,
    host: Host,
    host_after: Host,
    parts: Seq<Seq<char>>,
    r: Result<i32, Fault>,
) -> bool {
    let bytes = guest::memory_bytes(caller, memory)->0;
    let bytes_after = guest::memory_bytes(caller_after, memory)->0;
    let start = guest::block_start(caller, host);
    let bound = list_bound(start, parts);
    let room = if guest::growth_refused(bytes, bytes_after, bound) {
        bytes
    } else {
        guest::extended(bytes, bound)
    };
    &&& guest::memory_bytes(caller_after, memory) is Some
    &&& guest::same_exports(caller, caller_after)
    &&& host_after.console@ == host.console@
    &&& if list_end(start, parts) + 7 > usize::MAX {
        &&& r == Err::<i32, Fault>(Fault::AddressOverflow)
        &&& guest::same_guest(caller, caller_after)
        &&& host_after.arena@ == host.arena@
    } else {
        &&& host_after.arena@ == host.arena@.moved(bound)
        &&& guest::growth_refused(bytes, bytes_after, bound) ==> guest::growth_denied(
            caller,
            memory,
            guest::pages_short(bound, bytes.len() as int),
        )
        &&& guest::heap_cell(caller_after) == guest::cell_moved(guest::heap_cell(caller), bound)
        &&& if list_fits(room.len() as int, start, parts) {
            &&& r == Ok::<i32, Fault>(word::pointer_of(start) as i32)
            &&& bytes_after == with_list(room, start, parts)
        } else {
            &&& r == Err::<i32, Fault>(Fault::OutOfMemory)
            &&& bytes_after == room
        }
    }
}

/// The bytes that strings take up only grow with their number.
proof fn lemma_strings_size_grows(parts: Seq<Seq<char>>, few: int, many: int)
    requires
        0 <= few <= many <= parts.len(),
    ensures
        0 <= strings_size(parts, few) <= strings_size(parts, many),
    decreases many,
{
    if few < many {
        lemma_strings_size_grows(parts, few, many - 1);
    } else if few > 0 {
        lemma_strings_size_grows(parts, few - 1, many - 1);
    }
}

/// Writing a list leaves the size of the memory as it is.
pub(crate) proof fn lemma_list_keeps_size(data: Seq<u8>, start: int, parts: Seq<Seq<char>>)
    ensures
        with_list(data, start, parts).len() == data.len(),
{
    let headed = word::overwrite(data, start, header(parts));
    lemma_pointers_keep_size(headed, start, parts, parts.len() as int);
    let pointed = with_pointers(headed, start, parts, parts.len() as int);
    lemma_strings_keep_size(pointed, start, parts, parts.len() as int);
}

proof fn lemma_pointers_keep_size(data: Seq<u8>, start: int, parts: Seq<Seq<char>>, count: int)
    ensures
        with_pointers(data, start, parts, count).len() == data.len(),
    decreases count,
{
    if count > 0 {
        lemma_pointers_keep_size(data, start, parts, count - 1);
    }
}

proof fn lemma_strings_keep_size(data: Seq<u8>, start: int, parts: Seq<Seq<char>>, count: int)
    ensures
        with_strings(data, start, parts, count).len() == data.len(),
    decreases count,
{
    if count > 0 {
        lemma_strings_keep_size(data, start, parts, count - 1);
    }
}

/// Lays the strings of a list at `start` out: the pointers to them, and the end
/// of the list. None where the end lies beyond the address range.
pub fn lay_out(start: usize, parts: &Vec<String>) -> (r: Option<(Vec<u32>, usize)>)
    ensures
        r is None <==> list_end(start as int, text::views(parts@)) + 7 > usize::MAX,
        r matches Some((pointers, end)) ==> {
            &&& end == list_end(start as int, text::views(parts@))
            &&& pointers@.len() == parts@.len()
            &&& forall|i: int|
                0 <= i < parts@.len() ==> #[trigger] pointers@[i] == word::low_word(
                    string_address(start as int, text::views(parts@), i),
                )
        },
{
    let ghost views = text::views(parts@);
    let count: usize = parts.len();
    proof {
        lemma_strings_size_grows(views, 0, count as int);
    }
    if count > (usize::MAX - 16) / 4 {
        return None;
    }
    let head: usize = 16 + 4 * count;
    if start > usize::MAX - head {
        return None;
    }
    let mut next: usize = start + head;
    let mut pointers: Vec<u32> = Vec::new();
    let mut i: usize = 0;
    while i < count
        invariant
            i <= count == parts@.len(),
            views == text::views(parts@),
            next == string_address(start as int, views, i as int),
            pointers@.len() == i,
            forall|j: int|
                0 <= j < i ==> #[trigger] pointers@[j] == word::low_word(
                    string_address(start as int, views, j),
                ),
        decreases count - i,
    {
        pointers.push(word::to_word(next));
        let len: usize = parts[i].as_str().as_bytes().len();
        proof {
            assert(views[i as int] == parts@[i as int]@);
            assert(strings_size(views, i + 1) == strings_size(views, i as int) + 4 + len);
            lemma_strings_size_grows(views, i + 1, count as int);
        }
        if len > usize::MAX - 4 || next > usize::MAX - 4 - len {
            return None;
        }
        next = next + 4 + len;
        i = i + 1;
    }
    if next > usize::MAX - 7 {
        return None;
    }
    Some((pointers, next))
}

/// Whether the list at `start` lies inside `size` bytes.
fn fits(size: usize, start: usize, parts: &Vec<String>, pointers: &Vec<u32>) -> (r: bool)
    requires
        start + 16 + 4 * parts@.len() <= usize::MAX,
        pointers@.len() == parts@.len(),
        forall|i: int|
            0 <= i < parts@.len() ==> #[trigger] pointers@[i] == word::low_word(
                string_address(start as int, text::views(parts@), i),
            ),
    ensures
        r == list_fits(size as int, start as int, text::views(parts@)),
{
    let ghost views = text::views(parts@);
    if start + 16 + 4 * parts.len() > size {
        return false;
    }
    let mut i: usize = 0;
    while i < parts.len()
        invariant
            i <= parts@.len(),
            views == text::views(parts@),
            pointers@.len() == parts@.len(),
            forall|j: int|
                0 <= j < parts@.len() ==> #[trigger] pointers@[j] == word::low_word(
                    string_address(start as int, views, j),
                ),
            forall|j: int|
                0 <= j < i ==> word::low_word(#[trigger] string_address(start as int, views, j))
                    + frame::frame(views[j]).len() <= size,
        decreases parts@.len() - i,
    {
        let len: usize = parts[i].as_str().as_bytes().len();
        let pointer: u32 = pointers[i];
        assert(frame::frame(views[i as int]).len() == 4 + len);
        if size < 4 || pointer as u64 > (size - 4) as u64 || len > size - 4 - pointer as usize {
            assert(word::low_word(string_address(start as int, views, i as int)) + frame::frame(
                views[i as int],
            ).len() > size);
            return false;
        }
        i = i + 1;
    }
    true
}

/// Writes the header of a list of `count` strings.
fn write_header(data: &mut [u8], start: usize, count: usize)
    requires
        start + 16 <= old(data)@.len(),
    ensures
        forall|parts: Seq<Seq<char>>|
            parts.len() == count ==> final(data)@ == word::overwrite(
                old(data)@,
                start as int,
                #[trigger] header(parts),
            ),
{
    let size: usize = data.len();
    let ghost before = data@;
    let length: u32 = word::to_word(count);
    proof {
        word::lemma_bytes_of_low_word(count as int);
    }
    let ghost n = word::le_bytes(count as int);
    let ghost kind = word::le_bytes(STRING_KIND as int);
    word::write_word(data, start, length);
    word::write_word(data, start + 4, length);
    word::write_word(data, start + 8, STRING_KIND);
    word::write_word(data, start + 12, 0);
    proof {
        word::lemma_overwrite_adjacent(before, start as int, n, n);
        word::lemma_overwrite_adjacent(before, start as int, n + n, kind);
        word::lemma_overwrite_adjacent(before, start as int, n + n + kind, word::le_bytes(0));
    }
}

/// Writes a list and its strings.
fn write_list(data: &mut [u8], start: usize, parts: &Vec<String>, pointers: &Vec<u32>)
    requires
        list_fits(old(data)@.len() as int, start as int, text::views(parts@)),
        pointers@.len() == parts@.len(),
        forall|i: int|
            0 <= i < parts@.len() ==> #[trigger] pointers@[i] == word::low_word(
                string_address(start as int, text::views(parts@), i),
            ),
    ensures
        final(data)@ == with_list(old(data)@, start as int, text::views(parts@)),
{
    let ghost views = text::views(parts@);
    let size: usize = data.len();
    let count: usize = parts.len();
    write_header(data, start, count);
    let ghost headed = word::overwrite(old(data)@, start as int, header(views));
    assert(data@ == headed);
    let mut i: usize = 0;
    while i < count
        invariant
            i <= count == parts@.len(),
            views == text::views(parts@),
            pointers@.len() == count,
            start + 16 + 4 * count <= size == data@.len(),
            data@ == with_pointers(headed, start as int, views, i as int),
            forall|j: int|
                0 <= j < count ==> #[trigger] pointers@[j] == word::low_word(
                    string_address(start as int, views, j),
                ),
        decreases count - i,
    {
        proof {
            lemma_strings_size_grows(views, 0, i as int);
            word::lemma_bytes_of_low_word(string_address(start as int, views, i as int));
        }
        word::write_word(data, start + 16 + 4 * i, pointers[i]);
        i = i + 1;
    }
    let ghost pointed = data@;
    let mut k: usize = 0;
    while k < count
        invariant
            k <= count == parts@.len(),
            views == text::views(parts@),
            pointers@.len() == count,
            size == data@.len(),
            list_fits(size as int, start as int, views),
            data@ == with_strings(pointed, start as int, views, k as int),
            forall|j: int|
                0 <= j < count ==> #[trigger] pointers@[j] == word::low_word(
                    string_address(start as int, views, j),
                ),
        decreases count - k,
    {
        let pointer: u32 = pointers[k];
        assert(views[k as int] == parts@[k as int]@);
        assert(pointer == word::low_word(string_address(start as int, views, k as int)));
        frame::write_length_prefixed_string(data, pointer as usize, parts[k].as_str());
        k = k + 1;
    }
}

/// Writes a list and its strings where all of it lies inside the memory, and
/// changes nothing where it does not.
pub fn put_list(data: &mut [u8], start: usize, parts: &Vec<String>, pointers: &Vec<u32>) -> (r:
    Result<(), Fault>)
    requires
        start + 16 + 4 * parts@.len() <= usize::MAX,
        pointers@.len() == parts@.len(),
        forall|i: int|
            0 <= i < parts@.len() ==> #[trigger] pointers@[i] == word::low_word(
                string_address(start as int, text::views(parts@), i),
            ),
    ensures
        if list_fits(old(data)@.len() as int, start as int, text::views(parts@)) {
            &&& r == Ok::<(), Fault>(())
            &&& final(data)@ == with_list(old(data)@, start as int, text::views(parts@))
        } else {
            &&& r == Err::<(), Fault>(Fault::OutOfMemory)
            &&& final(data)@ == old(data)@
        },
{
    let size: usize = data.len();
    if !fits(size, start, parts, pointers) {
        return Err(Fault::OutOfMemory);
    }
    write_list(data, start, parts, pointers);
    Ok(())
}

/// Allocates a list of strings in the guest's linear memory and returns the
/// pointer to it.
pub fn allocate_list_in_memory(
    memory: &Memory,
    caller: &mut Caller<'_, ()>,
    host: &mut Host,
    parts: &Vec<String>,
) -> (r: Result<i32, Fault>)
    requires
        guest::memory_bytes(*old(caller), *memory) is Some,
    ensures
        listed(
            *old(caller),
            *final(caller),
            *memory,
            *old(host),
            *final(host),
            text::views(parts@),
            r,
        ),
{
    let heap: usize = guest::guest_heap_top(caller);
    let next: usize = host.arena.next_offset();
    let start: usize = if heap > next {
        heap
    } else {
        next
    };
    let (pointers, end) = match lay_out(start, parts) {
        Some(layout) => layout,
        None => {
            return Err(Fault::AddressOverflow);
        },
    };
    proof {
        lemma_strings_size_grows(text::views(parts@), 0, parts@.len() as int);
    }
    let bound: usize = word::to_word(word::align_up(end)) as usize;
    host.arena.move_to(bound);
    let _ = guest::ensure_room(memory, caller, bound);
    guest::raise_heap(caller, bound);
    let data = guest::memory_data_mut(memory, caller);
    proof {
        lemma_list_keeps_size(data@, start as int, text::views(parts@));
    }
    match put_list(data, start, parts, &pointers) {
        Ok(()) => Ok(word::to_pointer(start)),
        Err(fault) => Err(fault),
    }
}

/// Writing the first strings of a list changes nothing outside the stretch that
/// they take up.
proof fn lemma_strings_stay_inside(
    data: Seq<u8>,
    start: int,
    parts: Seq<Seq<char>>,
    count: int,
    at: int,
)
    requires
        0 <= start,
        0 <= count <= parts.len(),
        list_end(start, parts) <= 0xffff_ffff,
        0 <= at < data.len(),
        at < string_address(start, parts, 0) || string_address(start, parts, count) <= at,
    ensures
        with_strings(data, start, parts, count).len() == data.len(),
        with_strings(data, start, parts, count)[at] == data[at],
    decreases count,
{
    lemma_strings_keep_size(data, start, parts, count);
    if count > 0 {
        lemma_strings_size_grows(parts, 0, count - 1);
        lemma_strings_size_grows(parts, count - 1, count);
        lemma_strings_size_grows(parts, count - 1, parts.len() as int);
        lemma_strings_keep_size(data, start, parts, count - 1);
        lemma_strings_stay_inside(data, start, parts, count - 1, at);
    }
}

/// One more string written: it goes behind those that were there.
proof fn lemma_next_string(data: Seq<u8>, start: int, parts: Seq<Seq<char>>, index: int)
    requires
        0 <= start,
        0 <= index < parts.len(),
        list_end(start, parts) <= 0xffff_ffff,
    ensures
        with_strings(data, start, parts, index + 1) == word::overwrite(
            with_strings(data, start, parts, index),
            string_address(start, parts, index),
            frame::frame(parts[index]),
        ),
        start <= string_address(start, parts, index),
        string_address(start, parts, index + 1) == string_address(start, parts, index)
            + frame::frame(parts[index]).len(),
        string_address(start, parts, index + 1) <= list_end(start, parts),
{
    lemma_strings_size_grows(parts, 0, index);
    lemma_strings_size_grows(parts, index + 1, parts.len() as int);
    assert(strings_size(parts, index + 1) == strings_size(parts, index) + frame::frame(
        parts[index],
    ).len());
    assert(word::low_word(string_address(start, parts, index)) == string_address(
        start,
        parts,
        index,
    ));
}

/// Each of the first strings of a list stands where it belongs once they are
/// written.
proof fn lemma_string_written(
    data: Seq<u8>,
    start: int,
    parts: Seq<Seq<char>>,
    count: int,
    index: int,
)
    requires
        0 <= start,
        0 <= index < count <= parts.len(),
        list_end(start, parts) <= 0xffff_ffff,
        list_end(start, parts) <= data.len(),
    ensures
        frame::framed_at(
            with_strings(data, start, parts, count),
            string_address(start, parts, index),
        ) == Some(parts[index]),
        word::le_word(
            with_strings(data, start, parts, count),
            string_address(start, parts, index),
        ) + 4 == frame::frame(parts[index]).len(),
    decreases count,
{
    let last = count - 1;
    let before = with_strings(data, start, parts, last);
    lemma_strings_keep_size(data, start, parts, last);
    lemma_next_string(data, start, parts, last);
    lemma_next_string(data, start, parts, index);
    if index == last {
        frame::law_frame_round_trip(before, string_address(start, parts, last), parts[last]);
    } else {
        lemma_string_written(data, start, parts, last, index);
        lemma_strings_size_grows(parts, index + 1, last);
        frame::law_frame_undisturbed(
            before,
            string_address(start, parts, index),
            string_address(start, parts, last),
            frame::frame(parts[last]),
        );
    }
}

/// Each of the first pointers of a list stands where it belongs once they are
/// written, and nothing outside the pointers has changed.
proof fn lemma_pointer_written(
    data: Seq<u8>,
    start: int,
    parts: Seq<Seq<char>>,
    count: int,
    index: int,
)
    requires
        0 <= start,
        0 <= index < count <= parts.len(),
        list_end(start, parts) <= 0xffff_ffff,
        list_end(start, parts) <= data.len(),
    ensures
        word::le_word(with_pointers(data, start, parts, count), start + 16 + 4 * index)
            == string_address(start, parts, index),
    decreases count,
{
    let last = count - 1;
    let before = with_pointers(data, start, parts, last);
    lemma_pointers_keep_size(data, start, parts, last);
    lemma_strings_size_grows(parts, 0, index);
    lemma_strings_size_grows(parts, index, parts.len() as int);
    if index == last {
        word::law_word_round_trip(
            before,
            start + 16 + 4 * last,
            string_address(start, parts, last),
        );
    } else {
        lemma_pointer_written(data, start, parts, last, index);
    }
}

proof fn lemma_pointers_stay_inside(
    data: Seq<u8>,
    start: int,
    parts: Seq<Seq<char>>,
    count: int,
    at: int,
)
    requires
        0 <= at < data.len(),
        0 <= count,
        at < start + 16 || start + 16 + 4 * count <= at,
    ensures
        with_pointers(data, start, parts, count).len() == data.len(),
        with_pointers(data, start, parts, count)[at] == data[at],
    decreases count,
{
    lemma_pointers_keep_size(data, start, parts, count);
    if count > 0 {
        lemma_pointers_keep_size(data, start, parts, count - 1);
        lemma_pointers_stay_inside(data, start, parts, count - 1, at);
    }
}

/// A list below four gibibytes reads back: its length, capacity and kind, the
/// spare word of zero, and for each element a pointer that leads to the string.
/// What lies before the list and behind it is as it was.
pub proof fn law_list_reads_back(data: Seq<u8>, start: int, parts: Seq<Seq<char>>)
    requires
        0 <= start,
        list_end(start, parts) <= 0xffff_ffff,
        list_end(start, parts) <= data.len(),
    ensures
        word::le_word(with_list(data, start, parts), start) == parts.len(),
        word::le_word(with_list(data, start, parts), start + 4) == parts.len(),
        word::le_word(with_list(data, start, parts), start + 8) == STRING_KIND,
        word::le_word(with_list(data, start, parts), start + 12) == 0,
        forall|i: int|
            0 <= i < parts.len() ==> word::le_word(
                with_list(data, start, parts),
                start + 16 + 4 * i,
            ) == #[trigger] string_address(start, parts, i),
        forall|i: int|
            0 <= i < parts.len() ==> frame::framed_at(
                with_list(data, start, parts),
                #[trigger] string_address(start, parts, i),
            ) == Some(parts[i]),
        forall|k: int|
            0 <= k < start ==> #[trigger] with_list(data, start, parts)[k] == data[k],
        forall|k: int|
            list_end(start, parts) <= k < data.len() ==> #[trigger] with_list(
                data,
                start,
                parts,
            )[k] == data[k],
{
    let count = parts.len() as int;
    let headed = word::overwrite(data, start, header(parts));
    let pointed = with_pointers(headed, start, parts, count);
    let after = with_list(data, start, parts);
    lemma_strings_size_grows(parts, 0, count);
    lemma_pointers_keep_size(headed, start, parts, count);
    lemma_list_keeps_size(data, start, parts);
    assert forall|k: int| 0 <= k < start + 16 implies #[trigger] after[k] == headed[k] by {
        lemma_pointers_stay_inside(headed, start, parts, count, k);
        lemma_strings_stay_inside(pointed, start, parts, count, k);
    }
    assert forall|k: int| list_end(start, parts) <= k < data.len() implies #[trigger] after[k]
        == data[k] by {
        lemma_pointers_stay_inside(headed, start, parts, count, k);
        lemma_strings_stay_inside(pointed, start, parts, count, k);
    }
    let n = word::le_bytes(count);
    let kind = word::le_bytes(STRING_KIND as int);
    word::law_word_round_trip(data, start, count);
    word::law_word_round_trip(data, start + 4, count);
    word::law_word_round_trip(data, start + 8, STRING_KIND as int);
    word::law_word_round_trip(data, start + 12, 0);
    let one = word::overwrite(data, start, n);
    let two = word::overwrite(data, start + 4, n);
    let three = word::overwrite(data, start + 8, kind);
    let four = word::overwrite(data, start + 12, word::le_bytes(0));
    assert(forall|k: int| start <= k < start + 4 ==> after[k] == one[k]);
    assert(forall|k: int| start + 4 <= k < start + 8 ==> after[k] == two[k]);
    assert(forall|k: int| start + 8 <= k < start + 12 ==> after[k] == three[k]);
    assert(forall|k: int| start + 12 <= k < start + 16 ==> after[k] == four[k]);
    assert forall|i: int| 0 <= i < parts.len() implies word::le_word(after, start + 16 + 4 * i)
        == #[trigger] string_address(start, parts, i) by {
        lemma_pointer_written(headed, start, parts, count, i);
        let at = start + 16 + 4 * i;
        lemma_strings_stay_inside(pointed, start, parts, count, at);
        lemma_strings_stay_inside(pointed, start, parts, count, at + 1);
        lemma_strings_stay_inside(pointed, start, parts, count, at + 2);
        lemma_strings_stay_inside(pointed, start, parts, count, at + 3);
    }
    assert forall|i: int| 0 <= i < parts.len() implies frame::framed_at(
        after,
        #[trigger] string_address(start, parts, i),
    ) == Some(parts[i]) by {
        lemma_string_written(pointed, start, parts, count, i);
    }
}

/// A list that lies inside the memory ends inside it.
proof fn lemma_fitting_list_ends_inside(size: int, start: int, parts: Seq<Seq<char>>)
    requires
        0 <= start,
        list_end(start, parts) <= 0xffff_ffff,
        list_fits(size, start, parts),
    ensures
        list_end(start, parts) <= size,
{
    let last = parts.len() - 1;
    if last >= 0 {
        lemma_next_string(Seq::empty(), start, parts, last);
        lemma_strings_size_grows(parts, 0, last);
        assert(word::low_word(string_address(start, parts, last)) == string_address(
            start,
            parts,
            last,
        ));
    }
}

/// A list that was stored below four gibibytes can be read back from where its
/// block starts: its length, capacity and kind, the spare word of zero, and for
/// each element a pointer that leads to the string.
pub proof fn law_stored_list_reads_back(
    caller: Caller<'_, ()>,
    caller_after: Caller<'_, ()>,
    memory: Memory,
    host: Host,
    host_after: Host,
    parts: Seq<Seq<char>>,
    r: Result<i32, Fault>,
)
    requires
        listed(caller, caller_after, memory, host, host_after, parts, r),
        list_end(guest::block_start(caller, host), parts) <= 0xffff_ffff,
        r is Ok,
    ensures
        ({
            let start = guest::block_start(caller, host);
            let after = guest::memory_bytes(caller_after, memory)->0;
            &&& word::le_word(after, start) == parts.len()
            &&& word::le_word(after, start + 4) == parts.len()
            &&& word::le_word(after, start + 8) == STRING_KIND
            &&& word::le_word(after, start + 12) == 0
            &&& forall|i: int|
                0 <= i < parts.len() ==> {
                    &&& word::le_word(after, start + 16 + 4 * i) == #[trigger] string_address(
                        start,
                        parts,
                        i,
                    )
                    &&& frame::framed_at(after, string_address(start, parts, i)) == Some(parts[i])
                }
            &&& start < 0x8000_0000 ==> word::address_of(r->Ok_0) == start
        }),
{
    let start = guest::block_start(caller, host);
    let bytes = guest::memory_bytes(caller, memory)->0;
    let bytes_after = guest::memory_bytes(caller_after, memory)->0;
    let bound = list_bound(start, parts);
    let room = if guest::growth_refused(bytes, bytes_after, bound) {
        bytes
    } else {
        guest::extended(bytes, bound)
    };
    crate::arena::law_offset_is_address(host.arena);
    lemma_fitting_list_ends_inside(room.len() as int, start, parts);
    law_list_reads_back(room, start, parts);
    if start < 0x8000_0000 {
        word::law_pointer_round_trip(start);
    }
}

/// A string that ends before the block of a list stays as it is when the list is
/// stored, however that ends.
pub proof fn law_list_spares_earlier_text(
    caller: Caller<'_, ()>,
    caller_after: Caller<'_, ()>,
    memory: Memory,
    host: Host,
    host_after: Host,
    parts: Seq<Seq<char>>,
    r: Result<i32, Fault>,
    ptr: int,
)
    requires
        listed(caller, caller_after, memory, host, host_after, parts, r),
        list_end(guest::block_start(caller, host), parts) <= 0xffff_ffff,
        0 <= ptr,
        frame::framed_at(guest::memory_bytes(caller, memory)->0, ptr) is Some,
        ptr + 4 + word::le_word(guest::memory_bytes(caller, memory)->0, ptr) <= guest::block_start(
            caller,
            host,
        ),
    ensures
        frame::framed_at(guest::memory_bytes(caller_after, memory)->0, ptr) == frame::framed_at(
            guest::memory_bytes(caller, memory)->0,
            ptr,
        ),
{
    let start = guest::block_start(caller, host);
    let bytes = guest::memory_bytes(caller, memory)->0;
    let bytes_after = guest::memory_bytes(caller_after, memory)->0;
    let bound = list_bound(start, parts);
    let room = if guest::growth_refused(bytes, bytes_after, bound) {
        bytes
    } else {
        guest::extended(bytes, bound)
    };
    crate::arena::law_offset_is_address(host.arena);
    guest::lemma_extension_keeps_frame(bytes, bound, ptr);
    if r is Ok {
        lemma_fitting_list_ends_inside(room.len() as int, start, parts);
        law_list_reads_back(room, start, parts);
        lemma_list_keeps_size(room, start, parts);
        let len = word::le_word(room, ptr);
        assert(forall|k: int| 0 <= k < start ==> #[trigger] bytes_after[k] == room[k]);
        assert(bytes_after.subrange(ptr + 4, ptr + 4 + len) == room.subrange(
            ptr + 4,
            ptr + 4 + len,
        ));
    }
}

/// After a list was stored below two gibibytes, or did not fit there, the guest's
/// own allocator and the host's agree on where free memory begins, past the list,
/// if the guest lets its heap pointer be moved.
pub proof fn law_list_allocators_agree(
    caller: Caller<'_, ()>,
    caller_after: Caller<'_, ()>,
    memory: Memory,
    host: Host,
    host_after: Host,
    parts: Seq<Seq<char>>,
    r: Result<i32, Fault>,
)
    requires
        listed(caller, caller_after, memory, host, host_after, parts, r),
        r != Err::<i32, Fault>(Fault::AddressOverflow),
        guest::cell_takes_i32(guest::heap_cell(caller)),
        word::align8(list_end(guest::block_start(caller, host), parts)) < 0x8000_0000,
    ensures
        guest::heap_top(caller_after) == host_after.arena@.next,
        guest::heap_top(caller_after) >= list_end(guest::block_start(caller, host), parts),
{
    let end = list_end(guest::block_start(caller, host), parts);
    crate::arena::law_offset_is_address(host.arena);
    lemma_strings_size_grows(parts, 0, parts.len() as int);
    word::law_align8(end);
    word::law_pointer_round_trip(word::align8(end));
}

/// Every string of a list lies between the start of the list and its end.
pub(crate) proof fn lemma_strings_inside(start: int, parts: Seq<Seq<char>>)
    requires
        0 <= start,
    ensures
        start <= list_end(start, parts),
        forall|i: int|
            0 <= i < parts.len() ==> start <= #[trigger] string_address(start, parts, i)
                <= list_end(start, parts),
{
    lemma_strings_size_grows(parts, 0, parts.len() as int);
    assert forall|i: int| 0 <= i < parts.len() implies start <= #[trigger] string_address(
        start,
        parts,
        i,
    ) <= list_end(start, parts) by {
        lemma_strings_size_grows(parts, 0, i);
        lemma_strings_size_grows(parts, i, parts.len() as int);
    }
}

/// Below four gibibytes a list fits exactly where the memory reaches to its end.
pub(crate) proof fn lemma_fits_below_four_gibibytes(
    size: int,
    start: int,
    parts: Seq<Seq<char>>,
)
    requires
        0 <= start,
        list_end(start, parts) <= 0xffff_ffff,
    ensures
        list_fits(size, start, parts) <==> list_end(start, parts) <= size,
{
    if list_fits(size, start, parts) {
        lemma_fitting_list_ends_inside(size, start, parts);
    }
    if list_end(start, parts) <= size {
        lemma_strings_size_grows(parts, 0, parts.len() as int);
        assert forall|i: int| 0 <= i < parts.len() implies word::low_word(
            #[trigger] string_address(start, parts, i),
        ) + frame::frame(parts[i]).len() <= size by {
            lemma_next_string(Seq::empty(), start, parts, i);
        }
    }
}

} // verus!
