//! The guest as its caller handle shows it: exported items, linear memory and
//! the exported heap pointer.

use crate::frame;
use crate::host::{Console, Fault, Host};
use crate::text;
use crate::word;
use vstd::prelude::*;
use vstd::string::*;
use wasmtime::{Caller, Extern, Global, Memory};

verus! {

/// The handle through which a host function reaches the guest that called it.
#[verifier::external_type_specification]
#[verifier::external_body]
#[verifier::reject_recursive_types(T)]
pub struct ExCaller<'a, T>(wasmtime::Caller<'a, T>);

/// A linear memory of the guest. The handle stands for the memory itself.
#[verifier::external_type_specification]
#[verifier::external_body]
pub struct ExMemory(wasmtime::Memory);

/// A global variable of the guest. The handle stands for the variable itself.
#[verifier::external_type_specification]
#[verifier::external_body]
pub struct ExGlobal(wasmtime::Global);

/// The error of a refused growth or assignment; only its presence matters here.
#[verifier::external_type_specification]
#[verifier::external_body]
pub struct ExError(wasmtime::Error);

/// An item that the guest exports.
pub enum Export {
    Memory(Memory),
    Global(Global),
    Func,
    Table,
    SharedMemory,
}

/// The items that the calling guest exports, by name.
pub uninterp spec fn exported(caller: Caller<'_, ()>, name: Seq<char>) -> Option<Export>;

/// The bytes of a linear memory; none where it belongs to another store.
pub uninterp spec fn memory_bytes(caller: Caller<'_, ()>, memory: Memory) -> Option<Seq<u8>>;

/// A global variable: its value where it holds an `i32`, and whether it can be
/// assigned; none where it belongs to another store.
pub uninterp spec fn global_cell(caller: Caller<'_, ()>, global: Global) -> Option<
    (Option<i32>, bool),
>;

/// The `i32` that a global variable holds.
pub open spec fn cell_value(cell: Option<(Option<i32>, bool)>) -> Option<i32> {
    match cell {
        Some((value, _)) => value,
        None => None,
    }
}

/// Whether a global variable takes an `i32`.
pub open spec fn cell_takes_i32(cell: Option<(Option<i32>, bool)>) -> bool {
    match cell {
        Some((value, mutable)) => value is Some && mutable,
        None => false,
    }
}

/// The size of a page of linear memory.
pub const PAGE_SIZE: usize = 65_536;

/// The guest exports the same items under the same names.
pub open spec fn same_exports(a: Caller<'_, ()>, b: Caller<'_, ()>) -> bool {
    forall|name: Seq<char>| #[trigger] exported(b, name) == exported(a, name)
}

/// No linear memory has changed.
pub open spec fn same_memories(a: Caller<'_, ()>, b: Caller<'_, ()>) -> bool {
    forall|memory: Memory| #[trigger] memory_bytes(b, memory) == memory_bytes(a, memory)
}

/// No global variable has changed.
pub open spec fn same_globals(a: Caller<'_, ()>, b: Caller<'_, ()>) -> bool {
    forall|global: Global| #[trigger] global_cell(b, global) == global_cell(a, global)
}

/// Nothing that a host function can see of the guest has changed.
pub open spec fn same_guest(a: Caller<'_, ()>, b: Caller<'_, ()>) -> bool {
    same_exports(a, b) && same_memories(a, b) && same_globals(a, b)
}

/// Calls `Caller::get_export`: looks an export up by name, which changes nothing
/// in the guest. A memory or a global found this way belongs to the caller's
/// store.
#[verifier::external_body]
fn get_export(caller: &mut Caller<'_, ()>, name: &str) -> (r: Option<Export>)
    ensures
        r == exported(*old(caller), name@),
        same_guest(*old(caller), *final(caller)),
        r matches Some(Export::Memory(memory)) ==> memory_bytes(*final(caller), memory) is Some,
        r matches Some(Export::Global(global)) ==> global_cell(*final(caller), global) is Some,
{
    match caller.get_export(name) {
        Some(Extern::Memory(memory)) => Some(Export::Memory(memory)),
        Some(Extern::Global(global)) => Some(Export::Global(global)),
        Some(Extern::Func(_)) => Some(Export::Func),
        Some(Extern::Table(_)) => Some(Export::Table),
        Some(Extern::SharedMemory(_)) => Some(Export::SharedMemory),
        None => None,
    }
}

/// Calls `Memory::size`: the number of whole pages, of 64 KiB each, that make up
/// the memory.
#[verifier::external_body]
fn memory_size(memory: &Memory, caller: &Caller<'_, ()>) -> (r: u64)
    requires
        memory_bytes(*caller, *memory) is Some,
    ensures
        r * PAGE_SIZE == memory_bytes(*caller, *memory)->0.len(),
{
    memory.size(caller)
}

/// Calls `Memory::grow`: adds `delta` pages of zero bytes at the end and returns
/// the number of pages that there were, or fails and changes nothing. Whether it
/// succeeds is up to the limits of the memory and of the machine. Nothing is said
/// of other memories after a success.
#[verifier::external_body]
fn memory_grow(memory: &Memory, caller: &mut Caller<'_, ()>, delta: u64) -> (r: Result<
    u64,
    wasmtime::Error,
>)
    requires
        memory_bytes(*old(caller), *memory) is Some,
    ensures
        same_exports(*old(caller), *final(caller)),
        same_globals(*old(caller), *final(caller)),
        r matches Ok(pages) ==> {
            &&& pages * PAGE_SIZE == memory_bytes(*old(caller), *memory)->0.len()
            &&& memory_bytes(*final(caller), *memory) == Some(
                memory_bytes(*old(caller), *memory)->0 + Seq::new(
                    (delta * PAGE_SIZE) as nat,
                    |i: int| 0u8,
                ),
            )
        },
        r is Err ==> same_memories(*old(caller), *final(caller)),
{
    memory.grow(caller, delta)
}

/// Calls `Memory::data`: the bytes of the memory.
#[verifier::external_body]
pub(crate) fn memory_data<'a>(memory: &Memory, caller: &'a Caller<'_, ()>) -> (r: &'a [u8])
    requires
        memory_bytes(*caller, *memory) is Some,
    ensures
        r@ == memory_bytes(*caller, *memory)->0,
{
    memory.data(caller)
}

/// Calls `Memory::data_mut`: the bytes of the memory, to be written in place.
/// Nothing is said of other memories.
#[verifier::external_body]
pub(crate) fn memory_data_mut<'a>(memory: &Memory, caller: &'a mut Caller<'_, ()>) -> (r: &'a mut [u8])
    requires
        memory_bytes(*old(caller), *memory) is Some,
    ensures
        r@ == memory_bytes(*old(caller), *memory)->0,
        memory_bytes(*final(caller), *memory) == Some(final(r)@),
        same_exports(*old(caller), *final(caller)),
        same_globals(*old(caller), *final(caller)),
{
    memory.data_mut(caller)
}

/// Calls `Global::get` and, on its result, `Val::i32`: the value of the global
/// where it holds an `i32`. Nothing in the guest changes.
#[verifier::external_body]
fn global_get(global: &Global, caller: &mut Caller<'_, ()>) -> (r: Option<i32>)
    requires
        global_cell(*old(caller), *global) is Some,
    ensures
        r == cell_value(global_cell(*old(caller), *global)),
        same_guest(*old(caller), *final(caller)),
{
    global.get(caller).i32()
}

/// Calls `Global::set` with an `i32`: assigns the value, or fails and changes
/// nothing where the global is constant or holds another type. Nothing is said of
/// other globals after a success.
#[verifier::external_body]
fn global_set(global: &Global, caller: &mut Caller<'_, ()>, value: i32) -> (r: Result<
    (),
    wasmtime::Error,
>)
    requires
        global_cell(*old(caller), *global) is Some,
    ensures
        r is Ok <==> cell_takes_i32(global_cell(*old(caller), *global)),
        r is Ok ==> global_cell(*final(caller), *global) == Some((Some(value), true)),
        r is Err ==> same_globals(*old(caller), *final(caller)),
        same_exports(*old(caller), *final(caller)),
        same_memories(*old(caller), *final(caller)),
{
    global.set(caller, wasmtime::Val::I32(value))
}

/// The linear memory that the guest exports as `memory`.
pub open spec fn memory_of(caller: Caller<'_, ()>) -> Option<Memory> {
    match exported(caller, "memory"@) {
        Some(Export::Memory(memory)) => Some(memory),
        _ => None,
    }
}

/// The bytes of the linear memory that the guest exports.
pub open spec fn guest_bytes(caller: Caller<'_, ()>) -> Option<Seq<u8>> {
    match memory_of(caller) {
        Some(memory) => memory_bytes(caller, memory),
        None => None,
    }
}

/// The global variable that the guest exports as `__heap_ptr`.
pub open spec fn heap_cell(caller: Caller<'_, ()>) -> Option<(Option<i32>, bool)> {
    match exported(caller, "__heap_ptr"@) {
        Some(Export::Global(global)) => global_cell(caller, global),
        _ => None,
    }
}

/// The address up to which the guest's own allocator has handed out memory: zero
/// where the guest does not say.
pub open spec fn heap_top(caller: Caller<'_, ()>) -> int {
    match cell_value(heap_cell(caller)) {
        Some(value) => word::address_of(value),
        None => 0,
    }
}

/// The heap pointer after it was told of memory in use up to `end`. One that is
/// constant or no `i32` stays as it is.
pub open spec fn cell_moved(cell: Option<(Option<i32>, bool)>, end: int) -> Option<
    (Option<i32>, bool),
> {
    if cell_takes_i32(cell) {
        Some((Some(word::pointer_of(end) as i32), true))
    } else {
        cell
    }
}

/// How many pages must be added to `size` bytes to reach `end`.
pub open spec fn pages_short(end: int, size: int) -> int {
    (end - size + PAGE_SIZE - 1) / PAGE_SIZE as int
}

/// The memory after pages of zero bytes were added to reach `end`.
pub open spec fn extended(bytes: Seq<u8>, end: int) -> Seq<u8> {
    if end <= bytes.len() {
        bytes
    } else {
        bytes + Seq::new(
            (pages_short(end, bytes.len() as int) * PAGE_SIZE) as nat,
            |i: int| 0u8,
        )
    }
}

/// Finds the linear memory that the guest exports as `memory`.
pub fn guest_memory(caller: &mut Caller<'_, ()>) -> (r: Option<Memory>)
    ensures
        r == memory_of(*old(caller)),
        same_guest(*old(caller), *final(caller)),
        r is Some <==> guest_bytes(*old(caller)) is Some,
        r matches Some(memory) ==> memory_bytes(*final(caller), memory) == guest_bytes(
            *old(caller),
        ),
{
    match get_export(caller, "memory") {
        Some(Export::Memory(memory)) => Some(memory),
        _ => None,
    }
}

/// The address up to which the guest's own allocator has handed out memory.
pub fn guest_heap_top(caller: &mut Caller<'_, ()>) -> (r: usize)
    ensures
        r == heap_top(*old(caller)),
        same_guest(*old(caller), *final(caller)),
{
    match get_export(caller, "__heap_ptr") {
        Some(Export::Global(global)) => match global_get(&global, caller) {
            Some(value) => word::to_address(value),
            None => 0,
        },
        _ => 0,
    }
}

/// Tells the guest's own allocator that memory is in use up to `end`.
pub fn raise_heap(caller: &mut Caller<'_, ()>, end: usize)
    ensures
        heap_cell(*final(caller)) == cell_moved(heap_cell(*old(caller)), end as int),
        same_exports(*old(caller), *final(caller)),
        same_memories(*old(caller), *final(caller)),
{
    match get_export(caller, "__heap_ptr") {
        Some(Export::Global(global)) => {
            let value: i32 = word::to_pointer(end);
            let _ = global_set(&global, caller, value);
        },
        _ => {},
    }
}

/// Counts the pages that must be added to `size` bytes to reach `end`.
pub fn missing_pages(end: usize, size: usize) -> (r: u64)
    requires
        size < end,
    ensures
        r == pages_short(end as int, size as int),
{
    let missing: usize = end - size;
    if missing % PAGE_SIZE == 0 {
        (missing / PAGE_SIZE) as u64
    } else {
        (missing / PAGE_SIZE) as u64 + 1
    }
}

/// Whether a guest that looks like this one may be denied `pages` more pages of
/// memory: `Memory::grow`, asked for that many, may fail.
pub closed spec fn growth_denied(caller: Caller<'_, ()>, memory: Memory, pages: int) -> bool {
    exists|asked: &mut Caller<'_, ()>, delta: u64, error: wasmtime::Error|
        {
            &&& #[trigger] call_ensures(
                memory_grow,
                (&memory, asked, delta),
                Err::<u64, wasmtime::Error>(error),
            )
            &&& same_guest(caller, *asked)
            &&& delta == pages
        }
}

/// What it means that growth may be denied: `Memory::grow`, asked for exactly that
/// many pages of that memory, has an outcome that is an error.
proof fn law_denial_is_an_outcome(caller: Caller<'_, ()>, memory: Memory, pages: int)
    requires
        growth_denied(caller, memory, pages),
    ensures
        exists|asked: &mut Caller<'_, ()>, delta: u64, error: wasmtime::Error|
            {
                &&& #[trigger] call_ensures(
                    memory_grow,
                    (&memory, asked, delta),
                    Err::<u64, wasmtime::Error>(error),
                )
                &&& memory_bytes(*asked, memory) == memory_bytes(caller, memory)
                &&& delta == pages
            },
{
}

/// What may be denied to a guest may be denied to one that looks the same.
pub broadcast proof fn lemma_denial_carries(
    caller: Caller<'_, ()>,
    alike: Caller<'_, ()>,
    memory: Memory,
    pages: int,
)
    requires
        #[trigger] same_guest(caller, alike),
        #[trigger] growth_denied(alike, memory, pages),
    ensures
        growth_denied(caller, memory, pages),
{
    let (asked, delta, error) = choose|
        asked: &mut Caller<'_, ()>,
        delta: u64,
        error: wasmtime::Error,
    |
        {
            &&& #[trigger] call_ensures(
                memory_grow,
                (&memory, asked, delta),
                Err::<u64, wasmtime::Error>(error),
            )
            &&& same_guest(alike, *asked)
            &&& delta == pages
        };
    assert(same_guest(caller, *asked));
}

/// Adds pages to the memory where it does not reach to `end`. Returns whether it
/// does reach there, and where it does not, how many pages were refused.
pub(crate) fn ensure_room(memory: &Memory, caller: &mut Caller<'_, ()>, end: usize) -> (r: Result<(), u64>)
    requires
        memory_bytes(*old(caller), *memory) is Some,
    ensures
        same_exports(*old(caller), *final(caller)),
        same_globals(*old(caller), *final(caller)),
        end <= memory_bytes(*old(caller), *memory)->0.len() ==> r is Ok && same_memories(
            *old(caller),
            *final(caller),
        ),
        r is Ok ==> memory_bytes(*final(caller), *memory) == Some(
            extended(memory_bytes(*old(caller), *memory)->0, end as int),
        ),
        r matches Err(pages) ==> {
            &&& pages == pages_short(end as int, memory_bytes(*old(caller), *memory)->0.len() as int)
            &&& growth_denied(*old(caller), *memory, pages as int)
            &&& same_memories(*old(caller), *final(caller))
        },
{
    let size: usize = memory_data(memory, caller).len();
    let pages: u64 = memory_size(memory, caller);
    let current: usize = pages as usize * PAGE_SIZE;
    assert(current == size);
    if end <= current {
        return Ok(());
    }
    let needed: u64 = missing_pages(end, current);
    match memory_grow(memory, caller, needed) {
        Ok(_) => Ok(()),
        Err(error) => {
            assert(exists|asked: &mut Caller<'_, ()>| #[trigger]
                call_ensures(
                    memory_grow,
                    (memory, asked, needed),
                    Err::<u64, wasmtime::Error>(error),
                ) && *asked == *old(caller));
            Err(needed)
        },
    }
}

/// Whether a block of `size` bytes, rounded up, starts at `start` without leaving
/// the address range.
pub open spec fn placeable(start: int, size: int) -> bool {
    &&& size + 7 <= usize::MAX
    &&& start + word::align8(size) <= usize::MAX
}

/// Where the host's next block starts: past everything that either allocator has
/// handed out.
pub open spec fn block_start(caller: Caller<'_, ()>, host: Host) -> int {
    if heap_top(caller) > host.arena@.next {
        heap_top(caller)
    } else {
        host.arena@.next
    }
}

/// Places a block of `size` bytes past everything that the host has handed out,
/// up to `next`, and the guest, up to `heap`. Returns where the block starts and
/// ends; none where it would leave the address range.
pub fn place_block(next: usize, heap: usize, size: usize) -> (r: Option<(usize, usize)>)
    ensures
        ({
            let start = if heap > next {
                heap
            } else {
                next
            };
            match r {
                Some((from, to)) => {
                    &&& placeable(start as int, size as int)
                    &&& from == start
                    &&& to == start + word::align8(size as int)
                },
                None => !placeable(start as int, size as int),
            }
        }),
{
    let start: usize = if heap > next {
        heap
    } else {
        next
    };
    if size > usize::MAX - 7 {
        return None;
    }
    let rounded: usize = word::align_up(size);
    if start > usize::MAX - rounded {
        return None;
    }
    Some((start, start + rounded))
}

/// Where the block for `text` ends.
pub open spec fn block_end(caller: Caller<'_, ()>, host: Host, text: Seq<char>) -> int {
    block_start(caller, host) + word::align8(frame::frame(text).len() as int)
}

/// What is printed where the memory cannot be extended.
pub open spec fn growth_warning(pages: int) -> Seq<char> {
    "WARNING: memory.grow failed for "@ + text::decimal(pages) + " pages\n"@
}

/// Storing `text` in the guest's memory, from the state before to the state
/// after.
///
/// The frame of the text goes to [`block_start`]. Both allocators then start
/// past [`block_end`], and the pointer to the frame is the result. A memory that
/// ends short of the block is extended first; where that is refused, a warning
/// is printed, the result is zero, and the guest stays as it was, though the
/// host's offset has moved; it is refused only by the guest's memory itself. A block beyond the address range is a fault and
/// changes nothing.
pub open spec fn stored(
    caller: Caller<'_, ()>,
    caller_after: Caller<'_, ()>,
    memory: Memory,
    host: Host,
    host_after: Host,
    text: Seq<char>,
    r: Result<i32, Fault>,
) -> bool {
    let bytes = memory_bytes(caller, memory)->0;
    let bytes_after = memory_bytes(caller_after, memory)->0;
    let start = block_start(caller, host);
    let end = block_end(caller, host, text);
    &&& memory_bytes(caller_after, memory) is Some
    &&& same_exports(caller, caller_after)
    &&& if !placeable(start, frame::frame(text).len() as int) {
        &&& r == Err::<i32, Fault>(Fault::AddressOverflow)
        &&& same_guest(caller, caller_after)
        &&& host_after.arena@ == host.arena@
        &&& host_after.console@ == host.console@
    } else if growth_refused(bytes, bytes_after, end) {
        &&& r == Ok::<i32, Fault>(0)
        &&& growth_denied(caller, memory, pages_short(end, bytes.len() as int))
        &&& same_guest(caller, caller_after)
        &&& host_after.arena@ == host.arena@.moved(end)
        &&& host_after.console@ == host.console@.said(
            growth_warning(pages_short(end, bytes.len() as int)),
        )
    } else {
        &&& r == Ok::<i32, Fault>(word::pointer_of(start) as i32)
        &&& bytes_after == word::overwrite(extended(bytes, end), start, frame::frame(text))
        &&& heap_cell(caller_after) == cell_moved(heap_cell(caller), end)
        &&& host_after.arena@ == host.arena@.moved(end)
        &&& host_after.console@ == host.console@
    }
}

/// Says that the memory could not be extended by `pages`.
fn warn_of_growth(console: &mut Console, pages: u64)
    ensures
        final(console)@ == old(console)@.said(growth_warning(pages as int)),
{
    console.say("WARNING: memory.grow failed for ");
    console.say(text::digits_of(pages).as_str());
    console.say(" pages\n");
    assert(console@.out == old(console)@.out + growth_warning(pages as int));
}

/// The memory ended short of `end` and still does.
pub open spec fn growth_refused(bytes: Seq<u8>, bytes_after: Seq<u8>, end: int) -> bool {
    end > bytes.len() && bytes_after.len() == bytes.len()
}

/// Puts the frame of a text into the block from `start` to `end`, now that it is
/// known whether the memory reaches that far: `room` says so, or says how many
/// pages were refused. Returns the pointer to the frame, or zero after a warning.
pub fn fill_block(
    memory: &Memory,
    caller: &mut Caller<'_, ()>,
    host: &mut Host,
    start: usize,
    end: usize,
    string_value: &str,
    room: Result<(), u64>,
) -> (r: i32)
    requires
        memory_bytes(*old(caller), *memory) is Some,
        room is Ok ==> start + frame::frame(string_value@).len() <= memory_bytes(
            *old(caller),
            *memory,
        )->0.len(),
    ensures
        same_exports(*old(caller), *final(caller)),
        final(host).arena@ == old(host).arena@,
        match room {
            Ok(()) => {
                &&& r == word::pointer_of(start as int)
                &&& memory_bytes(*final(caller), *memory) == Some(
                    word::overwrite(
                        memory_bytes(*old(caller), *memory)->0,
                        start as int,
                        frame::frame(string_value@),
                    ),
                )
                &&& heap_cell(*final(caller)) == cell_moved(heap_cell(*old(caller)), end as int)
                &&& final(host).console@ == old(host).console@
            },
            Err(pages) => {
                &&& r == 0
                &&& same_guest(*old(caller), *final(caller))
                &&& final(host).console@ == old(host).console@.said(growth_warning(pages as int))
            },
        },
{
    if let Err(pages) = room {
        warn_of_growth(&mut host.console, pages);
        return 0;
    }
    let data = memory_data_mut(memory, caller);
    frame::write_length_prefixed_string(data, start, string_value);
    raise_heap(caller, end);
    word::to_pointer(start)
}

/// Allocates a length-prefixed string in the guest's linear memory and returns
/// the pointer to it.
pub fn allocate_string_in_memory(
    memory: &Memory,
    caller: &mut Caller<'_, ()>,
    host: &mut Host,
    string_value: &str,
) -> (r: Result<i32, Fault>)
    requires
        memory_bytes(*old(caller), *memory) is Some,
    ensures
        stored(
            *old(caller),
            *final(caller),
            *memory,
            *old(host),
            *final(host),
            string_value@,
            r,
        ),
{
    broadcast use lemma_denial_carries;

    let content = string_value.as_bytes();
    let heap: usize = guest_heap_top(caller);
    let next: usize = host.arena.next_offset();
    if content.len() > usize::MAX - 4 {
        return Err(Fault::AddressOverflow);
    }
    let (start, end) = match place_block(next, heap, 4 + content.len()) {
        Some(block) => block,
        None => {
            return Err(Fault::AddressOverflow);
        },
    };
    host.arena.move_to(end);
    let room = ensure_room(memory, caller, end);
    Ok(fill_block(memory, caller, host, start, end, string_value, room))
}

/// An extended memory reaches as far as was asked, and longer than before where
/// pages were added.
pub proof fn law_extension_reaches(bytes: Seq<u8>, end: int)
    ensures
        extended(bytes, end).len() >= end,
        extended(bytes, end).len() >= bytes.len(),
        end > bytes.len() ==> extended(bytes, end).len() > bytes.len(),
        extended(bytes, end).take(bytes.len() as int) == bytes,
{
    assert(extended(bytes, end).take(bytes.len() as int) == bytes);
}

/// Extending the memory leaves the strings in it as they were.
pub(crate) proof fn lemma_extension_keeps_frame(bytes: Seq<u8>, end: int, ptr: int)
    requires
        0 <= ptr,
        frame::framed_at(bytes, ptr) is Some,
    ensures
        frame::framed_at(extended(bytes, end), ptr) == frame::framed_at(bytes, ptr),
        word::le_word(extended(bytes, end), ptr) == word::le_word(bytes, ptr),
{
    let after = extended(bytes, end);
    law_extension_reaches(bytes, end);
    assert(forall|i: int| 0 <= i < bytes.len() ==> after[i] == bytes[i]);
    let len = word::le_word(bytes, ptr);
    assert(after.subrange(ptr + 4, ptr + 4 + len) == bytes.subrange(ptr + 4, ptr + 4 + len));
}

/// A text that was stored, and not refused for want of memory, can be read back
/// from where its block starts.
pub proof fn law_stored_text_reads_back(
    caller: Caller<'_, ()>,
    caller_after: Caller<'_, ()>,
    memory: Memory,
    host: Host,
    host_after: Host,
    text: Seq<char>,
    r: Result<i32, Fault>,
)
    requires
        stored(caller, caller_after, memory, host, host_after, text, r),
        vstd::utf8::encode_utf8(text).len() < 0x1_0000_0000,
        r is Ok,
        !growth_refused(
            memory_bytes(caller, memory)->0,
            memory_bytes(caller_after, memory)->0,
            block_end(caller, host, text),
        ),
    ensures
        frame::framed_at(memory_bytes(caller_after, memory)->0, block_start(caller, host)) == Some(
            text,
        ),
        word::le_word(memory_bytes(caller_after, memory)->0, block_start(caller, host))
            == vstd::utf8::encode_utf8(text).len(),
        block_start(caller, host) < 0x8000_0000 ==> word::address_of(r->Ok_0) == block_start(
            caller,
            host,
        ),
{
    let bytes = memory_bytes(caller, memory)->0;
    let start = block_start(caller, host);
    let end = block_end(caller, host, text);
    let room = extended(bytes, end);
    crate::arena::law_offset_is_address(host.arena);
    law_extension_reaches(bytes, end);
    word::law_align8(frame::frame(text).len() as int);
    frame::law_frame_round_trip(room, start, text);
    if start < 0x8000_0000 {
        word::law_pointer_round_trip(start);
    }
}

/// A string that ends before the block of a text stays as it is when the text is
/// stored, however that ends.
pub proof fn law_text_spares_earlier_text(
    caller: Caller<'_, ()>,
    caller_after: Caller<'_, ()>,
    memory: Memory,
    host: Host,
    host_after: Host,
    text: Seq<char>,
    r: Result<i32, Fault>,
    ptr: int,
)
    requires
        stored(caller, caller_after, memory, host, host_after, text, r),
        0 <= ptr,
        frame::framed_at(memory_bytes(caller, memory)->0, ptr) is Some,
        ptr + 4 + word::le_word(memory_bytes(caller, memory)->0, ptr) <= block_start(caller, host),
    ensures
        frame::framed_at(memory_bytes(caller_after, memory)->0, ptr) == frame::framed_at(
            memory_bytes(caller, memory)->0,
            ptr,
        ),
{
    let bytes = memory_bytes(caller, memory)->0;
    let start = block_start(caller, host);
    let end = block_end(caller, host, text);
    word::law_align8(frame::frame(text).len() as int);
    if r is Ok && !growth_refused(bytes, memory_bytes(caller_after, memory)->0, end) {
        lemma_extension_keeps_frame(bytes, end, ptr);
        law_extension_reaches(bytes, end);
        frame::law_frame_undisturbed(extended(bytes, end), ptr, start, frame::frame(text));
    }
}

/// Of two texts stored one after the other, the first can still be read where it
/// was stored, however the second attempt ends; the block of the second starts
/// past that of the first.
pub proof fn law_stored_text_survives(
    caller: Caller<'_, ()>,
    caller_between: Caller<'_, ()>,
    caller_after: Caller<'_, ()>,
    memory: Memory,
    host: Host,
    host_between: Host,
    host_after: Host,
    first: Seq<char>,
    second: Seq<char>,
    r1: Result<i32, Fault>,
    r2: Result<i32, Fault>,
)
    requires
        stored(caller, caller_between, memory, host, host_between, first, r1),
        stored(caller_between, caller_after, memory, host_between, host_after, second, r2),
        vstd::utf8::encode_utf8(first).len() < 0x1_0000_0000,
        r1 is Ok,
        !growth_refused(
            memory_bytes(caller, memory)->0,
            memory_bytes(caller_between, memory)->0,
            block_end(caller, host, first),
        ),
    ensures
        frame::framed_at(memory_bytes(caller_after, memory)->0, block_start(caller, host)) == Some(
            first,
        ),
        block_start(caller_between, host_between) >= block_end(caller, host, first),
{
    crate::arena::law_offset_is_address(host.arena);
    law_stored_text_reads_back(caller, caller_between, memory, host, host_between, first, r1);
    word::law_align8(frame::frame(first).len() as int);
    law_text_spares_earlier_text(
        caller_between,
        caller_after,
        memory,
        host_between,
        host_after,
        second,
        r2,
        block_start(caller, host),
    );
}

/// After a text was stored, the guest's own allocator and the host's agree on
/// where free memory begins, if the guest lets its heap pointer be moved.
pub proof fn law_allocators_agree(
    caller: Caller<'_, ()>,
    caller_after: Caller<'_, ()>,
    memory: Memory,
    host: Host,
    host_after: Host,
    text: Seq<char>,
    r: Result<i32, Fault>,
)
    requires
        stored(caller, caller_after, memory, host, host_after, text, r),
        r is Ok,
        !growth_refused(
            memory_bytes(caller, memory)->0,
            memory_bytes(caller_after, memory)->0,
            block_end(caller, host, text),
        ),
        cell_takes_i32(heap_cell(caller)),
        block_end(caller, host, text) < 0x8000_0000,
    ensures
        heap_top(caller_after) == host_after.arena@.next,
        heap_top(caller_after) == block_end(caller, host, text),
        heap_top(caller_after) >= block_start(caller, host) + frame::frame(text).len(),
{
    crate::arena::law_offset_is_address(host.arena);
    word::law_align8(frame::frame(text).len() as int);
    word::law_pointer_round_trip(block_end(caller, host, text));
}

} // verus!
