//! What the host promises the guest, call by call, in terms of the strings and
//! bytes that the guest has in memory.

use crate::abi::HostFunction;
use crate::bridge;
use crate::bridge::{Reply, Value};
use crate::guest;
use crate::guest::Export;
use crate::host::{Fault, Host};
use crate::list;
use crate::strings;
use crate::text;
use crate::word;
use vstd::prelude::*;
use wasmtime::Caller;

verus! {

/// A call of a host function: what was called, and how the guest and the host
/// stood before and after.
pub ghost struct Call<'a> {
    pub function: HostFunction,
    pub name: Seq<char>,
    pub args: Seq<Value>,
    pub before: Caller<'a, ()>,
    pub after: Caller<'a, ()>,
    pub host: Host,
    pub host_after: Host,
    pub reply: Result<Reply, Fault>,
}

impl<'a> Call<'a> {
    /// The call was answered.
    pub open spec fn answered(self) -> bool {
        bridge::answered(
            self.function,
            self.name,
            self.args,
            self.before,
            self.after,
            self.host,
            self.host_after,
            self.reply,
        )
    }

    /// The integer arguments were these.
    pub open spec fn takes(self, integers: Seq<i32>) -> bool {
        &&& self.args.len() == integers.len()
        &&& forall|i: int|
            0 <= i < integers.len() ==> #[trigger] self.args[i] == Value::I32(integers[i])
    }

    /// The memory of the guest before the call.
    pub open spec fn memory(self) -> Option<Seq<u8>> {
        guest::guest_bytes(self.before)
    }

    /// The memory of the guest after the call.
    pub open spec fn memory_after(self) -> Option<Seq<u8>> {
        guest::guest_bytes(self.after)
    }

    /// The call returned the integer.
    pub open spec fn gives(self, value: i32) -> bool {
        self.reply == Ok::<Reply, Fault>(Reply::Done(Some(Value::I32(value))))
    }

    /// The guest and the allocator are as they were, and nothing was printed.
    pub open spec fn changes_nothing(self) -> bool {
        self.prints(Seq::empty(), Seq::empty())
    }

    /// The guest and the allocator are as they were, and this was printed, to
    /// standard output and to standard error.
    pub open spec fn prints(self, out: Seq<char>, err: Seq<char>) -> bool {
        &&& guest::same_guest(self.before, self.after)
        &&& self.host_after.arena@.next == self.host.arena@.next
        &&& self.host_after.arena@.marks == self.host.arena@.marks
        &&& self.host_after.console@.out == self.host.console@.out + out
        &&& self.host_after.console@.err == self.host.console@.err + err
    }

    /// The call could not be finished, for an address beyond the address range.
    pub open spec fn faults(self) -> bool {
        &&& self.reply == Err::<Reply, Fault>(Fault::AddressOverflow)
        &&& self.changes_nothing()
    }

    /// The call set out to store this text.
    pub open spec fn stores(self, t: Seq<char>) -> bool {
        &&& bridge::integer_reply(self.reply) is Some
        &&& strings::carried_out(
            strings::Plan::Store(t),
            self.before,
            self.after,
            self.host,
            self.host_after,
            bridge::integer_reply(self.reply)->0,
        )
    }

    /// The call set out to store a list of these strings.
    pub open spec fn lists(self, parts: Seq<Seq<char>>) -> bool {
        &&& bridge::integer_reply(self.reply) is Some
        &&& strings::carried_out(
            strings::Plan::List(parts),
            self.before,
            self.after,
            self.host,
            self.host_after,
            bridge::integer_reply(self.reply)->0,
        )
    }
}

/// What the host answers is an answered call, of which the laws speak.
pub proof fn law_answer(
    function: HostFunction,
    name: &str,
    args: &[Value],
    caller: &mut Caller<'_, ()>,
    host: &mut Host,
    reply: Result<Reply, Fault>,
)
    requires
        call_ensures(bridge::answer, (function, name, args, caller, host), reply),
    ensures
        (Call {
            function,
            name: name@,
            args: args@,
            before: *old(caller),
            after: *final(caller),
            host: *old(host),
            host_after: *final(host),
            reply,
        }).answered(),
{
}

/// A guest that is as it was exports the same items, with the same bytes in its
/// memories and the same values in its globals.
pub proof fn law_same_guest(
    before: Caller<'_, ()>,
    after: Caller<'_, ()>,
    name: Seq<char>,
    memory: wasmtime::Memory,
    global: wasmtime::Global,
)
    requires
        guest::same_guest(before, after),
    ensures
        guest::exported(after, name) == guest::exported(before, name),
        guest::memory_bytes(after, memory) == guest::memory_bytes(before, memory),
        guest::global_cell(after, global) == guest::global_cell(before, global),
        guest::guest_bytes(after) == guest::guest_bytes(before),
{
}

/// The memory of a guest is the one that it exports as `memory`.
pub proof fn law_guest_memory(caller: Caller<'_, ()>)
    ensures
        match guest::exported(caller, "memory"@) {
            Some(Export::Memory(memory)) => guest::guest_bytes(caller) == guest::memory_bytes(
                caller,
                memory,
            ),
            _ => guest::guest_bytes(caller) is None,
        },
{
}

/// The address that a pointer of the guest stands for.
pub open spec fn unsigned(ptr: i32) -> int {
    if ptr >= 0 {
        ptr as int
    } else {
        usize::MAX + 1 + ptr
    }
}

/// The four bytes at `at`, the least significant first.
pub open spec fn word_at(data: Seq<u8>, at: int) -> int {
    data[at] + 256 * data[at + 1] + 65_536 * data[at + 2] + 16_777_216 * data[at + 3]
}

/// The bytes at `at` are a length and behind it that many bytes, those of `t`.
pub open spec fn text_stands_at(data: Seq<u8>, at: int, t: Seq<char>) -> bool {
    let bytes = vstd::utf8::encode_utf8(t);
    &&& 0 <= at
    &&& at + 4 + bytes.len() <= data.len()
    &&& word_at(data, at) == bytes.len()
    &&& forall|i: int| 0 <= i < bytes.len() ==> data[at + 4 + i] == #[trigger] bytes[i]
}

/// The pointer leads past the end of the address range.
pub open spec fn leads_beyond(ptr: i32) -> bool {
    unsigned(ptr) + 4 > usize::MAX
}

/// The pointer leads to the string `t`.
pub open spec fn leads_to(data: Seq<u8>, ptr: i32, t: Seq<char>) -> bool {
    !leads_beyond(ptr) && text_stands_at(data, unsigned(ptr), t)
}

/// The pointer leads to no string.
pub open spec fn leads_nowhere(data: Seq<u8>, ptr: i32) -> bool {
    !leads_beyond(ptr) && forall|t: Seq<char>| !#[trigger] text_stands_at(data, unsigned(ptr), t)
}

/// The pointer leads to `t`, or `t` is empty and it leads to no string.
pub open spec fn leads_to_or_empty(data: Seq<u8>, ptr: i32, t: Seq<char>) -> bool {
    leads_to(data, ptr, t) || (leads_nowhere(data, ptr) && t.len() == 0)
}

proof fn lemma_framed(data: Seq<u8>, at: int, t: Seq<char>)
    requires
        0 <= at,
    ensures
        crate::frame::framed_at(data, at) == Some(t) <==> text_stands_at(data, at, t),
{
    let bytes = vstd::utf8::encode_utf8(t);
    if at + 4 <= data.len() {
        let len = word::le_word(data, at);
        assert(len == word_at(data, at));
        if at + 4 + len <= data.len() {
            let content = data.subrange(at + 4, at + 4 + len);
            if text_stands_at(data, at, t) {
                assert(content == bytes);
                vstd::utf8::encode_utf8_valid_utf8(t);
                vstd::utf8::encode_utf8_decode_utf8(t);
            }
            if crate::frame::framed_at(data, at) == Some(t) {
                vstd::utf8::decode_utf8_encode_utf8(content);
                assert(content == bytes);
                assert forall|i: int| 0 <= i < bytes.len() implies data[at + 4 + i]
                    == #[trigger] bytes[i] by {
                    assert(content[i] == data[at + 4 + i]);
                }
            }
        }
    }
}

/// Reading a string finds exactly what the bytes in memory spell.
pub proof fn law_reading(data: Seq<u8>, ptr: i32, t: Seq<char>)
    ensures
        strings::text_at(data, ptr) == Ok::<Option<Seq<char>>, Fault>(Some(t)) <==> leads_to(
            data,
            ptr,
            t,
        ),
        strings::text_at(data, ptr) == Ok::<Option<Seq<char>>, Fault>(None) <==> leads_nowhere(
            data,
            ptr,
        ),
        strings::text_at(data, ptr) == Err::<Option<Seq<char>>, Fault>(Fault::AddressOverflow)
            <==> leads_beyond(ptr),
{
    let at = unsigned(ptr);
    lemma_framed(data, at, t);
    match crate::frame::framed_at(data, at) {
        Some(found) => {
            lemma_framed(data, at, found);
        },
        None => {
            assert forall|other: Seq<char>| !#[trigger] text_stands_at(data, at, other) by {
                lemma_framed(data, at, other);
            }
        },
    }
}

/// A pointer leads to one string at most.
pub proof fn law_one_string(data: Seq<u8>, ptr: i32, t: Seq<char>, other: Seq<char>)
    requires
        leads_to(data, ptr, t),
    ensures
        leads_to(data, ptr, other) ==> other == t,
        !leads_nowhere(data, ptr),
{
    law_reading(data, ptr, t);
    law_reading(data, ptr, other);
}

pub(crate) proof fn lemma_text_or_empty(data: Seq<u8>, ptr: i32, t: Seq<char>)
    requires
        leads_to_or_empty(data, ptr, t),
    ensures
        strings::text_at(data, ptr) is Ok,
        strings::or_empty(strings::text_at(data, ptr)->Ok_0) == t,
{
    law_reading(data, ptr, t);
    if !leads_to(data, ptr, t) {
        assert(t == Seq::<char>::empty());
    }
}

/// The value that the guest exports as its heap pointer, and whether it lets the
/// host set it.
pub open spec fn heap_pointer(caller: Caller<'_, ()>) -> Option<(i32, bool)> {
    match guest::exported(caller, "__heap_ptr"@) {
        Some(Export::Global(global)) => match guest::global_cell(caller, global) {
            Some((Some(value), settable)) => Some((value, settable)),
            _ => None,
        },
        _ => None,
    }
}

/// Where a call finds free memory: past what either allocator has handed out.
pub open spec fn free_from(call: Call<'_>) -> int {
    let next = call.host.arena@.next;
    match heap_pointer(call.before) {
        Some((value, _)) => if unsigned(value) > next {
            unsigned(value)
        } else {
            next
        },
        None => next,
    }
}

/// The heap pointer of the guest has moved to `end`, if the guest lets it be set.
pub open spec fn heap_moved(call: Call<'_>, end: int) -> bool {
    &&& guest::same_exports(call.before, call.after)
    &&& match heap_pointer(call.before) {
        Some((_, true)) => heap_pointer(call.after) matches Some((value, settable)) && settable && (
        value - end) % 0x1_0000_0000 == 0,
        other => heap_pointer(call.after) == other,
    }
}

/// `after` is as long as it must be to reach from `before` to `end` in whole pages,
/// and not a page longer.
pub open spec fn grown_to(before: int, after: int, end: int) -> bool {
    if end <= before {
        after == before
    } else {
        &&& (after - before) % 65_536 == 0
        &&& end <= after < end + 65_536
    }
}

/// The byte at `at` before the call; zero where there was none.
pub open spec fn byte_before(call: Call<'_>, at: int) -> u8 {
    if at < call.memory()->0.len() {
        call.memory()->0[at]
    } else {
        0
    }
}

/// The memory could not be made to reach to `end`: it was asked for as few pages as
/// will do, may be denied them, and the call says so and leaves the guest alone.
pub open spec fn growth_failed(call: Call<'_>, end: int) -> bool {
    let size = call.memory()->0.len() as int;
    &&& call.gives(0)
    &&& guest::same_guest(call.before, call.after)
    &&& exists|pages: int|
        {
            &&& #[trigger] guest::growth_denied(
                call.before,
                guest::memory_of(call.before)->0,
                pages,
            )
            &&& grown_to(size, size + 65_536 * pages, end)
            &&& call.host_after.console@.out == call.host.console@.out
                + "WARNING: memory.grow failed for "@ + text::decimal(pages) + " pages\n"@
        }
}

/// The call returned a pointer that stands for `start` in 32 bits.
pub open spec fn gives_address(call: Call<'_>, start: int) -> bool {
    exists|ptr: i32| #[trigger] call.gives(ptr) && (ptr - start) % 0x1_0000_0000 == 0
}

/// What storing a text does.
///
/// The text goes behind its length to where memory is free, the rest of the memory
/// stays as it was, and the allocators continue behind it at a distance of whole
/// eights. The memory grows by as few pages as will do. Where the memory may not
/// grow by that many pages, the call says so, returns zero and leaves the guest
/// alone. Where the text would end beyond the address range, it is a fault.
#[verifier::spinoff_prover]
#[verifier::rlimit(60)]
pub proof fn law_storing(call: Call<'_>, t: Seq<char>)
    requires
        call.stores(t),
        call.memory() is Some,
    ensures
        ({
            let size = 4 + vstd::utf8::encode_utf8(t).len() as int;
            let start = free_from(call);
            let end = start + (size + 7) / 8 * 8;
            if size + 7 > usize::MAX || end > usize::MAX {
                call.faults()
            } else {
                &&& call.memory_after() is Some
                &&& call.host_after.arena@.next == end
                &&& call.host_after.arena@.marks == call.host.arena@.marks
                &&& call.host_after.console@.err == call.host.console@.err
                &&& if call.memory_after()->0.len() < end {
                    growth_failed(call, end)
                } else {
                    stored_in(call, t, start, end)
                }
            }
        }),
{
    let size = 4 + vstd::utf8::encode_utf8(t).len() as int;
    let start = free_from(call);
    let end = start + (size + 7) / 8 * 8;
    let bytes = call.memory()->0;
    lemma_free_from(call);
    assert(crate::frame::frame(t).len() == size);
    assert(guest::block_end(call.before, call.host, t) == end);
    if guest::placeable(start, size) {
        assert(guest::memory_of(call.after) == guest::memory_of(call.before));
        let after = call.memory_after()->0;
        lemma_fewest_pages(bytes, end);
        if guest::growth_refused(bytes, after, end) {
            lemma_growth_failed(call, t, end);
        } else {
            lemma_stored(call, t, start, end);
        }
    } else {
        assert(call.host.console@.out + Seq::<char>::empty() == call.host.console@.out);
        assert(call.host.console@.err + Seq::<char>::empty() == call.host.console@.err);
    }
}

/// The text was put into the block from `start` to `end`, and nothing was printed.
pub open spec fn stored_in(call: Call<'_>, t: Seq<char>, start: int, end: int) -> bool {
    &&& gives_address(call, start)
    &&& text_is_put(call, start, t)
    &&& grown_to(
        call.memory()->0.len() as int,
        call.memory_after()->0.len() as int,
        end,
    )
    &&& heap_moved(call, end)
    &&& call.host_after.console@.out == call.host.console@.out
}

#[verifier::rlimit(40)]
proof fn lemma_stored(call: Call<'_>, t: Seq<char>, start: int, end: int)
    requires
        call.stores(t),
        call.memory() is Some,
        start == guest::block_start(call.before, call.host),
        0 <= start,
        end == guest::block_end(call.before, call.host, t),
        guest::placeable(start, crate::frame::frame(t).len() as int),
        !guest::growth_refused(
            call.memory()->0,
            guest::memory_bytes(call.after, guest::memory_of(call.before)->0)->0,
            end,
        ),
    ensures
        stored_in(call, t, start, end),
        call.memory_after()->0.len() >= end,
{
    let ptr = word::pointer_of(start) as i32;
    assert(guest::memory_of(call.after) == guest::memory_of(call.before));
    assert(call.gives(ptr));
    assert((ptr - start) % 0x1_0000_0000 == 0);
    word::law_align8(crate::frame::frame(t).len() as int);
    guest::law_extension_reaches(call.memory()->0, end);
    lemma_fewest_pages(call.memory()->0, end);
    lemma_text_put(call, start, end, t);
    lemma_heap_moved(call, end);
}

proof fn lemma_free_from(call: Call<'_>)
    ensures
        guest::block_start(call.before, call.host) == free_from(call),
        0 <= free_from(call),
{
    crate::arena::law_offset_is_address(call.host.arena);
}

proof fn lemma_fewest_pages(bytes: Seq<u8>, end: int)
    ensures
        grown_to(bytes.len() as int, guest::extended(bytes, end).len() as int, end),
        end > bytes.len() ==> grown_to(
            bytes.len() as int,
            bytes.len() + 65_536 * guest::pages_short(end, bytes.len() as int),
            end,
        ),
{
}

proof fn lemma_growth_failed(call: Call<'_>, t: Seq<char>, end: int)
    requires
        call.stores(t),
        call.memory() is Some,
        end == guest::block_end(call.before, call.host, t),
        guest::placeable(
            guest::block_start(call.before, call.host),
            crate::frame::frame(t).len() as int,
        ),
        guest::growth_refused(
            call.memory()->0,
            guest::memory_bytes(call.after, guest::memory_of(call.before)->0)->0,
            end,
        ),
    ensures
        growth_failed(call, end),
{
    let bytes = call.memory()->0;
    let pages = guest::pages_short(end, bytes.len() as int);
    lemma_fewest_pages(bytes, end);
    assert(call.gives(0));
    assert(guest::growth_denied(call.before, guest::memory_of(call.before)->0, pages));
    assert(call.host.console@.out + guest::growth_warning(pages) == call.host.console@.out
        + "WARNING: memory.grow failed for "@ + text::decimal(pages) + " pages\n"@);
}

/// The bytes of `t` stand behind their length at `start`, and all other bytes are
/// as they were. Of a length beyond 32 bits, the low 32 bits stand there.
pub open spec fn text_is_put(call: Call<'_>, start: int, t: Seq<char>) -> bool {
    let bytes = vstd::utf8::encode_utf8(t);
    let after = call.memory_after()->0;
    &&& start + 4 + bytes.len() <= after.len()
    &&& (word_at(after, start) - bytes.len()) % 0x1_0000_0000 == 0
    &&& forall|i: int| 0 <= i < bytes.len() ==> after[start + 4 + i] == #[trigger] bytes[i]
    &&& forall|at: int|
        0 <= at < after.len() && !(start <= at < start + 4 + bytes.len()) ==> #[trigger] after[at]
            == byte_before(call, at)
}

pub(crate) proof fn lemma_word_written(after: Seq<u8>, at: int, n: int)
    requires
        0 <= n,
        0 <= at,
        at + 4 <= after.len(),
        forall|i: int| 0 <= i < 4 ==> #[trigger] after[at + i] == word::le_bytes(n)[i],
    ensures
        word_at(after, at) == n % 0x1_0000_0000,
        (word_at(after, at) - n) % 0x1_0000_0000 == 0,
{
    let low = n % 0x1_0000_0000;
    word::lemma_bytes_of_low_word(n);
    word::law_word_round_trip(after, at, low);
    let written = word::overwrite(after, at, word::le_bytes(low));
    assert(after[at + 0] == word::le_bytes(n)[0]);
    assert(after[at + 1] == word::le_bytes(n)[1]);
    assert(after[at + 2] == word::le_bytes(n)[2]);
    assert(after[at + 3] == word::le_bytes(n)[3]);
    assert(written == after);
    assert(word_at(after, at) == word::le_word(after, at));
}

proof fn lemma_text_put(call: Call<'_>, start: int, end: int, t: Seq<char>)
    requires
        0 <= start,
        call.memory() is Some,
        call.memory_after() is Some,
        end >= start + 4 + vstd::utf8::encode_utf8(t).len(),
        call.memory_after()->0 == word::overwrite(
            guest::extended(call.memory()->0, end),
            start,
            crate::frame::frame(t),
        ),
    ensures
        text_is_put(call, start, t),
{
    let bytes = vstd::utf8::encode_utf8(t);
    let frame = crate::frame::frame(t);
    let after = call.memory_after()->0;
    let room = guest::extended(call.memory()->0, end);
    guest::law_extension_reaches(call.memory()->0, end);
    assert forall|i: int| 0 <= i < 4 implies #[trigger] after[start + i] == word::le_bytes(
        bytes.len() as int,
    )[i] by {
        assert(after[start + i] == frame[i]);
    }
    lemma_word_written(after, start, bytes.len() as int);
    assert forall|i: int| 0 <= i < bytes.len() implies after[start + 4 + i]
        == #[trigger] bytes[i] by {
        assert(after[start + 4 + i] == frame[4 + i]);
    }
}

proof fn lemma_heap_moved(call: Call<'_>, end: int)
    requires
        guest::same_exports(call.before, call.after),
        guest::heap_cell(call.after) == guest::cell_moved(guest::heap_cell(call.before), end),
    ensures
        heap_moved(call, end),
{
    assert(guest::exported(call.after, "__heap_ptr"@) == guest::exported(
        call.before,
        "__heap_ptr"@,
    ));
}

/// Where a string of a list is put: the strings follow the header and the pointers
/// one after the other.
pub open spec fn string_place(start: int, parts: Seq<Seq<char>>, index: int) -> int
    decreases index,
{
    if index <= 0 {
        start + 16 + 4 * parts.len()
    } else {
        string_place(start, parts, index - 1) + 4 + vstd::utf8::encode_utf8(
            parts[index - 1],
        ).len()
    }
}

proof fn lemma_string_place(start: int, parts: Seq<Seq<char>>, index: int)
    requires
        0 <= index,
    ensures
        string_place(start, parts, index) == list::string_address(start, parts, index),
    decreases index,
{
    if index > 0 {
        lemma_string_place(start, parts, index - 1);
    }
}

/// A list of `parts` stands at `start`: its length twice, the mark of strings, a
/// zero, one pointer for each string, and the strings.
pub open spec fn list_stands_at(data: Seq<u8>, start: int, parts: Seq<Seq<char>>) -> bool {
    &&& word_at(data, start) == parts.len()
    &&& word_at(data, start + 4) == parts.len()
    &&& word_at(data, start + 8) == 3
    &&& word_at(data, start + 12) == 0
    &&& forall|i: int|
        0 <= i < parts.len() ==> word_at(data, start + 16 + 4 * i) == #[trigger] string_place(
            start,
            parts,
            i,
        )
    &&& forall|i: int|
        0 <= i < parts.len() ==> text_stands_at(
            data,
            #[trigger] string_place(start, parts, i),
            parts[i],
        )
}

/// The memory was made to reach to `bound` by as few pages as will do, or it stayed
/// as long as it was, and may be denied that many.
pub open spec fn grown_or_denied(call: Call<'_>, bound: int) -> bool {
    let size = call.memory()->0.len() as int;
    let size_after = call.memory_after()->0.len() as int;
    ||| grown_to(size, size_after, bound)
    ||| {
        &&& size_after == size
        &&& exists|pages: int|
            {
                &&& #[trigger] guest::growth_denied(
                    call.before,
                    guest::memory_of(call.before)->0,
                    pages,
                )
                &&& grown_to(size, size + 65_536 * pages, bound)
            }
    }
}

/// Outside the stretch from `start` to `end` all bytes are as they were.
pub open spec fn rest_is_kept(call: Call<'_>, start: int, end: int) -> bool {
    let after = call.memory_after()->0;
    forall|at: int|
        0 <= at < after.len() && !(start <= at < end) ==> #[trigger] after[at] == byte_before(
            call,
            at,
        )
}

/// What storing a list of strings does, as long as it ends below four gibibytes.
///
/// The list goes to where memory is free, its strings behind it, the rest of the
/// memory stays as it was, and the allocators continue behind them. The memory
/// grows by as few pages as will do, if it may grow by that many. It is a fault
/// where the list then does not fit.
#[verifier::spinoff_prover]
#[verifier::rlimit(60)]
pub proof fn law_listing(call: Call<'_>, parts: Seq<Seq<char>>)
    requires
        call.lists(parts),
        call.memory() is Some,
        string_place(free_from(call), parts, parts.len() as int) + 7 <= 0xffff_ffff,
    ensures
        ({
            let start = free_from(call);
            let end = string_place(start, parts, parts.len() as int);
            let bound = (end + 7) / 8 * 8;
            let after = call.memory_after()->0;
            &&& call.memory_after() is Some
            &&& call.host_after.arena@.next == bound
            &&& call.host_after.arena@.marks == call.host.arena@.marks
            &&& call.host_after.console@.out == call.host.console@.out
            &&& call.host_after.console@.err == call.host.console@.err
            &&& heap_moved(call, bound)
            &&& grown_or_denied(call, bound)
            &&& if after.len() < end {
                &&& call.reply == Err::<Reply, Fault>(Fault::OutOfMemory)
                &&& rest_is_kept(call, start, start)
            } else {
                &&& gives_address(call, start)
                &&& list_stands_at(after, start, parts)
                &&& rest_is_kept(call, start, end)
            }
        }),
{
    let start = free_from(call);
    let count = parts.len() as int;
    let end = string_place(start, parts, count);
    let bound = (end + 7) / 8 * 8;
    let memory = guest::memory_of(call.before)->0;
    let before = call.memory()->0;
    lemma_free_from(call);
    lemma_string_place(start, parts, count);
    list::lemma_strings_inside(start, parts);
    assert(list::list_end(start, parts) == end);
    assert(list::list_bound(start, parts) == bound);
    assert(guest::memory_of(call.after) == guest::memory_of(call.before));
    let after = call.memory_after()->0;
    let refused = guest::growth_refused(before, after, bound);
    let room = if refused {
        before
    } else {
        guest::extended(before, bound)
    };
    guest::law_extension_reaches(before, bound);
    lemma_fewest_pages(before, bound);
    lemma_heap_moved(call, bound);
    list::lemma_list_keeps_size(room, start, parts);
    assert(after.len() == room.len());
    if refused {
        let pages = guest::pages_short(bound, before.len() as int);
        assert(guest::growth_denied(call.before, memory, pages));
    }
    list::lemma_fits_below_four_gibibytes(room.len() as int, start, parts);
    if room.len() >= end {
        let ptr = word::pointer_of(start) as i32;
        assert(call.gives(ptr));
        assert((ptr - start) % 0x1_0000_0000 == 0);
        list::law_list_reads_back(room, start, parts);
        lemma_list_stands(room, start, parts);
    }
}

proof fn lemma_list_stands(room: Seq<u8>, start: int, parts: Seq<Seq<char>>)
    requires
        0 <= start,
        list::list_end(start, parts) <= 0xffff_ffff,
        list::list_end(start, parts) <= room.len(),
    ensures
        list_stands_at(list::with_list(room, start, parts), start, parts),
{
    let after = list::with_list(room, start, parts);
    list::law_list_reads_back(room, start, parts);
    list::lemma_strings_inside(start, parts);
    assert forall|i: int| 0 <= i < parts.len() implies word_at(after, start + 16 + 4 * i)
        == #[trigger] string_place(start, parts, i) && text_stands_at(
        after,
        string_place(start, parts, i),
        parts[i],
    ) by {
        lemma_string_place(start, parts, i);
        let place = list::string_address(start, parts, i);
        lemma_framed(after, place, parts[i]);
    }
}

/// A text that the program hands over is stored as it is, or not at all where the
/// guest has no memory; then nothing changes.
pub proof fn law_store_text(
    caller: &mut Caller<'_, ()>,
    host: &mut Host,
    t: &str,
    r: Result<i32, Fault>,
)
    requires
        call_ensures(strings::store_text, (caller, host, t), r),
    ensures
        guest::guest_bytes(*old(caller)) is Some ==> strings::carried_out(
            strings::Plan::Store(t@),
            *old(caller),
            *final(caller),
            *old(host),
            *final(host),
            r,
        ),
        guest::guest_bytes(*old(caller)) is None ==> {
            &&& r == Ok::<i32, Fault>(0)
            &&& guest::same_guest(*old(caller), *final(caller))
            &&& final(host).arena@ == old(host).arena@
            &&& final(host).console@.out == old(host).console@.out
            &&& final(host).console@.err == old(host).console@.err
        },
{
}

/// A line that the program hands over is printed as it is, and ended.
pub proof fn law_print_line(host: &mut Host, t: &str)
    requires
        call_ensures(crate::output::print_line, (host, t), ()),
    ensures
        final(host).console@.out == old(host).console@.out + t@ + "\n"@,
        final(host).console@.err == old(host).console@.err,
        final(host).arena@ == old(host).arena@,
{
    assert(old(host).console@.out + t@ + "\n"@ == old(host).console@.out + (t@ + "\n"@));
}

} // verus!
