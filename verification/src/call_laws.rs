//! What each host function does for the guest, in terms of the strings and bytes in
//! the guest's memory.

use crate::abi;
use crate::abi::HostFunction;
use crate::arrays;
use crate::bridge;
use crate::bridge::{Reply, Value};
use crate::host::Fault;
use crate::laws;
use crate::laws::Call;
use crate::output;
use crate::strings;
use crate::strings::{Ends, Plan};
use crate::text;
use crate::text_laws;
use crate::word;
use vstd::prelude::*;

verus! {

proof fn lemma_typed(call: Call<'_>, integers: Seq<i32>)
    requires
        call.takes(integers),
        abi::parameters(call.function) == Seq::new(
            integers.len(),
            |i: int| abi::ValueType::I32,
        ),
    ensures
        bridge::typed(call.args, abi::parameters(call.function)),
        forall|i: int|
            0 <= i < integers.len() ==> #[trigger] bridge::integer(call.args, i) == integers[i],
{
}

proof fn lemma_quiet(call: Call<'_>)
    ensures
        call.host.console@.out + Seq::<char>::empty() == call.host.console@.out,
        call.host.console@.err + Seq::<char>::empty() == call.host.console@.err,
{
}

/// Concatenating stores the two strings one behind the other. A string that cannot
/// be read is complained of, the first before the second.
pub proof fn law_concat(
    call: Call<'_>,
    data: Seq<u8>,
    ptr1: i32,
    ptr2: i32,
    first: Seq<char>,
    second: Seq<char>,
)
    requires
        call.answered(),
        call.function == HostFunction::StringConcat,
        call.takes(seq![ptr1, ptr2]),
        call.memory() == Some(data),
    ensures
        laws::leads_to(data, ptr1, first) && laws::leads_to(data, ptr2, second) ==> call.stores(
            first + second,
        ),
        laws::leads_beyond(ptr1) ==> call.faults(),
        laws::leads_nowhere(data, ptr1) ==> call.gives(0) && call.prints(
            Seq::empty(),
            call.name + ": ptr1 out of bounds or invalid UTF-8"@ + "\n"@,
        ),
        laws::leads_to(data, ptr1, first) && laws::leads_beyond(ptr2) ==> call.faults(),
        laws::leads_to(data, ptr1, first) && laws::leads_nowhere(data, ptr2) ==> call.gives(0)
            && call.prints(
            Seq::empty(),
            call.name + ": ptr2 out of bounds or invalid UTF-8"@ + "\n"@,
        ),
{
    assert(abi::parameters(call.function) == Seq::new(2, |i: int| abi::ValueType::I32));
    lemma_typed(call, seq![ptr1, ptr2]);
    laws::law_reading(data, ptr1, first);
    laws::law_reading(data, ptr2, second);
    lemma_quiet(call);
    assert(bridge::integer(call.args, 0) == ptr1);
    assert(bridge::integer(call.args, 1) == ptr2);
}

/// Comparing gives zero exactly for equal strings, and one for different ones. A
/// string that cannot be read counts as empty.
pub proof fn law_compare(
    call: Call<'_>,
    data: Seq<u8>,
    ptr1: i32,
    ptr2: i32,
    first: Seq<char>,
    second: Seq<char>,
)
    requires
        call.answered(),
        call.function == HostFunction::StringCompare,
        call.takes(seq![ptr1, ptr2]),
        call.memory() == Some(data),
    ensures
        laws::leads_to_or_empty(data, ptr1, first) && laws::leads_to_or_empty(data, ptr2, second)
            ==> {
            &&& call.changes_nothing()
            &&& call.gives(0) <==> first.len() == second.len() && forall|i: int|
                0 <= i < first.len() ==> #[trigger] first[i] == second[i]
            &&& call.gives(0) || call.gives(1)
        },
        laws::leads_beyond(ptr1) || laws::leads_beyond(ptr2) ==> call.faults(),
{
    assert(abi::parameters(call.function) == Seq::new(2, |i: int| abi::ValueType::I32));
    lemma_typed(call, seq![ptr1, ptr2]);
    law_comparison_of_texts(data, ptr1, ptr2, first, second);
    laws::law_reading(data, ptr1, first);
    laws::law_reading(data, ptr2, second);
    lemma_quiet(call);
    assert(bridge::integer(call.args, 0) == ptr1);
    assert(bridge::integer(call.args, 1) == ptr2);
}

/// Two strings in memory compare as equal exactly where they have the same
/// characters.
pub proof fn law_comparison_of_texts(
    data: Seq<u8>,
    ptr1: i32,
    ptr2: i32,
    first: Seq<char>,
    second: Seq<char>,
)
    ensures
        laws::leads_to_or_empty(data, ptr1, first) && laws::leads_to_or_empty(data, ptr2, second)
            ==> strings::comparison(data, ptr1, ptr2) == (if first.len() == second.len() && (
        forall|i: int| 0 <= i < first.len() ==> #[trigger] first[i] == second[i]) {
            Ok::<i32, Fault>(0)
        } else {
            Ok::<i32, Fault>(1)
        }),
{
    if laws::leads_to_or_empty(data, ptr1, first) && laws::leads_to_or_empty(data, ptr2, second) {
        laws::lemma_text_or_empty(data, ptr1, first);
        laws::lemma_text_or_empty(data, ptr2, second);
        if first.len() == second.len() && (forall|i: int|
            0 <= i < first.len() ==> #[trigger] first[i] == second[i]) {
            assert(first == second);
        }
    }
}

/// The text that replacing puts together, from the strings in memory.
pub open spec fn replacing_gives(
    data: Seq<u8>,
    string_ptr: i32,
    search_ptr: i32,
    replace_ptr: i32,
    t: Seq<char>,
) -> bool {
    strings::replace_plan(data, string_ptr, search_ptr, replace_ptr) == Plan::Store(t)
}

/// Where the search string does not stand in the string, the string itself is
/// stored.
pub proof fn law_replace_nothing(
    data: Seq<u8>,
    string_ptr: i32,
    search_ptr: i32,
    replace_ptr: i32,
    source: Seq<char>,
    search: Seq<char>,
    replacement: Seq<char>,
)
    requires
        laws::leads_to_or_empty(data, string_ptr, source),
        laws::leads_to_or_empty(data, search_ptr, search),
        laws::leads_to_or_empty(data, replace_ptr, replacement),
        search.len() > 0,
        text_laws::stands_nowhere(source, search),
    ensures
        replacing_gives(data, string_ptr, search_ptr, replace_ptr, source),
{
    laws::lemma_text_or_empty(data, string_ptr, source);
    laws::lemma_text_or_empty(data, search_ptr, search);
    laws::lemma_text_or_empty(data, replace_ptr, replacement);
    text_laws::law_nothing_replaced(source, search, replacement);
}

/// Where the search string stands first at `at`, the text in front of it is kept,
/// the replacement takes its place, and there follows what a second call stores for
/// the text behind it.
pub proof fn law_replace_first(
    data: Seq<u8>,
    string_ptr: i32,
    search_ptr: i32,
    replace_ptr: i32,
    other: Seq<u8>,
    other_string_ptr: i32,
    other_search_ptr: i32,
    other_replace_ptr: i32,
    source: Seq<char>,
    search: Seq<char>,
    replacement: Seq<char>,
    at: int,
)
    requires
        laws::leads_to_or_empty(data, string_ptr, source),
        laws::leads_to_or_empty(data, search_ptr, search),
        laws::leads_to_or_empty(data, replace_ptr, replacement),
        search.len() > 0,
        text_laws::stands_first_at(source, search, at),
        laws::leads_to_or_empty(other, other_string_ptr, source.skip(at + search.len())),
        laws::leads_to_or_empty(other, other_search_ptr, search),
        laws::leads_to_or_empty(other, other_replace_ptr, replacement),
    ensures
        exists|rest: Seq<char>|
            {
                &&& #[trigger] replacing_gives(
                    other,
                    other_string_ptr,
                    other_search_ptr,
                    other_replace_ptr,
                    rest,
                )
                &&& replacing_gives(
                    data,
                    string_ptr,
                    search_ptr,
                    replace_ptr,
                    source.take(at) + replacement + rest,
                )
            },
{
    let behind = source.skip(at + search.len());
    laws::lemma_text_or_empty(data, string_ptr, source);
    laws::lemma_text_or_empty(data, search_ptr, search);
    laws::lemma_text_or_empty(data, replace_ptr, replacement);
    laws::lemma_text_or_empty(other, other_string_ptr, behind);
    laws::lemma_text_or_empty(other, other_search_ptr, search);
    laws::lemma_text_or_empty(other, other_replace_ptr, replacement);
    text_laws::law_first_replaced(source, search, replacement, at);
    let rest = text::replaced(behind, search, replacement);
    assert(replacing_gives(
        other,
        other_string_ptr,
        other_search_ptr,
        other_replace_ptr,
        rest,
    ));
}

/// Where the search string is empty, the replacement comes before every character
/// and at the end.
pub proof fn law_replace_around_characters(
    data: Seq<u8>,
    string_ptr: i32,
    search_ptr: i32,
    replace_ptr: i32,
    source: Seq<char>,
    replacement: Seq<char>,
    t: Seq<char>,
)
    requires
        laws::leads_to_or_empty(data, string_ptr, source),
        laws::leads_to_or_empty(data, search_ptr, Seq::empty()),
        laws::leads_to_or_empty(data, replace_ptr, replacement),
        replacing_gives(data, string_ptr, search_ptr, replace_ptr, t),
    ensures
        t.len() == source.len() + (source.len() + 1) * replacement.len(),
        forall|i: int|
            #![trigger source[i]]
            0 <= i < source.len() ==> text_laws::stands_at(
                t,
                replacement + seq![source[i]],
                i * (replacement.len() + 1),
            ),
        text_laws::stands_at(t, replacement, source.len() as int * (replacement.len() + 1)),
{
    laws::lemma_text_or_empty(data, string_ptr, source);
    laws::lemma_text_or_empty(data, search_ptr, Seq::empty());
    laws::lemma_text_or_empty(data, replace_ptr, replacement);
    text_laws::law_laid_around_characters(source, replacement);
}

/// No search string is left over: where the replacement is not empty and shares no
/// character with the search string, the stored text does not hold the search
/// string.
pub proof fn law_replace_all(
    data: Seq<u8>,
    string_ptr: i32,
    search_ptr: i32,
    replace_ptr: i32,
    source: Seq<char>,
    search: Seq<char>,
    replacement: Seq<char>,
    t: Seq<char>,
)
    requires
        laws::leads_to_or_empty(data, string_ptr, source),
        laws::leads_to_or_empty(data, search_ptr, search),
        laws::leads_to_or_empty(data, replace_ptr, replacement),
        search.len() > 0,
        replacement.len() > 0,
        forall|i: int, j: int|
            0 <= i < search.len() && 0 <= j < replacement.len() ==> #[trigger] search[i]
                != #[trigger] replacement[j],
        replacing_gives(data, string_ptr, search_ptr, replace_ptr, t),
    ensures
        text_laws::stands_nowhere(t, search),
{
    laws::lemma_text_or_empty(data, string_ptr, source);
    laws::lemma_text_or_empty(data, search_ptr, search);
    laws::lemma_text_or_empty(data, replace_ptr, replacement);
    text_laws::law_none_left(source, search, replacement);
}

/// A call that replaces stores what replacing the strings in memory gives, and
/// faults only where one of the pointers leads beyond the address range.
pub proof fn law_replace(call: Call<'_>, data: Seq<u8>, ptr1: i32, ptr2: i32, ptr3: i32)
    requires
        call.answered(),
        call.function == HostFunction::StringReplace,
        call.takes(seq![ptr1, ptr2, ptr3]),
        call.memory() == Some(data),
    ensures
        if laws::leads_beyond(ptr1) || laws::leads_beyond(ptr2) || laws::leads_beyond(ptr3) {
            call.faults()
        } else {
            exists|t: Seq<char>| #[trigger]
                replacing_gives(data, ptr1, ptr2, ptr3, t) && call.stores(t)
        },
{
    let none = Seq::<char>::empty();
    assert(abi::parameters(call.function) == Seq::new(3, |i: int| abi::ValueType::I32));
    lemma_typed(call, seq![ptr1, ptr2, ptr3]);
    laws::law_reading(data, ptr1, none);
    laws::law_reading(data, ptr2, none);
    laws::law_reading(data, ptr3, none);
    lemma_quiet(call);
    assert(bridge::integer(call.args, 0) == ptr1);
    assert(bridge::integer(call.args, 1) == ptr2);
    assert(bridge::integer(call.args, 2) == ptr3);
    match strings::replace_plan(data, ptr1, ptr2, ptr3) {
        Plan::Store(t) => {
            assert(replacing_gives(data, ptr1, ptr2, ptr3, t));
        },
        _ => {},
    }
}

/// The list that splitting makes, from the strings in memory.
pub open spec fn splitting_gives(
    data: Seq<u8>,
    string_ptr: i32,
    delimiter_ptr: i32,
    parts: Seq<Seq<char>>,
) -> bool {
    strings::split_plan(data, string_ptr, delimiter_ptr) == Plan::List(parts)
}

/// The pieces strung together with the delimiter between them spell the string, and
/// none of them holds the delimiter.
pub proof fn law_split_spells(
    data: Seq<u8>,
    string_ptr: i32,
    delimiter_ptr: i32,
    source: Seq<char>,
    delimiter: Seq<char>,
)
    requires
        laws::leads_to(data, string_ptr, source),
        laws::leads_to(data, delimiter_ptr, delimiter),
    ensures
        exists|parts: Seq<Seq<char>>|
            {
                &&& #[trigger] splitting_gives(data, string_ptr, delimiter_ptr, parts)
                &&& text_laws::strung(parts, delimiter) == source
                &&& delimiter.len() > 0 ==> forall|i: int|
                    0 <= i < parts.len() ==> text_laws::stands_nowhere(#[trigger] parts[i], delimiter)
            },
{
    laws::law_reading(data, string_ptr, source);
    laws::law_reading(data, delimiter_ptr, delimiter);
    let parts = text::pieces(source, delimiter);
    assert(splitting_gives(data, string_ptr, delimiter_ptr, parts));
    text_laws::law_pieces_strung(source, delimiter);
}

/// Where the delimiter does not stand in the string, the string is the only piece.
pub proof fn law_split_nothing(
    data: Seq<u8>,
    string_ptr: i32,
    delimiter_ptr: i32,
    source: Seq<char>,
    delimiter: Seq<char>,
)
    requires
        laws::leads_to(data, string_ptr, source),
        laws::leads_to(data, delimiter_ptr, delimiter),
        delimiter.len() > 0,
        text_laws::stands_nowhere(source, delimiter),
    ensures
        splitting_gives(data, string_ptr, delimiter_ptr, seq![source]),
{
    laws::law_reading(data, string_ptr, source);
    laws::law_reading(data, delimiter_ptr, delimiter);
    text_laws::law_one_piece(source, delimiter);
}

/// Where the delimiter stands first at `at`, the text in front of it is the first
/// piece, and the others are those that a second call makes of the text behind it.
pub proof fn law_split_first(
    data: Seq<u8>,
    string_ptr: i32,
    delimiter_ptr: i32,
    other: Seq<u8>,
    other_string_ptr: i32,
    other_delimiter_ptr: i32,
    source: Seq<char>,
    delimiter: Seq<char>,
    at: int,
)
    requires
        laws::leads_to(data, string_ptr, source),
        laws::leads_to(data, delimiter_ptr, delimiter),
        delimiter.len() > 0,
        text_laws::stands_first_at(source, delimiter, at),
        laws::leads_to(other, other_string_ptr, source.skip(at + delimiter.len())),
        laws::leads_to(other, other_delimiter_ptr, delimiter),
    ensures
        exists|rest: Seq<Seq<char>>|
            {
                &&& #[trigger] splitting_gives(other, other_string_ptr, other_delimiter_ptr, rest)
                &&& splitting_gives(
                    data,
                    string_ptr,
                    delimiter_ptr,
                    seq![source.take(at)] + rest,
                )
            },
{
    let behind = source.skip(at + delimiter.len());
    laws::law_reading(data, string_ptr, source);
    laws::law_reading(data, delimiter_ptr, delimiter);
    laws::law_reading(other, other_string_ptr, behind);
    laws::law_reading(other, other_delimiter_ptr, delimiter);
    text_laws::law_first_piece(source, delimiter, at);
    let rest = text::pieces(behind, delimiter);
    assert(splitting_gives(other, other_string_ptr, other_delimiter_ptr, rest));
}

/// Under the empty delimiter the pieces are the characters, with an empty piece
/// before and behind them.
pub proof fn law_split_into_characters(
    data: Seq<u8>,
    string_ptr: i32,
    delimiter_ptr: i32,
    source: Seq<char>,
    parts: Seq<Seq<char>>,
)
    requires
        laws::leads_to(data, string_ptr, source),
        laws::leads_to(data, delimiter_ptr, Seq::empty()),
        splitting_gives(data, string_ptr, delimiter_ptr, parts),
    ensures
        parts.len() == source.len() + 2,
        parts[0].len() == 0,
        parts[source.len() as int + 1].len() == 0,
        forall|i: int| 0 <= i < source.len() ==> #[trigger] parts[i + 1] == seq![source[i]],
{
    laws::law_reading(data, string_ptr, source);
    laws::law_reading(data, delimiter_ptr, Seq::empty());
    text_laws::law_single_characters(source);
}

/// A call that splits lists what splitting the strings in memory gives. Where one
/// of them cannot be read, it returns zero and changes nothing, and where a pointer
/// leads beyond the address range, it is a fault, the first before the second.
pub proof fn law_split(call: Call<'_>, data: Seq<u8>, ptr1: i32, ptr2: i32)
    requires
        call.answered(),
        call.function == HostFunction::StringSplit,
        call.takes(seq![ptr1, ptr2]),
        call.memory() == Some(data),
    ensures
        if laws::leads_beyond(ptr1) {
            call.faults()
        } else if laws::leads_nowhere(data, ptr1) {
            call.gives(0) && call.changes_nothing()
        } else if laws::leads_beyond(ptr2) {
            call.faults()
        } else if laws::leads_nowhere(data, ptr2) {
            call.gives(0) && call.changes_nothing()
        } else {
            exists|parts: Seq<Seq<char>>| #[trigger]
                splitting_gives(data, ptr1, ptr2, parts) && call.lists(parts)
        },
{
    let none = Seq::<char>::empty();
    assert(abi::parameters(call.function) == Seq::new(2, |i: int| abi::ValueType::I32));
    lemma_typed(call, seq![ptr1, ptr2]);
    laws::law_reading(data, ptr1, none);
    laws::law_reading(data, ptr2, none);
    lemma_quiet(call);
    assert(bridge::integer(call.args, 0) == ptr1);
    assert(bridge::integer(call.args, 1) == ptr2);
    match strings::split_plan(data, ptr1, ptr2) {
        Plan::List(parts) => {
            assert(splitting_gives(data, ptr1, ptr2, parts));
        },
        _ => {},
    }
}

/// Trimming stores the string without the white space at its ends: all of it at the
/// ends that the function is for, and nothing else.
pub proof fn law_trim(
    call: Call<'_>,
    data: Seq<u8>,
    ptr: i32,
    s: Seq<char>,
    front: int,
    back: int,
)
    requires
        call.answered(),
        call.takes(seq![ptr]),
        call.memory() == Some(data),
        laws::leads_to(data, ptr, s),
        0 <= front <= back <= s.len(),
        text_laws::blank(s.take(front)),
        text_laws::blank(s.skip(back)),
    ensures
        call.function == HostFunction::StringTrim && (front < back ==> !text::is_white_space(
            s[front],
        ) && !text::is_white_space(s[back - 1])) ==> call.stores(s.subrange(front, back)),
        call.function == HostFunction::StringTrimStart && (front < s.len()
            ==> !text::is_white_space(s[front])) ==> call.stores(s.skip(front)),
        call.function == HostFunction::StringTrimEnd && (back > 0 ==> !text::is_white_space(
            s[back - 1],
        )) ==> call.stores(s.take(back)),
{
    laws::law_reading(data, ptr, s);
    if abi::parameters(call.function) == Seq::new(1, |i: int| abi::ValueType::I32) {
        lemma_typed(call, seq![ptr]);
        assert(bridge::integer(call.args, 0) == ptr);
    }
    assert(seq![abi::ValueType::I32] == Seq::new(1, |i: int| abi::ValueType::I32));
    text_laws::law_trimmed_to(s, front, back);
}

/// A string that cannot be read is not trimmed or repeated: the call returns zero
/// and changes nothing, or faults where the pointer leads beyond the address range.
pub proof fn law_unreadable(call: Call<'_>, data: Seq<u8>, integers: Seq<i32>)
    requires
        call.answered(),
        call.memory() == Some(data),
        call.takes(integers),
        ({
            ||| integers.len() == 1 && (call.function == HostFunction::StringTrim || call.function
                == HostFunction::StringTrimStart || call.function == HostFunction::StringTrimEnd)
            ||| integers.len() == 3 && call.function == HostFunction::StringRepeat
        }),
    ensures
        laws::leads_beyond(integers[0]) ==> call.faults(),
        laws::leads_nowhere(data, integers[0]) ==> call.gives(0) && call.changes_nothing(),
{
    laws::law_reading(data, integers[0], Seq::empty());
    lemma_quiet(call);
    assert(abi::parameters(call.function) == Seq::new(
        integers.len(),
        |i: int| abi::ValueType::I32,
    ));
    lemma_typed(call, integers);
    assert(bridge::integer(call.args, 0) == integers[0]);
}

/// Repeating stores a text that runs through the string again and again, as often
/// as asked and not at all for a negative count. The length that is passed along
/// plays no part.
pub proof fn law_repeat(
    call: Call<'_>,
    data: Seq<u8>,
    ptr: i32,
    len: i32,
    count: i32,
    s: Seq<char>,
    t: Seq<char>,
)
    requires
        call.answered(),
        call.function == HostFunction::StringRepeat,
        call.takes(seq![ptr, len, count]),
        call.memory() == Some(data),
        laws::leads_to(data, ptr, s),
        t.len() == if count > 0 {
            s.len() * count
        } else {
            0
        },
        forall|i: int| 0 <= i < t.len() ==> #[trigger] t[i] == s[i % (s.len() as int)],
    ensures
        call.stores(t),
{
    assert(abi::parameters(call.function) == Seq::new(3, |i: int| abi::ValueType::I32));
    lemma_typed(call, seq![ptr, len, count]);
    laws::law_reading(data, ptr, s);
    assert(bridge::integer(call.args, 0) == ptr);
    assert(bridge::integer(call.args, 2) == count);
    let times: nat = if count > 0 {
        count as nat
    } else {
        0
    };
    text_laws::law_repeated(s, times);
    assert(t == text::repeated(s, times));
}

/// `t` writes `n` down: its digits without needless zeros, behind a minus sign where
/// it is negative.
pub open spec fn writes_down(t: Seq<char>, n: int) -> bool {
    if n >= 0 {
        text_laws::is_numeral(t) && text_laws::number_of(t) == n
    } else {
        &&& t.len() > 1
        &&& t[0] == '-'
        &&& text_laws::is_numeral(t.drop_first())
        &&& text_laws::number_of(t.drop_first()) == -n
    }
}

/// Integers and truth values are stored as they are written.
pub proof fn law_conversions_to_text(call: Call<'_>, value: i32)
    requires
        call.answered(),
        call.takes(seq![value]),
        call.memory() is Some,
    ensures
        call.function == HostFunction::IntToString ==> exists|t: Seq<char>|
            #[trigger] call.stores(t) && writes_down(t, value as int),
        call.function == HostFunction::BoolToString && value != 0 ==> call.stores("true"@),
        call.function == HostFunction::BoolToString && value == 0 ==> call.stores("false"@),
{
    assert(seq![abi::ValueType::I32] == Seq::new(1, |i: int| abi::ValueType::I32));
    if call.function == HostFunction::IntToString || call.function == HostFunction::BoolToString {
        lemma_typed(call, seq![value]);
        assert(bridge::integer(call.args, 0) == value);
        text_laws::law_decimal(value as int);
        if call.function == HostFunction::IntToString {
            assert(call.stores(text::decimal(value as int)));
        }
    }
}

/// Without a memory nothing is stored, compared or matched: the call returns zero.
/// Concatenating and splitting complain.
#[verifier::rlimit(40)]
pub proof fn law_no_memory(call: Call<'_>)
    requires
        call.answered(),
        call.memory() is None,
        bridge::typed(call.args, abi::parameters(call.function)),
    ensures
        call.function == HostFunction::StringConcat ==> call.gives(0) && call.prints(
            Seq::empty(),
            call.name + ": Failed to get memory"@ + "\n"@,
        ),
        call.function == HostFunction::StringSplit ==> call.gives(0) && call.prints(
            Seq::empty(),
            call.name + ": no memory"@ + "\n"@,
        ),
        call.function == HostFunction::StringReplace || call.function == HostFunction::StringTrim
            || call.function == HostFunction::StringTrimStart || call.function
            == HostFunction::StringTrimEnd || call.function == HostFunction::StringRepeat
            || call.function == HostFunction::IntToString || call.function
            == HostFunction::BoolToString || call.function == HostFunction::StringCompare
            || call.function == HostFunction::StringMatches ==> call.gives(0)
            && call.changes_nothing(),
        call.function == HostFunction::ArrayGet ==> call.gives(0) && call.prints(
            "[array_get: no memory export]\n"@,
            Seq::empty(),
        ),
        call.function == HostFunction::ListPushF64 ==> call.gives(bridge::integer(call.args, 0))
            && call.prints(Seq::empty(), "[list.push_f64: no memory export]\n"@),
{
    lemma_quiet(call);
}

/// Matching gives one where the string is what the named pattern asks for, and zero
/// where it is not. A string that cannot be read counts as empty, and the lengths
/// that are passed along play no part.
#[verifier::rlimit(40)]
pub proof fn law_match(
    call: Call<'_>,
    data: Seq<u8>,
    ptr: i32,
    len: i32,
    pattern_ptr: i32,
    pattern_len: i32,
    s: Seq<char>,
    pattern: Seq<char>,
)
    requires
        call.answered(),
        call.function == HostFunction::StringMatches,
        call.takes(seq![ptr, len, pattern_ptr, pattern_len]),
        call.memory() == Some(data),
    ensures
        laws::leads_beyond(ptr) || laws::leads_beyond(pattern_ptr) ==> call.faults(),
        laws::leads_to_or_empty(data, ptr, s) && laws::leads_to_or_empty(
            data,
            pattern_ptr,
            pattern,
        ) ==> {
            let email = (exists|i: int| 0 <= i < s.len() && s[i] == '@') && (exists|i: int|
                0 <= i < s.len() && s[i] == '.');
            let url = text_laws::stands_at(s, "http://"@, 0) || text_laws::stands_at(
                s,
                "https://"@,
                0,
            );
            let uuid = vstd::utf8::encode_utf8(s).len() == 36 && text_laws::four_dashes(s);
            &&& call.changes_nothing()
            &&& if (pattern == "email"@ && email) || (pattern == "url"@ && url) || (pattern
                == "uuid"@ && uuid) {
                call.gives(1)
            } else {
                call.gives(0)
            }
        },
{
    assert(abi::parameters(call.function) == Seq::new(4, |i: int| abi::ValueType::I32));
    lemma_typed(call, seq![ptr, len, pattern_ptr, pattern_len]);
    assert(bridge::integer(call.args, 0) == ptr);
    assert(bridge::integer(call.args, 2) == pattern_ptr);
    laws::law_reading(data, ptr, s);
    laws::law_reading(data, pattern_ptr, pattern);
    lemma_quiet(call);
    text_laws::law_patterns(s, pattern);
    reveal_strlit("email");
    reveal_strlit("url");
    reveal_strlit("uuid");
    assert("email"@.len() == 5 && "url"@.len() == 3 && "uuid"@.len() == 4);
    if laws::leads_to_or_empty(data, ptr, s) && laws::leads_to_or_empty(
        data,
        pattern_ptr,
        pattern,
    ) {
        laws::lemma_text_or_empty(data, ptr, s);
        laws::lemma_text_or_empty(data, pattern_ptr, pattern);
    }
}

/// The bytes of memory from `start` to `end` spell `t`.
pub open spec fn spells(data: Seq<u8>, start: int, end: int, t: Seq<char>) -> bool {
    data.subrange(start, end) == vstd::utf8::encode_utf8(t)
}

/// The function that prints is called by this name in its notes.
pub open spec fn print_name(function: HostFunction) -> Seq<char> {
    if function == HostFunction::Print {
        "print"@
    } else {
        "printl"@
    }
}

/// What ends a printed text.
pub open spec fn print_ending(function: HostFunction) -> Seq<char> {
    if function == HostFunction::Print {
        Seq::empty()
    } else {
        "\n"@
    }
}

/// A pointer and a length in a note.
pub open spec fn pointer_and_length(ptr: i32, len: i32) -> Seq<char> {
    "ptr="@ + text::decimal(ptr as int) + ", len="@ + text::decimal(len as int) + "]"@
}

/// Printing prints the text that the bytes of the range spell, or a note where they
/// spell none or the range does not lie in memory.
#[verifier::rlimit(40)]
pub proof fn law_print(call: Call<'_>, data: Seq<u8>, ptr: i32, len: i32, t: Seq<char>)
    requires
        call.answered(),
        call.function == HostFunction::Print || call.function == HostFunction::Printl,
        call.takes(seq![ptr, len]),
        call.memory() == Some(data),
    ensures
        ({
            let start = laws::unsigned(ptr);
            let end = laws::unsigned((ptr + len) as i32);
            let ending = print_ending(call.function);
            if !(i32::MIN <= ptr + len <= i32::MAX) {
                call.faults()
            } else {
                &&& call.reply == Ok::<Reply, Fault>(Reply::Done(None))
                &&& if !(start <= end <= data.len()) {
                    call.prints(
                        "["@ + (print_name(call.function) + ": invalid range "@)
                            + pointer_and_length(ptr, len) + ending,
                        Seq::empty(),
                    )
                } else {
                    &&& spells(data, start, end, t) ==> call.prints(t + ending, Seq::empty())
                    &&& (forall|other: Seq<char>| !#[trigger] spells(data, start, end, other))
                        ==> call.prints(
                        "[invalid utf8: "@ + text::decimal(len as int) + " bytes]"@ + ending,
                        Seq::empty(),
                    )
                }
            }
        }),
{
    assert(abi::parameters(call.function) == Seq::new(2, |i: int| abi::ValueType::I32));
    lemma_typed(call, seq![ptr, len]);
    assert(bridge::integer(call.args, 0) == ptr);
    assert(bridge::integer(call.args, 1) == len);
    lemma_quiet(call);
    lemma_done(call);
    let start = laws::unsigned(ptr);
    let end = laws::unsigned((ptr + len) as i32);
    if i32::MIN <= ptr + len <= i32::MAX && start <= end <= data.len() {
        let range = data.subrange(start, end);
        if spells(data, start, end, t) {
            vstd::utf8::encode_utf8_valid_utf8(t);
            vstd::utf8::encode_utf8_decode_utf8(t);
        }
        if vstd::utf8::valid_utf8(range) {
            vstd::utf8::decode_utf8_encode_utf8(range);
            assert(spells(data, start, end, vstd::utf8::decode_utf8(range)));
        }
    } else {
        let name = print_name(call.function) + ": invalid range "@;
        assert(output::range_note(name, ptr, len) == "["@ + name + pointer_and_length(ptr, len));
    }
}

/// A call that returns nothing has returned.
proof fn lemma_done(call: Call<'_>)
    ensures
        bridge::empty_reply(call.reply) == Some(Ok::<(), Fault>(())) ==> call.reply == Ok::<
            Reply,
            Fault,
        >(Reply::Done(None)),
{
}

/// Without a memory, printing prints a note of the pointer and the length.
pub proof fn law_print_without_memory(call: Call<'_>, ptr: i32, len: i32)
    requires
        call.answered(),
        call.function == HostFunction::Print || call.function == HostFunction::Printl,
        call.takes(seq![ptr, len]),
        call.memory() is None,
    ensures
        call.reply == Ok::<Reply, Fault>(Reply::Done(None)),
        call.prints(
            "["@ + (print_name(call.function) + ": "@) + pointer_and_length(ptr, len)
                + print_ending(call.function),
            Seq::empty(),
        ),
{
    assert(abi::parameters(call.function) == Seq::new(2, |i: int| abi::ValueType::I32));
    lemma_typed(call, seq![ptr, len]);
    assert(bridge::integer(call.args, 0) == ptr);
    assert(bridge::integer(call.args, 1) == len);
    lemma_quiet(call);
    lemma_done(call);
    let name = print_name(call.function) + ": "@;
    assert(output::range_note(name, ptr, len) == "["@ + name + pointer_and_length(ptr, len));
}

/// Integers and truth values are printed as they are written.
#[verifier::rlimit(40)]
pub proof fn law_print_values(call: Call<'_>, value: i32, long: i64)
    requires
        call.answered(),
    ensures
        call.takes(seq![value]) && call.function == HostFunction::PrintSimple ==> call.reply
            == Ok::<Reply, Fault>(Reply::Done(None)) && exists|t: Seq<char>|
            #[trigger] writes_down(t, value as int) && call.prints(t, Seq::empty()),
        call.takes(seq![value]) && call.function == HostFunction::PrintlSimple ==> call.reply
            == Ok::<Reply, Fault>(Reply::Done(None)) && exists|t: Seq<char>|
            #[trigger] writes_down(t, value as int) && call.prints(t + "\n"@, Seq::empty()),
        call.args == seq![Value::I64(long)] && call.function == HostFunction::PrintInteger
            ==> call.reply == Ok::<Reply, Fault>(Reply::Done(None)) && exists|t: Seq<char>|
            #[trigger] writes_down(t, long as int) && call.prints(t + "\n"@, Seq::empty()),
        call.takes(seq![value]) && call.function == HostFunction::PrintBoolean ==> call.reply
            == Ok::<Reply, Fault>(Reply::Done(None)) && call.prints(
            (if value != 0 {
                "true"@
            } else {
                "false"@
            }) + "\n"@,
            Seq::empty(),
        ),
{
    lemma_quiet(call);
    assert(seq![abi::ValueType::I32] == Seq::new(1, |i: int| abi::ValueType::I32));
    text_laws::law_decimal(value as int);
    text_laws::law_decimal(long as int);
    assert(writes_down(text::decimal(value as int), value as int));
    assert(writes_down(text::decimal(long as int), long as int));
    if call.takes(seq![value]) && (call.function == HostFunction::PrintSimple || call.function
        == HostFunction::PrintlSimple || call.function == HostFunction::PrintBoolean) {
        lemma_typed(call, seq![value]);
        assert(bridge::integer(call.args, 0) == value);
    }
    if call.args == seq![Value::I64(long)] && call.function == HostFunction::PrintInteger {
        assert(bridge::typed(call.args, abi::parameters(call.function)));
        assert(bridge::long(call.args, 0) == long);
    }
}

/// The word at `at`, taken as a signed number.
pub open spec fn signed_word_at(data: Seq<u8>, at: int) -> int {
    if laws::word_at(data, at) < 0x8000_0000 {
        laws::word_at(data, at)
    } else {
        laws::word_at(data, at) - 0x1_0000_0000
    }
}

/// Reading an element of an array gives the word of that index behind the header of
/// seventeen bytes, whose last four bytes are the length. Nothing is given and
/// something is said where there is no such element or it lies outside the memory.
#[verifier::rlimit(40)]
pub proof fn law_array_get(call: Call<'_>, data: Seq<u8>, ptr: i32, index: i32)
    requires
        call.answered(),
        call.function == HostFunction::ArrayGet,
        call.takes(seq![ptr, index]),
        call.memory() == Some(data),
    ensures
        ({
            let at = laws::unsigned(ptr);
            let length = signed_word_at(data, at + 13);
            let place = at + 17 + 4 * index;
            if at + 17 > usize::MAX {
                call.faults()
            } else if at + 17 > data.len() {
                call.gives(0) && call.prints(
                    "[array_get: invalid array pointer "@ + text::decimal(ptr as int) + "]\n"@,
                    Seq::empty(),
                )
            } else if !(0 <= index < length) {
                call.gives(0) && call.prints(
                    "[array_get: index "@ + text::decimal(index as int)
                        + " out of bounds for array of length "@ + text::decimal(length) + "]\n"@,
                    Seq::empty(),
                )
            } else if place + 4 > data.len() {
                call.gives(0) && call.prints(
                    "[array_get: element access out of memory bounds]\n"@,
                    Seq::empty(),
                )
            } else {
                call.gives(signed_word_at(data, place) as i32) && call.changes_nothing()
            }
        }),
{
    assert(abi::parameters(call.function) == Seq::new(2, |i: int| abi::ValueType::I32));
    lemma_typed(call, seq![ptr, index]);
    assert(bridge::integer(call.args, 0) == ptr);
    assert(bridge::integer(call.args, 1) == index);
    lemma_quiet(call);
    let at = laws::unsigned(ptr);
    if at + 17 <= data.len() {
        assert(arrays::array_length(data, at) == signed_word_at(data, at + 13));
    }
}

/// Appending a number puts its eight bytes, the least significant first, behind the
/// elements that the list has, counts one more, and changes no other byte. Nothing
/// is appended and something is said where the list or its new element does not lie
/// in memory. The pointer to the list comes back.
#[verifier::rlimit(40)]
pub proof fn law_list_push(call: Call<'_>, data: Seq<u8>, ptr: i32, bits: u64)
    requires
        call.answered(),
        call.function == HostFunction::ListPushF64,
        call.args == seq![Value::I32(ptr), Value::F64(bits)],
        call.memory() == Some(data),
    ensures
        ({
            let at = laws::unsigned(ptr);
            let length = laws::word_at(data, at);
            let place = at + 16 + 8 * length;
            if at + 16 > usize::MAX {
                &&& call.reply == Err::<Reply, Fault>(Fault::AddressOverflow)
                &&& pushes_nothing(call, Seq::empty())
            } else if at + 16 > data.len() {
                &&& call.gives(ptr)
                &&& pushes_nothing(
                    call,
                    "[list.push_f64: invalid pointer "@ + text::decimal(ptr as int) + "]\n"@,
                )
            } else if place + 8 > data.len() {
                &&& call.gives(ptr)
                &&& pushes_nothing(call, "[list.push_f64: out of memory bounds]\n"@)
            } else {
                let after = call.memory_after()->0;
                &&& call.gives(ptr)
                &&& call.memory_after() is Some
                &&& host_is_kept(call, Seq::empty())
                &&& after.len() == data.len()
                &&& (laws::word_at(after, at) - length - 1) % 0x1_0000_0000 == 0
                &&& laws::word_at(after, place) == bits as int % 0x1_0000_0000
                &&& laws::word_at(after, place + 4) == bits as int / 0x1_0000_0000
                &&& forall|k: int|
                    0 <= k < after.len() && !(at <= k < at + 4) && !(place <= k < place + 8)
                        ==> #[trigger] after[k] == data[k]
            }
        }),
{
    assert(bridge::typed(call.args, abi::parameters(call.function)));
    assert(bridge::integer(call.args, 0) == ptr);
    assert(bridge::bits(call.args, 1) == bits);
    lemma_quiet(call);
    let at = laws::unsigned(ptr);
    let length = laws::word_at(data, at);
    let place = at + 16 + 8 * length;
    assert(length == word::le_word(data, at));
    if at + 16 <= usize::MAX && at + 16 <= data.len() && place + 8 <= data.len() {
        lemma_appended(data, ptr, bits);
    }
}

proof fn lemma_appended(data: Seq<u8>, ptr: i32, bits: u64)
    requires
        arrays::appended(data, ptr, bits) is Ok,
    ensures
        ({
            let at = laws::unsigned(ptr);
            let length = laws::word_at(data, at);
            let place = at + 16 + 8 * length;
            let after = arrays::appended(data, ptr, bits)->Ok_0;
            &&& after.len() == data.len()
            &&& (laws::word_at(after, at) - length - 1) % 0x1_0000_0000 == 0
            &&& laws::word_at(after, place) == bits as int % 0x1_0000_0000
            &&& laws::word_at(after, place + 4) == bits as int / 0x1_0000_0000
            &&& forall|k: int|
                0 <= k < after.len() && !(at <= k < at + 4) && !(place <= k < place + 8)
                    ==> #[trigger] after[k] == data[k]
        }),
{
    let at = laws::unsigned(ptr);
    let length = laws::word_at(data, at);
    let place = at + 16 + 8 * length;
    let after = arrays::appended(data, ptr, bits)->Ok_0;
    let low = bits as int % 0x1_0000_0000;
    let high = bits as int / 0x1_0000_0000;
    assert(length == word::le_word(data, at));
    lemma_two_writes(
        data,
        at,
        place,
        word::le_bytes(length + 1),
        arrays::le_bytes_long(bits as int),
    );
    laws::lemma_word_written(after, at, length + 1);
    lemma_long_written(after, place, low, high);
}

proof fn lemma_two_writes(data: Seq<u8>, at: int, place: int, head: Seq<u8>, body: Seq<u8>)
    requires
        0 <= at,
        head.len() == 4,
        body.len() == 8,
        at + 4 <= place,
        place + 8 <= data.len(),
    ensures
        ({
            let after = word::overwrite(word::overwrite(data, place, body), at, head);
            &&& after.len() == data.len()
            &&& forall|i: int| 0 <= i < 4 ==> #[trigger] after[at + i] == head[i]
            &&& forall|i: int| 0 <= i < 8 ==> #[trigger] after[place + i] == body[i]
            &&& forall|k: int|
                0 <= k < after.len() && !(at <= k < at + 4) && !(place <= k < place + 8)
                    ==> #[trigger] after[k] == data[k]
        }),
{
}

proof fn lemma_long_written(after: Seq<u8>, place: int, low: int, high: int)
    requires
        0 <= low < 0x1_0000_0000,
        0 <= high < 0x1_0000_0000,
        0 <= place,
        place + 8 <= after.len(),
        forall|i: int|
            0 <= i < 8 ==> #[trigger] after[place + i] == (word::le_bytes(low) + word::le_bytes(
                high,
            ))[i],
    ensures
        laws::word_at(after, place) == low,
        laws::word_at(after, place + 4) == high,
{
    let both = word::le_bytes(low) + word::le_bytes(high);
    assert forall|i: int| 0 <= i < 4 implies #[trigger] after[place + i] == word::le_bytes(
        low,
    )[i] by {
        assert(both[i] == word::le_bytes(low)[i]);
    }
    laws::lemma_word_written(after, place, low);
    assert forall|i: int| 0 <= i < 4 implies #[trigger] after[place + 4 + i] == word::le_bytes(
        high,
    )[i] by {
        assert(after[place + (4 + i)] == both[4 + i]);
    }
    laws::lemma_word_written(after, place + 4, high);
}

/// The host is as it was but for a complaint.
pub open spec fn host_is_kept(call: Call<'_>, complaint: Seq<char>) -> bool {
    &&& crate::guest::same_exports(call.before, call.after)
    &&& crate::guest::same_globals(call.before, call.after)
    &&& call.host_after.arena@.next == call.host.arena@.next
    &&& call.host_after.arena@.marks == call.host.arena@.marks
    &&& call.host_after.console@.out == call.host.console@.out
    &&& call.host_after.console@.err == call.host.console@.err + complaint
}

/// The memory and the host are as they were but for a complaint.
pub open spec fn pushes_nothing(call: Call<'_>, complaint: Seq<char>) -> bool {
    &&& call.memory_after() == call.memory()
    &&& host_is_kept(call, complaint)
}

/// Memory is handed out from the next free offset, in whole eights, and the offset
/// moves on by as many bytes, whatever the kind; a request that would leave the
/// address range is a fault.
pub proof fn law_mem_alloc(call: Call<'_>, kind: i32, size: i32)
    requires
        call.answered(),
        call.function == HostFunction::MemAlloc,
        call.takes(seq![kind, size]),
    ensures
        ({
            let next = call.host.arena@.next;
            let rounded = (laws::unsigned(size) + 7) / 8 * 8;
            if laws::unsigned(size) + 7 > usize::MAX || next + rounded > usize::MAX {
                call.faults()
            } else {
                &&& laws::gives_address(call, next)
                &&& call.host_after.arena@.next == next + rounded
                &&& call.host_after.arena@.marks == call.host.arena@.marks
                &&& only_the_arena_changes(call)
            }
        }),
{
    assert(abi::parameters(call.function) == Seq::new(2, |i: int| abi::ValueType::I32));
    lemma_typed(call, seq![kind, size]);
    assert(bridge::integer(call.args, 1) == size);
    lemma_quiet(call);
    let next = call.host.arena@.next;
    if call.host.arena@.can_grant(size) {
        let ptr = word::pointer_of(next) as i32;
        assert(call.gives(ptr));
        assert((ptr - next) % 0x1_0000_0000 == 0);
    }
}

/// The guest is as it was, and nothing was printed.
pub open spec fn only_the_arena_changes(call: Call<'_>) -> bool {
    &&& crate::guest::same_guest(call.before, call.after)
    &&& call.host_after.console@.out == call.host.console@.out
    &&& call.host_after.console@.err == call.host.console@.err
}

/// Entering a scope remembers the next free offset behind the offsets that are
/// remembered; leaving one goes back to the last of them and forgets it.
pub proof fn law_scopes(call: Call<'_>)
    requires
        call.answered(),
        call.args.len() == 0,
    ensures
        ({
            let before = call.host.arena@;
            let after = call.host_after.arena@;
            let n = before.marks.len() as int;
            &&& call.function == HostFunction::MemScopePush ==> {
                &&& call.reply == Ok::<Reply, Fault>(Reply::Done(None))
                &&& only_the_arena_changes(call)
                &&& after.next == before.next
                &&& after.marks.len() == n + 1
                &&& after.marks[n] == before.next
                &&& forall|i: int| 0 <= i < n ==> #[trigger] after.marks[i] == before.marks[i]
            }
            &&& call.function == HostFunction::MemScopePop ==> {
                &&& call.reply == Ok::<Reply, Fault>(Reply::Done(None))
                &&& only_the_arena_changes(call)
                &&& n == 0 ==> after.next == before.next && after.marks.len() == 0
                &&& n > 0 ==> {
                    &&& after.next == before.marks[n - 1]
                    &&& after.marks.len() == n - 1
                    &&& forall|i: int|
                        0 <= i < n - 1 ==> #[trigger] after.marks[i] == before.marks[i]
                }
            }
        }),
{
}

/// The functions on plain values give what is asked for and change nothing: a stub
/// gives nothing or zero whatever it is handed, a choice gives the second or the
/// third value by the first, a conversion to the same type gives back what it got,
/// and a truth value is one for all integers but zero. To sleep is to wait for as
/// many milliseconds as are not below zero.
#[verifier::rlimit(40)]
pub proof fn law_plain_functions(call: Call<'_>, a: i32, b: i32, c: i32, x: u64, y: u64, ms: i64)
    requires
        call.answered(),
        bridge::typed(call.args, abi::parameters(call.function)),
    ensures
        call.function is Ignore ==> call.reply == Ok::<Reply, Fault>(Reply::Done(None))
            && call.changes_nothing(),
        call.function is Zero || call.function is ZeroOfFloat ==> call.gives(0)
            && call.changes_nothing(),
        call.function is ZeroFloat ==> call.reply == Ok::<Reply, Fault>(
            Reply::Done(Some(Value::F64(0))),
        ) && call.changes_nothing(),
        call.function == HostFunction::ConditionalInteger && call.args == seq![
            Value::I32(a),
            Value::I32(b),
            Value::I32(c),
        ] ==> call.changes_nothing() && (a != 0 ==> call.gives(b)) && (a == 0 ==> call.gives(c)),
        call.function == HostFunction::ConditionalNumber && call.args == seq![
            Value::I32(a),
            Value::F64(x),
            Value::F64(y),
        ] ==> call.changes_nothing() && call.reply == Ok::<Reply, Fault>(
            Reply::Done(
                Some(
                    Value::F64(
                        if a == 0 {
                            y
                        } else {
                            x
                        },
                    ),
                ),
            ),
        ),
        call.function == HostFunction::Same && call.args == seq![Value::I32(a)] ==> call.gives(a)
            && call.changes_nothing(),
        call.function == HostFunction::SameFloat && call.args == seq![Value::F64(x)] ==> call.reply
            == Ok::<Reply, Fault>(Reply::Done(Some(Value::F64(x)))) && call.changes_nothing(),
        call.function == HostFunction::IntToBool && call.args == seq![Value::I32(a)]
            ==> call.changes_nothing() && (a == 0 ==> call.gives(0)) && (a != 0 ==> call.gives(1)),
        call.function == HostFunction::ServerSleep && call.args == seq![Value::I64(ms)]
            ==> call.changes_nothing() && call.reply == Ok::<Reply, Fault>(
            Reply::Sleep(
                if ms < 0 {
                    0
                } else {
                    ms as u64
                },
            ),
        ),
        call.reply == Ok::<Reply, Fault>(Reply::Number) ==> call.changes_nothing(),
{
    lemma_quiet(call);
}

/// What is left to the program is exactly what computes with floating-point
/// numbers.
pub proof fn law_left_to_the_program(call: Call<'_>)
    requires
        call.answered(),
        bridge::typed(call.args, abi::parameters(call.function)),
    ensures
        call.reply == Ok::<Reply, Fault>(Reply::Number) <==> (call.function is PrintFloat
            || call.function is FloatToString || call.function is Pow || call.function is Atan2
            || call.function is Math || call.function is IntToFloat || call.function is FloatToInt
            || call.function is FloatToBool),
        call.reply != Ok::<Reply, Fault>(Reply::Mistyped),
{
}

} // verus!
