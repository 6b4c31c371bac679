//! Fixed-width arithmetic on guest addresses.
//!
//! The guest hands out pointers as `i32`; the host works with `usize`
//! addresses. The functions here move between the two, round sizes up to the
//! allocation granule, and lay 32-bit words out as little-endian bytes.

use vstd::prelude::*;

verus! {

/// `n` rounded up to the next multiple of eight.
pub open spec fn align8(n: int) -> int {
    (n + 7) / 8 * 8
}

/// The `usize` address that a guest pointer stands for: the pointer itself
/// where it is not negative, else its two's complement image at the top of the
/// address range.
pub open spec fn address_of(ptr: i32) -> int {
    if ptr >= 0 {
        ptr as int
    } else {
        usize::MAX + 1 + ptr
    }
}

/// The low 32 bits of `n`.
pub open spec fn low_word(n: int) -> int {
    n % 0x1_0000_0000
}

/// The low 32 bits of `n`, read as a signed number.
pub open spec fn pointer_of(n: int) -> int {
    if low_word(n) < 0x8000_0000 {
        low_word(n)
    } else {
        low_word(n) - 0x1_0000_0000
    }
}

/// The four little-endian bytes of the 32-bit word `n`.
pub open spec fn le_bytes(n: int) -> Seq<u8> {
    seq![
        (n % 256) as u8,
        (n / 256 % 256) as u8,
        (n / 0x1_0000 % 256) as u8,
        (n / 0x100_0000 % 256) as u8,
    ]
}

/// The 32-bit word whose little-endian bytes stand at `at` in `data`.
pub open spec fn le_word(data: Seq<u8>, at: int) -> int {
    data[at] + 256 * data[at + 1] + 0x1_0000 * data[at + 2] + 0x100_0000 * data[at + 3]
}

/// `data` with `bytes` written over it from position `at` on.
pub open spec fn overwrite(data: Seq<u8>, at: int, bytes: Seq<u8>) -> Seq<u8> {
    Seq::new(
        data.len(),
        |i: int|
            if at <= i < at + bytes.len() {
                bytes[i - at]
            } else {
                data[i]
            },
    )
}

/// Rounds `n` up to a multiple of eight.
pub fn align_up(n: usize) -> (r: usize)
    requires
        n + 7 <= usize::MAX,
    ensures
        r == align8(n as int),
{
    let m: usize = n + 7;
    let r: usize = m & !7;
    assert(m & !7usize == m / 8 * 8) by (bit_vector);
    r
}

/// The host address of a guest pointer.
pub fn to_address(ptr: i32) -> (r: usize)
    ensures
        r == address_of(ptr),
{
    if ptr >= 0 {
        ptr as usize
    } else {
        let below: i64 = -(ptr as i64) - 1;
        usize::MAX - below as usize
    }
}

/// The low 32 bits of an address.
pub fn to_word(n: usize) -> (r: u32)
    ensures
        r == low_word(n as int),
{
    let wide: u64 = n as u64;
    assert(wide as u32 == wide % 0x1_0000_0000) by (bit_vector);
    wide as u32
}

/// The guest pointer made of the low 32 bits of an address.
pub fn to_pointer(n: usize) -> (r: i32)
    ensures
        r == pointer_of(n as int),
{
    word_to_pointer(to_word(n))
}

/// A 32-bit word read as a signed number.
pub fn word_to_pointer(w: u32) -> (r: i32)
    ensures
        r == pointer_of(w as int),
{
    if w < 0x8000_0000 {
        w as i32
    } else {
        (w as i64 - 0x1_0000_0000) as i32
    }
}

/// The 32-bit word at `at` in `data`.
pub fn read_word(data: &[u8], at: usize) -> (r: u32)
    requires
        at + 4 <= data@.len(),
    ensures
        r == le_word(data@, at as int),
{
    data[at] as u32 + 256 * (data[at + 1] as u32) + 0x1_0000 * (data[at + 2] as u32) + 0x100_0000
        * (data[at + 3] as u32)
}

/// Writes `bytes` into `data` from position `at` on.
pub fn write_bytes(data: &mut [u8], at: usize, bytes: &[u8])
    requires
        at + bytes@.len() <= old(data)@.len(),
    ensures
        final(data)@ == overwrite(old(data)@, at as int, bytes@),
{
    let ghost before = data@;
    let size: usize = data.len();
    let mut i: usize = 0;
    while i < bytes.len()
        invariant
            i <= bytes@.len(),
            at + bytes@.len() <= before.len() == size,
            data@ == overwrite(before, at as int, bytes@.take(i as int)),
        decreases bytes@.len() - i,
    {
        data[at + i] = bytes[i];
        i = i + 1;
    }
    assert(bytes@.take(i as int) == bytes@);
}

/// Writes the 32-bit word `w` into `data` at `at`.
pub fn write_word(data: &mut [u8], at: usize, w: u32)
    requires
        at + 4 <= old(data)@.len(),
    ensures
        final(data)@ == overwrite(old(data)@, at as int, le_bytes(w as int)),
{
    data[at] = (w % 256) as u8;
    data[at + 1] = (w / 256 % 256) as u8;
    data[at + 2] = (w / 0x1_0000 % 256) as u8;
    data[at + 3] = (w / 0x100_0000 % 256) as u8;
}

/// Only the low 32 bits of a number show in its bytes.
pub proof fn lemma_bytes_of_low_word(n: int)
    requires
        0 <= n,
    ensures
        le_bytes(low_word(n)) == le_bytes(n),
{
    let high = n / 0x1_0000_0000;
    let low = n % 0x1_0000_0000;
    assert(n == high * 0x1_0000_0000 + low);
    assert(n / 256 == high * 0x100_0000 + low / 256);
    assert(n / 0x1_0000 == high * 0x1_0000 + low / 0x1_0000);
    assert(n / 0x100_0000 == high * 0x100 + low / 0x100_0000);
}

/// Two writes side by side are one write of both.
pub proof fn lemma_overwrite_adjacent(data: Seq<u8>, at: int, first: Seq<u8>, second: Seq<u8>)
    ensures
        overwrite(overwrite(data, at, first), at + first.len(), second) == overwrite(
            data,
            at,
            first + second,
        ),
{
}

/// Writing a word and reading it back gives the word.
pub proof fn law_word_round_trip(data: Seq<u8>, at: int, n: int)
    requires
        0 <= n < 0x1_0000_0000,
        0 <= at,
        at + 4 <= data.len(),
    ensures
        le_word(overwrite(data, at, le_bytes(n)), at) == n,
{
}

/// Rounding up moves a size by less than eight, onto a multiple of eight.
pub proof fn law_align8(n: int)
    ensures
        n <= align8(n) < n + 8,
        align8(n) % 8 == 0,
{
}

/// An address below two gibibytes survives the trip through a guest pointer.
pub proof fn law_pointer_round_trip(n: int)
    requires
        0 <= n < 0x8000_0000,
    ensures
        0 <= pointer_of(n) <= i32::MAX,
        address_of(pointer_of(n) as i32) == n,
{
}

} // verus!
