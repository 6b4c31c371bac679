//! Length-prefixed strings.
//!
//! A string crosses between guest and host as four little-endian length bytes
//! followed by that many bytes of UTF-8.

use crate::word;
use vstd::prelude::*;
use vstd::slice::slice_subrange;
use vstd::string::*;

verus! {

/// The error of `std::str::from_utf8`; only its presence matters here.
#[verifier::external_type_specification]
#[verifier::external_body]
pub struct ExUtf8Error(std::str::Utf8Error);

/// `std::str::from_utf8` accepts exactly the valid UTF-8 sequences and gives
/// the characters that they encode.
pub assume_specification[ std::str::from_utf8 ](v: &[u8]) -> (r: Result<
    &str,
    std::str::Utf8Error,
>)
    ensures
        r is Ok <==> vstd::utf8::valid_utf8(v@),
        r matches Ok(s) ==> s@ == vstd::utf8::decode_utf8(v@),
;

/// The bytes of `text` behind their length.
pub open spec fn frame(text: Seq<char>) -> Seq<u8> {
    word::le_bytes(vstd::utf8::encode_utf8(text).len() as int)
        + vstd::utf8::encode_utf8(text)
}

/// The characters that `bytes` encode, if they are valid UTF-8.
pub open spec fn decoded(bytes: Seq<u8>) -> Option<Seq<char>> {
    if vstd::utf8::valid_utf8(bytes) {
        Some(vstd::utf8::decode_utf8(bytes))
    } else {
        None
    }
}

/// The string whose frame stands at `ptr`: none where the length or the content
/// reaches past the end, or the content is not UTF-8.
pub open spec fn framed_at(data: Seq<u8>, ptr: int) -> Option<Seq<char>> {
    if ptr + 4 > data.len() {
        None
    } else {
        let len = word::le_word(data, ptr);
        if ptr + 4 + len > data.len() {
            None
        } else {
            decoded(data.subrange(ptr + 4, ptr + 4 + len))
        }
    }
}

/// Reads the length-prefixed string at `ptr`.
pub fn read_length_prefixed_string(data: &[u8], ptr: usize) -> (r: Option<String>)
    requires
        ptr + 4 <= usize::MAX,
    ensures
        framed_at(data@, ptr as int) == (match r {
            Some(s) => Some(s@),
            None => None,
        }),
{
    if ptr + 4 > data.len() {
        return None;
    }
    let len: u32 = word::read_word(data, ptr);
    let start: usize = ptr + 4;
    if len as u64 > (data.len() - start) as u64 {
        return None;
    }
    let content = slice_subrange(data, start, start + len as usize);
    match std::str::from_utf8(content) {
        Ok(s) => Some(s.to_owned()),
        Err(_) => None,
    }
}

/// Writes `text` as a length-prefixed string at `at`.
pub fn write_length_prefixed_string(data: &mut [u8], at: usize, text: &str)
    requires
        at + frame(text@).len() <= old(data)@.len(),
    ensures
        final(data)@ == word::overwrite(old(data)@, at as int, frame(text@)),
{
    let size: usize = data.len();
    let content = text.as_bytes();
    proof {
        word::lemma_bytes_of_low_word(content@.len() as int);
        word::lemma_overwrite_adjacent(
            data@,
            at as int,
            word::le_bytes(content@.len() as int),
            content@,
        );
    }
    assert(at + 4 <= size);
    word::write_word(data, at, word::to_word(content.len()));
    word::write_bytes(data, at + 4, content);
}

/// A string whose bytes can be counted in 32 bits is read back from where its
/// frame was written.
pub proof fn law_frame_round_trip(data: Seq<u8>, at: int, text: Seq<char>)
    requires
        0 <= at,
        at + frame(text).len() <= data.len(),
        vstd::utf8::encode_utf8(text).len() < 0x1_0000_0000,
    ensures
        framed_at(word::overwrite(data, at, frame(text)), at) == Some(text),
        word::le_word(word::overwrite(data, at, frame(text)), at) == vstd::utf8::encode_utf8(
            text,
        ).len(),
{
    let bytes = vstd::utf8::encode_utf8(text);
    let head = word::le_bytes(bytes.len() as int);
    let after = word::overwrite(data, at, frame(text));
    assert(word::le_word(after, at) == bytes.len()) by {
        word::law_word_round_trip(data, at, bytes.len() as int);
        let with_head = word::overwrite(data, at, head);
        assert(forall|i: int| at <= i < at + 4 ==> after[i] == with_head[i]);
    }
    assert(after.subrange(at + 4, at + 4 + bytes.len()) == bytes);
    vstd::utf8::encode_utf8_valid_utf8(text);
    vstd::utf8::encode_utf8_decode_utf8(text);
}

/// What is written outside a frame leaves the string in it as it was.
pub proof fn law_frame_undisturbed(data: Seq<u8>, ptr: int, at: int, bytes: Seq<u8>)
    requires
        0 <= ptr,
        0 <= at,
        at + bytes.len() <= data.len(),
        framed_at(data, ptr) is Some,
        at + bytes.len() <= ptr || ptr + 4 + word::le_word(data, ptr) <= at,
    ensures
        framed_at(word::overwrite(data, at, bytes), ptr) == framed_at(data, ptr),
        word::le_word(word::overwrite(data, at, bytes), ptr) == word::le_word(data, ptr),
{
    let len = word::le_word(data, ptr);
    let after = word::overwrite(data, at, bytes);
    assert(len >= 0);
    assert(after.subrange(ptr + 4, ptr + 4 + len) == data.subrange(ptr + 4, ptr + 4 + len));
}

} // verus!
