use clean_runner::frame::{read_length_prefixed_string, write_length_prefixed_string};
use clean_runner::word::{
    align_up, read_word, to_address, to_pointer, to_word, word_to_pointer, write_bytes, write_word,
};

#[test]
fn reads_a_string_behind_its_length() {
    let data = [9u8, 5, 0, 0, 0, b'h', b'e', b'l', b'l', b'o', 7];
    assert_eq!(read_length_prefixed_string(&data, 1), Some("hello".to_string()));
    let wide = [2u8, 0, 0, 0, 0xc3, 0xa9];
    assert_eq!(read_length_prefixed_string(&wide, 0), Some("é".to_string()));
    let empty = [0u8, 0, 0, 0];
    assert_eq!(read_length_prefixed_string(&empty, 0), Some(String::new()));
}

#[test]
fn refuses_what_is_not_a_string() {
    let data = [5u8, 0, 0, 0, b'h', b'e', b'l', b'l'];
    // The content reaches past the end.
    assert_eq!(read_length_prefixed_string(&data, 0), None);
    // The length reaches past the end.
    assert_eq!(read_length_prefixed_string(&data, 5), None);
    assert_eq!(read_length_prefixed_string(&data, usize::MAX - 4), None);
    // A length of almost four gibibytes.
    let long = [0xff, 0xff, 0xff, 0xff, 1, 2];
    assert_eq!(read_length_prefixed_string(&long, 0), None);
    // The content is not UTF-8.
    let broken = [1u8, 0, 0, 0, 0xff];
    assert_eq!(read_length_prefixed_string(&broken, 0), None);
    let cut = [1u8, 0, 0, 0, 0xc3, 0xa9];
    assert_eq!(read_length_prefixed_string(&cut, 0), None);
    let surrogate = [3u8, 0, 0, 0, 0xed, 0xa0, 0x80];
    assert_eq!(read_length_prefixed_string(&surrogate, 0), None);
}

#[test]
fn what_is_written_is_read_back() {
    for text in ["", "a", "hello", "grüße, 世界 🌍"] {
        let mut data = vec![0xaau8; 64];
        write_length_prefixed_string(&mut data, 7, text);
        assert_eq!(read_length_prefixed_string(&data, 7), Some(text.to_string()));
        assert_eq!(data[6], 0xaa);
        assert_eq!(data[7..11], (text.len() as u32).to_le_bytes());
        assert_eq!(&data[11..11 + text.len()], text.as_bytes());
        assert_eq!(data[11 + text.len()], 0xaa);
    }
}

#[test]
fn writing_elsewhere_spares_a_string() {
    let mut data = vec![0u8; 64];
    write_length_prefixed_string(&mut data, 8, "first");
    write_length_prefixed_string(&mut data, 24, "second");
    assert_eq!(read_length_prefixed_string(&data, 8), Some("first".to_string()));
    assert_eq!(read_length_prefixed_string(&data, 24), Some("second".to_string()));
}

#[test]
fn rounding_up() {
    assert_eq!(align_up(0), 0);
    assert_eq!(align_up(1), 8);
    assert_eq!(align_up(8), 8);
    assert_eq!(align_up(9), 16);
    assert_eq!(align_up(usize::MAX - 7), usize::MAX - 7);
}

#[test]
fn pointers_and_addresses() {
    for p in [0i32, 1, 1_048_576, i32::MAX, -1, -4, i32::MIN] {
        assert_eq!(to_address(p), p as usize);
    }
    for n in [0usize, 1, 0x7fff_ffff, 0x8000_0000, 0xffff_ffff, 0x1_0000_0000, usize::MAX] {
        assert_eq!(to_word(n), n as u32);
        assert_eq!(to_pointer(n), n as i32);
    }
    assert_eq!(word_to_pointer(0xffff_fffe), -2);
    assert_eq!(word_to_pointer(12), 12);
    assert_eq!(to_address(to_pointer(1_234_568)), 1_234_568);
}

#[test]
fn words_are_little_endian() {
    let mut data = vec![0u8; 8];
    write_word(&mut data, 2, 0x0403_0201);
    assert_eq!(data, vec![0, 0, 1, 2, 3, 4, 0, 0]);
    assert_eq!(read_word(&data, 2), 0x0403_0201);
    write_word(&mut data, 4, u32::MAX);
    assert_eq!(read_word(&data, 4), u32::MAX);
    write_bytes(&mut data, 1, &[9, 8]);
    assert_eq!(data, vec![0, 9, 8, 2, 255, 255, 255, 255]);
}
