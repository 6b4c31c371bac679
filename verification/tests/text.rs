use clean_runner::text::{
    decimal_of, digits_of, found_at, join, matches_pattern, repeat, replace, same_text, split,
    to_chars, trim, trim_end, trim_start, truth_word_of, white_space,
};

#[test]
fn decimal_matches_display() {
    for n in [0i64, 7, 10, 99, 100, -1, -10, 123456789, i64::MAX, i64::MIN, i32::MIN as i64] {
        assert_eq!(decimal_of(n), n.to_string());
    }
    for n in [0u64, 9, 10, 65_536, u64::MAX] {
        assert_eq!(digits_of(n), n.to_string());
    }
    assert_eq!(decimal_of(-42), "-42");
}

#[test]
fn truth_words() {
    assert_eq!(truth_word_of(0), "false");
    assert_eq!(truth_word_of(1), "true");
    assert_eq!(truth_word_of(-3), "true");
}

#[test]
fn white_space_is_the_unicode_property() {
    for code in 0..=0x10_ffffu32 {
        if let Some(c) = char::from_u32(code) {
            assert_eq!(white_space(c), c.is_whitespace(), "U+{:04X}", code);
        }
    }
}

#[test]
fn trimming_matches_std() {
    for s in ["", " ", "a", " a ", "\t\n a b \r\n", "\u{3000}x\u{a0}", "  ", "é ", "a\u{200b}"] {
        assert_eq!(trim(s), s.trim());
        assert_eq!(trim_start(s), s.trim_start());
        assert_eq!(trim_end(s), s.trim_end());
    }
    assert_eq!(trim("  hi  "), "hi");
    assert_eq!(trim_start("  hi  "), "hi  ");
    assert_eq!(trim_end("  hi  "), "  hi");
}

#[test]
fn trimming_twice_changes_nothing_more() {
    let once = trim(" \t hello world \n");
    assert_eq!(trim(&once), once);
    assert_eq!(once, "hello world");
}

#[test]
fn splitting_matches_std() {
    let texts = ["", "a", "a,b,c", ",a,", ",,", "aaaa", "aXaXXa", "äöü", "abcabc", "a--b---c"];
    let delimiters = ["", ",", "a", "aa", "X", "ö", "abc", "--", "longer than the text"];
    for s in texts {
        for d in delimiters {
            let expected: Vec<String> = s.split(d).map(|p| p.to_string()).collect();
            assert_eq!(split(s, d), expected, "{:?} by {:?}", s, d);
        }
    }
    assert_eq!(split("a,b,c", ","), vec!["a", "b", "c"]);
    assert_eq!(split("ab", ""), vec!["", "a", "b", ""]);
}

#[test]
fn joining_the_pieces_restores_the_text() {
    for (s, d) in [("a,b,,c", ","), ("", ","), ("abc", ""), ("xxyxx", "xx")] {
        assert_eq!(join(&split(s, d), d), s);
    }
}

#[test]
fn replacing_matches_std() {
    let texts = ["", "a", "banana", "aaaa", "hello world", "äöä"];
    let searches = ["", "a", "an", "aa", "o w", "ä", "zz"];
    let replacements = ["", "-", "aa", "ß"];
    for s in texts {
        for f in searches {
            for r in replacements {
                assert_eq!(replace(s, f, r), s.replace(f, r), "{:?} {:?} {:?}", s, f, r);
            }
        }
    }
    assert_eq!(replace("banana", "an", "AN"), "bANANa");
}

#[test]
fn repeating() {
    assert_eq!(repeat("ab", 3), "ababab");
    assert_eq!(repeat("ab", 0), "");
    assert_eq!(repeat("", 2_000_000_000), "");
    assert_eq!(repeat("é", 2), "éé");
}

#[test]
fn searching() {
    let text = to_chars("banana");
    assert!(found_at(&text, &to_chars("ana"), 1));
    assert!(found_at(&text, &to_chars("ana"), 3));
    assert!(!found_at(&text, &to_chars("ana"), 2));
    assert!(!found_at(&text, &to_chars("ana"), 4));
    assert!(found_at(&text, &to_chars(""), 6));
    assert!(!found_at(&text, &to_chars(""), 7));
    assert!(same_text("x", "x"));
    assert!(!same_text("x", "y"));
}

#[test]
fn named_patterns() {
    assert!(matches_pattern("a@b.c", "email"));
    assert!(!matches_pattern("a@b", "email"));
    assert!(!matches_pattern("a.b", "email"));
    assert!(matches_pattern("http://x", "url"));
    assert!(matches_pattern("https://x", "url"));
    assert!(!matches_pattern("ftp://x", "url"));
    assert!(!matches_pattern(" http://x", "url"));
    assert!(matches_pattern("123e4567-e89b-12d3-a456-426614174000", "uuid"));
    assert!(!matches_pattern("123e4567-e89b-12d3-a456-42661417400", "uuid"));
    assert!(!matches_pattern("123e4567ae89b-12d3-a456-426614174000", "uuid"));
    // The length is counted in bytes: thirty-four characters, two of them wide.
    assert!(matches_pattern("éé3e4567-e89b-12d3-a456-4266141740", "uuid"));
    assert!(!matches_pattern("a@b.c", "phone"));
    assert!(!matches_pattern("a@b.c", ""));
}

#[test]
fn no_piece_holds_the_delimiter() {
    for (s, d) in [("aaaaa", "aa"), ("a--b---c", "--"), ("xyxyx", "xyx"), (",,", ",")] {
        assert!(split(s, d).iter().all(|piece| !piece.contains(d)));
    }
}
