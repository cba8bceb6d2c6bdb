use git_service::raw::RawText;
use git_service::text::{
    ascii_lowercase, cat, cat3, contains, copied_texts, decimal_text, ends_with, join, lines,
    replace_first, same, split, split_bytes, strip_prefix, trim, trim_end, white_space,
};

#[test]
fn white_space_is_that_of_the_standard_library() {
    for code in 0..=0x10FFFFu32 {
        if let Some(c) = char::from_u32(code) {
            assert_eq!(white_space(c), c.is_whitespace(), "{:?}", c);
        }
    }
}

#[test]
fn lines_are_those_of_the_standard_library() {
    for s in [
        "", "a", "a\n", "a\nb", "a\r\nb\r\n", "\n", "\n\n", "\r", "a\r", "a\r\r\n", "x\n\ny", "\r\n",
        "ä\nö\r\n",
    ] {
        let expected: Vec<String> = s.lines().map(|l| l.to_string()).collect();
        assert_eq!(lines(s), expected, "{:?}", s);
    }
}

#[test]
fn trimming_is_that_of_the_standard_library() {
    for s in ["", " ", "a", " a", "a ", "\t a b \r\n", "\u{a0}x\u{3000}", "\u{200b}x"] {
        assert_eq!(trim(s), s.trim(), "{:?}", s);
        assert_eq!(trim_end(s), s.trim_end(), "{:?}", s);
    }
}

#[test]
fn splitting_is_that_of_the_standard_library() {
    for s in ["", "\t", "a\tb", "a\t\tb\t", "abc"] {
        let expected: Vec<String> = s.split('\t').map(|p| p.to_string()).collect();
        assert_eq!(split(s, '\t'), expected, "{:?}", s);
        let bytes: Vec<Vec<u8>> = s.as_bytes().split(|b| *b == b'\t').map(|p| p.to_vec()).collect();
        assert_eq!(split_bytes(&s.as_bytes().to_vec(), b'\t'), bytes, "{:?}", s);
    }
}

#[test]
fn parts_are_found_and_replaced_as_in_the_standard_library() {
    for (s, part) in [
        ("", ""), ("", "a"), ("abc", ""), ("abc", "bc"), ("abc", "cb"), ("aab", "ab"), ("é", "é"),
        ("refs/remotes/origin/x", "refs/remotes/origin/"), ("xx", "x"),
    ] {
        assert_eq!(contains(s, part), s.contains(part), "{:?} {:?}", s, part);
        assert_eq!(ends_with(s, part), s.ends_with(part), "{:?} {:?}", s, part);
        assert_eq!(strip_prefix(s, part).as_deref(), s.strip_prefix(part), "{:?} {:?}", s, part);
        assert_eq!(replace_first(s, part, "-"), s.replacen(part, "-", 1), "{:?} {:?}", s, part);
    }
}

#[test]
fn joining_and_concatenating() {
    let parts: Vec<String> = vec!["a".to_string(), "b".to_string(), "c".to_string()];
    assert_eq!(join(&parts, ", "), "a, b, c");
    assert_eq!(join(&copied_texts(&parts), ""), "abc");
    assert_eq!(join(&Vec::new(), ", "), "");
    assert_eq!(cat("a", "b"), "ab");
    assert_eq!(cat3("a", "", "c"), "ac");
    assert!(same("ab", &cat("a", "b")));
    assert!(!same("ab", "ba"));
}

#[test]
fn numbers_in_decimal() {
    for n in [0usize, 1, 9, 10, 11, 99, 100, 1234567890, usize::MAX] {
        assert_eq!(decimal_text(n), n.to_string());
    }
}

#[test]
fn only_ascii_letters_are_lowered() {
    for s in ["", "ABCxyz", "Ä[@Z{", "CONFLICT in İ"] {
        assert_eq!(ascii_lowercase(s), s.to_ascii_lowercase());
    }
}

#[test]
fn bytes_that_are_not_text() {
    let good = RawText { bytes: "grün".as_bytes().to_vec() };
    assert_eq!(good.to_text(), "grün");
    assert_eq!(good.as_text(), Some("grün".to_string()));
    assert_eq!(good.check_text(), Ok("grün".to_string()));
    let bad = RawText { bytes: vec![b'a', 0xff, b'b'] };
    assert_eq!(bad.to_text(), "a\u{fffd}b");
    assert_eq!(bad.as_text(), None);
    assert_eq!(
        bad.check_text(),
        Err("invalid utf-8 sequence of 1 bytes from index 1".to_string())
    );
    assert_eq!(RawText::of("é").bytes, vec![0xc3, 0xa9]);
    assert_eq!(bad.copy(), bad);
}
