use spool::text::{chars_of, contains_exec, find_exec, is_whitespace, string_of, trim_bounds, trim_string};

#[test]
fn is_whitespace_matches_std_on_every_char() {
    for code in 0u32..=0x10FFFF {
        if let Some(c) = char::from_u32(code) {
            assert_eq!(is_whitespace(c), c.is_whitespace(), "U+{:04X}", code);
        }
    }
}

#[test]
fn trim_matches_std() {
    let samples = [
        "",
        "   ",
        "abc",
        "  abc  ",
        "\t\r\n x y \n",
        "\u{3000}全角\u{3000}",
        "\u{A0}nbsp\u{2009}",
        "\u{85}next line\u{2028}",
        "a\u{200B}",
    ];
    for s in samples {
        assert_eq!(trim_string(s), s.trim(), "{:?}", s);
    }
}

#[test]
fn trim_bounds_inside_a_range() {
    let v = chars_of("xx  ab c  yy");
    let (a, b) = trim_bounds(&v, 2, 10);
    assert_eq!((a, b), (4, 8));
    assert_eq!(string_of(&v, a, b), "ab c");
}

#[test]
fn trim_idempotent_on_examples() {
    for s in ["  a b  ", "\n\n", "x", " \u{3000}y\u{3000} "] {
        let once = trim_string(s);
        assert_eq!(trim_string(&once), once);
    }
}

#[test]
fn chars_of_keeps_every_character() {
    let s = "héllo, 世界 👋";
    assert_eq!(chars_of(s), s.chars().collect::<Vec<char>>());
}

#[test]
fn find_gives_first_occurrence() {
    let hay = chars_of("abcabcab");
    assert_eq!(find_exec(&hay, &chars_of("cab")), Some(2));
    assert_eq!(find_exec(&hay, &chars_of("abd")), None);
    assert_eq!(find_exec(&hay, &chars_of("")), Some(0));
    assert_eq!(find_exec(&chars_of("ab"), &chars_of("abc")), None);
    assert!(contains_exec(&hay, "bca"));
    assert!(!contains_exec(&hay, "cc"));
}
