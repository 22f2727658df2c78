use easy_dictate::text::{
    chars_of, contains, decimal_chars, is_blank_str, is_whitespace, join_chars, replace_chars,
    split_chars, str_eq, string_of, trim,
};

fn chars(s: &str) -> Vec<char> {
    s.chars().collect()
}

#[test]
fn characters_round_trip() {
    assert_eq!(chars_of("añ€😀"), vec!['a', 'ñ', '€', '😀']);
    assert_eq!(string_of(&vec!['a', 'ñ', '€', '😀']), "añ€😀");
    assert_eq!(chars_of(""), Vec::<char>::new());
    assert!(str_eq("añ", "añ"));
    assert!(!str_eq("a", "A"));
    assert!(!str_eq("a", "ab"));
    assert!(str_eq("", ""));
}

#[test]
fn white_space_is_what_the_standard_library_says() {
    for code in 0u32..0x11_0000 {
        if let Some(c) = char::from_u32(code) {
            assert_eq!(is_whitespace(c), c.is_whitespace(), "U+{:04X}", code);
        }
    }
}

#[test]
fn trim_matches_the_standard_library() {
    for s in [
        "",
        " ",
        "  a  ",
        "\t\na b\r\n",
        "\u{a0}x\u{2003}",
        "x",
        " x y ",
        "\u{3000}\u{85}",
        "a\u{200b}",
    ] {
        assert_eq!(trim(s), s.trim(), "{:?}", s);
        assert_eq!(is_blank_str(s), s.trim().is_empty(), "{:?}", s);
    }
}

#[test]
fn replace_matches_the_standard_library() {
    for (s, from, to) in [
        ("a  b", "  ", " "),
        ("a   b", "  ", " "),
        ("a    b", "  ", " "),
        ("     ", "  ", " "),
        ("abc", "  ", " "),
        ("", "  ", " "),
        ("aaaa", "aa", "b"),
        ("aaa", "aa", "aaa"),
        ("xabcx", "abc", ""),
        ("ab", "abc", "x"),
    ] {
        assert_eq!(
            string_of(&replace_chars(&chars(s), &chars(from), &chars(to))),
            s.replace(from, to),
            "{:?}",
            s
        );
    }
}

#[test]
fn an_empty_pattern_replaces_nothing() {
    assert_eq!(
        string_of(&replace_chars(&chars("abc"), &chars(""), &chars("x"))),
        "abc"
    );
    assert_eq!(
        string_of(&replace_chars(&chars(""), &chars(""), &chars("x"))),
        ""
    );
}

#[test]
fn split_matches_the_standard_library() {
    for s in ["", "+", "a+b", "a++b", "+a+", "abc", "Ctrl+Shift+A", "++"] {
        let pieces: Vec<String> = split_chars(&chars(s), '+')
            .iter()
            .map(|p| string_of(p))
            .collect();
        let expected: Vec<String> = s.split('+').map(|p| p.to_string()).collect();
        assert_eq!(pieces, expected, "{:?}", s);
    }
}

#[test]
fn contains_matches_the_standard_library() {
    for (s, part) in [
        ("", ""),
        ("abc", ""),
        ("abc", "abc"),
        ("abc", "bc"),
        ("abc", "abcd"),
        ("abc", "ac"),
        ("a/../b", "../"),
        ("a/./b", "./"),
        ("aab", "ab"),
        ("", "a"),
    ] {
        assert_eq!(contains(s, part), s.contains(part), "{:?} {:?}", s, part);
    }
}

#[test]
fn join_and_decimal() {
    assert_eq!(string_of(&join_chars(&vec![], ", ")), "");
    assert_eq!(string_of(&join_chars(&vec![chars("a")], ", ")), "a");
    assert_eq!(
        string_of(&join_chars(&vec![chars("a"), chars(""), chars("c")], ", ")),
        "a, , c"
    );
    for n in [0u64, 7, 10, 99, 100, 1234567890, u64::MAX] {
        assert_eq!(string_of(&decimal_chars(n)), n.to_string());
    }
}
