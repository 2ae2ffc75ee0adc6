use agency_os_desktop::text;

#[test]
fn white_space_is_that_of_the_standard_library() {
    for code in 0..=0x10FFFFu32 {
        if let Some(c) = char::from_u32(code) {
            assert_eq!(text::is_white_space(c), c.is_whitespace(), "U+{code:04X}");
        }
    }
}

#[test]
fn trimming_agrees_with_the_standard_library() {
    let samples = [
        "",
        " ",
        "\t\r\n",
        "plain",
        "  both ends\u{3000}",
        "inner  space",
        "\u{a0}x\u{2009}",
        "\u{200b}not white space\u{200b}",
        "…é ",
    ];
    for s in samples {
        assert_eq!(text::trim(s), s.trim());
        assert_eq!(text::trim(s.trim()), s.trim());
    }
}

#[test]
fn searching_agrees_with_the_standard_library() {
    let texts = ["", "a", "ab", "abab", "/printview?x", "/a/b.pdf", "é.pdf", "aaab"];
    let needles = ["", "a", "b", "ab", "ba", ".pdf", "/printview", "aab", "abab", "ababab"];
    for s in texts {
        for n in needles {
            assert_eq!(text::starts_with(s, n), s.starts_with(n), "{s} {n}");
            assert_eq!(text::ends_with(s, n), s.ends_with(n), "{s} {n}");
            assert_eq!(text::contains(s, n), s.contains(n), "{s} {n}");
            assert_eq!(text::same_text(s, n), s == n, "{s} {n}");
        }
    }
}

#[test]
fn slashes_and_segments() {
    for s in ["", "/", "//", "a", "a/", "a//", "/a", "/a/b", "/a/b//", "a//b", "é/ü/"] {
        assert_eq!(text::trim_end_slashes(s), s.trim_end_matches('/'));
        assert_eq!(
            text::last_piece(s),
            s.rsplit('/').find(|p| !p.is_empty()).map(|p| p.to_string())
        );
    }
}

#[test]
fn decimals() {
    for n in [0usize, 7, 9, 10, 11, 99, 100, 1024, 65535, usize::MAX] {
        assert_eq!(text::decimal_text(n), n.to_string());
    }
}

#[test]
fn joining_and_characters() {
    assert_eq!(text::joined("a…", "é"), "a…é");
    assert_eq!(text::characters("a…é"), vec!['a', '…', 'é']);
}

#[test]
fn listed_texts() {
    let list = vec!["a".to_string(), "bc".to_string()];
    for s in ["", "a", "b", "bc", "bcd"] {
        assert_eq!(text::is_listed(&list, s), list.iter().any(|other| other == s));
    }
    assert!(!text::is_listed(&vec![], ""));
}

#[test]
fn replaced_characters() {
    assert_eq!(text::with_each("aé/", |c| if c == 'é' { 'e' } else { c }), "ae/");
    assert_eq!(text::with_each("", |_| 'x'), "");
}
