use openquantumkeychain::text::{
    chars_of, class_has, clean_path, contains, copy_bytes, is_space_char, matches_at,
    parse_choice, strip_chars, trim, CharClass,
};

fn chars(s: &str) -> Vec<char> {
    s.chars().collect()
}

#[test]
fn white_space_is_what_the_standard_library_says() {
    let mut n: u32 = 0;
    while n <= 0x3100 {
        if let Some(c) = char::from_u32(n) {
            assert_eq!(is_space_char(c), c.is_whitespace(), "U+{:04X}", n);
        }
        n += 1;
    }
    assert!(!is_space_char('\u{FEFF}'));
    assert!(!is_space_char('\u{10FFFF}'));
}

#[test]
fn quotes_are_the_double_and_the_single_mark() {
    assert!(class_has(CharClass::Quote, '"'));
    assert!(class_has(CharClass::Quote, '\''));
    assert!(!class_has(CharClass::Quote, '`'));
    assert!(!class_has(CharClass::Quote, ' '));
    assert!(class_has(CharClass::Space, ' '));
    assert!(!class_has(CharClass::Space, '"'));
}

#[test]
fn chars_of_lists_every_character() {
    assert_eq!(chars_of(""), Vec::<char>::new());
    assert_eq!(chars_of("a/b"), vec!['a', '/', 'b']);
    assert_eq!(chars_of("é€😀"), vec!['é', '€', '😀']);
}

#[test]
fn trim_agrees_with_the_standard_library() {
    for s in [
        "",
        " ",
        "1",
        " 1 ",
        "\t5\r\n",
        "  a b  ",
        "\u{00A0}x\u{3000}",
        "\u{2003}\u{2003}",
        "no space",
        " é ",
        "\u{200B}x",
    ] {
        assert_eq!(trim(s), s.trim(), "{:?}", s);
    }
}

#[test]
fn strip_chars_removes_one_class_only() {
    assert_eq!(strip_chars("\"\"'a'b'\"", CharClass::Quote), "a'b");
    assert_eq!(strip_chars(" \"a\" ", CharClass::Quote), " \"a\" ");
    assert_eq!(strip_chars("''''", CharClass::Quote), "");
    assert_eq!(strip_chars("  ", CharClass::Space), "");
}

#[test]
fn clean_path_strips_quotes_then_white_space() {
    assert_eq!(clean_path("/tmp/keys"), "/tmp/keys");
    assert_eq!(clean_path("\"/tmp/keys\""), "/tmp/keys");
    assert_eq!(clean_path("'/tmp/my keys'"), "/tmp/my keys");
    assert_eq!(clean_path("\" /tmp/keys \""), "/tmp/keys");
    assert_eq!(clean_path("  \"/tmp/keys\"  "), "\"/tmp/keys\"");
    assert_eq!(clean_path("/tmp/keys \n"), "/tmp/keys");
    assert_eq!(clean_path(""), "");
    assert_eq!(clean_path("\"\""), "");
    for s in ["\"a b\" ", " 'x'", "\"' q '\"", "plain"] {
        assert_eq!(clean_path(s), s.trim_matches(&['"', '\''][..]).trim(), "{:?}", s);
    }
}

#[test]
fn parse_choice_reads_one_digit() {
    assert_eq!(parse_choice("1"), Some(1));
    assert_eq!(parse_choice("0"), Some(0));
    assert_eq!(parse_choice("9"), Some(9));
    assert_eq!(parse_choice("  6\n"), Some(6));
    assert_eq!(parse_choice("\t7 "), Some(7));
}

#[test]
fn parse_choice_refuses_anything_else() {
    assert_eq!(parse_choice(""), None);
    assert_eq!(parse_choice(" "), None);
    assert_eq!(parse_choice("10"), None);
    assert_eq!(parse_choice("01"), None);
    assert_eq!(parse_choice("1 2"), None);
    assert_eq!(parse_choice("a"), None);
    assert_eq!(parse_choice("-1"), None);
    assert_eq!(parse_choice("+1"), None);
    assert_eq!(parse_choice("１"), None);
    assert_eq!(parse_choice("1."), None);
}

#[test]
fn contains_agrees_with_the_standard_library() {
    let hays = ["", "a", "Kyber512_secret", "aaa", "abcabc", "xKyber51Kyber512", "éa€"];
    let needles = ["", "a", "aa", "Kyber512", "abc", "bca", "cab", "€", "a€", "Kyber5120"];
    for h in hays {
        for n in needles {
            assert_eq!(contains(&chars(h), &chars(n)), h.contains(n), "{:?} in {:?}", n, h);
        }
    }
}

#[test]
fn matches_at_compares_at_one_offset() {
    let hay = chars("abcabc");
    assert!(matches_at(&hay, &chars("abc"), 0));
    assert!(matches_at(&hay, &chars("abc"), 3));
    assert!(!matches_at(&hay, &chars("abc"), 1));
    assert!(matches_at(&hay, &chars(""), 6));
    assert!(matches_at(&hay, &chars("c"), 5));
}

#[test]
fn copy_bytes_copies() {
    assert_eq!(copy_bytes(&vec![]), Vec::<u8>::new());
    assert_eq!(copy_bytes(&vec![0, 255, 7]), vec![0, 255, 7]);
}
