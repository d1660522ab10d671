use mod_library::text::{
    chars_of, contains, find_char, is_space_char, push_decimal, remove_char, skip_leading,
    stands_at, string_of, trim_bounds, Trim,
};

fn chars(s: &str) -> Vec<char> {
    s.chars().collect()
}

#[test]
fn chars_of_keeps_every_character_in_order() {
    assert_eq!(chars_of("aé漢"), vec!['a', 'é', '漢']);
    assert_eq!(chars_of(""), Vec::<char>::new());
}

#[test]
fn string_of_takes_the_window() {
    let text = chars("hello world");
    assert_eq!(string_of(&text, 6, 11), "world");
    assert_eq!(string_of(&text, 3, 3), "");
    assert_eq!(string_of(&text, 0, 11), "hello world");
}

#[test]
fn stands_at_checks_the_position() {
    let text = chars("abcabc");
    assert!(stands_at(&text, &chars("abc"), 0));
    assert!(stands_at(&text, &chars("abc"), 3));
    assert!(!stands_at(&text, &chars("abc"), 1));
    assert!(!stands_at(&text, &chars("abc"), 4));
    assert!(stands_at(&text, &chars(""), 6));
    assert!(!stands_at(&text, &chars(""), 7));
}

#[test]
fn contains_finds_a_part_anywhere() {
    let text = chars("cool weapons pack");
    assert!(contains(&text, &chars("weapons")));
    assert!(contains(&text, &chars("cool")));
    assert!(contains(&text, &chars("pack")));
    assert!(contains(&text, &chars("")));
    assert!(!contains(&text, &chars("armor")));
    assert!(!contains(&text, &chars("cool weapons pack!")));
    assert!(contains(&chars(""), &chars("")));
    assert!(!contains(&chars(""), &chars("a")));
}

#[test]
fn find_char_gives_the_first_position_or_the_length() {
    let text = chars("a;b;c");
    assert_eq!(find_char(&text, 0, ';'), 1);
    assert_eq!(find_char(&text, 1, ';'), 1);
    assert_eq!(find_char(&text, 2, ';'), 3);
    assert_eq!(find_char(&text, 4, ';'), 5);
    assert_eq!(find_char(&text, 5, ';'), 5);
}

#[test]
fn remove_char_drops_every_occurrence() {
    assert_eq!(remove_char(&chars("a\\b\\\\c"), '\\'), chars("abc"));
    assert_eq!(remove_char(&chars("\\"), '\\'), chars(""));
    assert_eq!(remove_char(&chars("abc"), '\\'), chars("abc"));
}

#[test]
fn white_space_is_what_std_calls_white_space() {
    let mut code: u32 = 0;
    while code <= 0x10FFFF {
        if let Some(c) = char::from_u32(code) {
            assert_eq!(is_space_char(c), c.is_whitespace(), "U+{:04X}", code);
        }
        code += 1;
    }
}

#[test]
fn trim_bounds_trims_both_ends() {
    let text = chars("  \t name with space \n");
    let (from, to) = trim_bounds(&text, 0, text.len(), Trim::Space);
    assert_eq!(string_of(&text, from, to), "name with space");
    let quoted = chars("\"\"a\"b\"");
    let (from, to) = trim_bounds(&quoted, 0, quoted.len(), Trim::Quote);
    assert_eq!(string_of(&quoted, from, to), "a\"b");
    let blank = chars("   ");
    let (from, to) = trim_bounds(&blank, 0, blank.len(), Trim::Space);
    assert_eq!(string_of(&blank, from, to), "");
}

#[test]
fn trim_bounds_agrees_with_std_trim() {
    let samples = ["", " ", "a", " a", "a ", " a b ", "\u{3000}x\u{85}", "\"q\"", "  \"q\"  "];
    for sample in samples {
        let text = chars(sample);
        let (from, to) = trim_bounds(&text, 0, text.len(), Trim::Space);
        assert_eq!(string_of(&text, from, to), sample.trim());
        let (from, to) = trim_bounds(&text, 0, text.len(), Trim::Quote);
        assert_eq!(string_of(&text, from, to), sample.trim_matches('"'));
    }
}

#[test]
fn skip_leading_drops_every_repetition() {
    let text = chars("filename=filename=x");
    let key = chars("filename=");
    let start = skip_leading(&text, 0, text.len(), &key);
    assert_eq!(string_of(&text, start, text.len()), "x");
    let none = chars("name=x");
    assert_eq!(skip_leading(&none, 0, none.len(), &key), 0);
    assert_eq!(skip_leading(&text, 0, text.len(), &chars("")), 0);
}

#[test]
fn push_decimal_writes_numerals() {
    let cases: [(u64, &str); 7] = [
        (0, "0"),
        (7, "7"),
        (10, "10"),
        (120, "120"),
        (104857600, "104857600"),
        (1234567890, "1234567890"),
        (u64::MAX, "18446744073709551615"),
    ];
    for (n, expected) in cases {
        let mut out = String::from("n=");
        push_decimal(&mut out, n);
        assert_eq!(out, format!("n={}", expected));
    }
}
