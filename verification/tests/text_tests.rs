use winsize::text::{
    chars_of, contains, ends_with, format_decimal, lowercase_chars, matches_at, parse_usize,
    to_ascii_lower,
};

fn chars(s: &str) -> Vec<char> {
    s.chars().collect()
}

fn number(s: &str) -> Option<usize> {
    let v = chars(s);
    parse_usize(&v, 0, v.len())
}

#[test]
fn chars_of_keeps_every_character() {
    assert_eq!(chars_of("a\u{e9}\u{4e16}z"), vec!['a', '\u{e9}', '\u{4e16}', 'z']);
    assert_eq!(chars_of(""), Vec::<char>::new());
}

#[test]
fn ascii_letters_are_lowered() {
    assert_eq!(to_ascii_lower('A'), 'a');
    assert_eq!(to_ascii_lower('Z'), 'z');
    assert_eq!(to_ascii_lower('m'), 'm');
    assert_eq!(to_ascii_lower('@'), '@');
    assert_eq!(to_ascii_lower('['), '[');
    assert_eq!(to_ascii_lower('7'), '7');
}

#[test]
fn other_letters_are_not_lowered() {
    assert_eq!(to_ascii_lower('\u{c9}'), '\u{c9}');
    assert_eq!(lowercase_chars("\u{c9}COLE"), chars("\u{c9}cole"));
}

#[test]
fn lowercase_chars_lowers_each_character() {
    assert_eq!(lowercase_chars("NotePad 2.0"), chars("notepad 2.0"));
    assert_eq!(lowercase_chars(""), Vec::<char>::new());
}

#[test]
fn lowercase_chars_agrees_with_std() {
    let samples: [&str; 4] = ["C:\\Windows\\NOTEPAD.EXE", "MiXeD", "\u{df}\u{130}Q", "already"];
    for s in samples {
        assert_eq!(lowercase_chars(s), chars(&s.to_ascii_lowercase()));
    }
}

#[test]
fn substring_is_found_anywhere() {
    assert!(contains(&chars("notepad"), &chars("note")));
    assert!(contains(&chars("notepad"), &chars("pad")));
    assert!(contains(&chars("notepad"), &chars("tep")));
    assert!(contains(&chars("notepad"), &chars("notepad")));
}

#[test]
fn substring_that_is_absent_is_not_found() {
    assert!(!contains(&chars("notepad"), &chars("calc")));
    assert!(!contains(&chars("notepad"), &chars("notepads")));
    assert!(!contains(&chars("aab"), &chars("aba")));
    assert!(!contains(&chars(""), &chars("a")));
}

#[test]
fn empty_text_occurs_in_every_text() {
    assert!(contains(&chars("notepad"), &chars("")));
    assert!(contains(&chars(""), &chars("")));
    assert!(ends_with(&chars("notepad"), &chars("")));
    assert!(ends_with(&chars(""), &chars("")));
}

#[test]
fn substring_search_agrees_with_std() {
    let hays: [&str; 4] = ["abracadabra", "aaaa", "", "x"];
    let needles: [&str; 7] = ["abra", "cad", "aa", "aaaaa", "", "x", "ra"];
    for h in hays {
        for n in needles {
            assert_eq!(contains(&chars(h), &chars(n)), h.contains(n));
            assert_eq!(ends_with(&chars(h), &chars(n)), h.ends_with(n));
        }
    }
}

#[test]
fn suffix_is_found_at_the_end_only() {
    assert!(ends_with(&chars("c:\\bin\\notepad.exe"), &chars("notepad.exe")));
    assert!(ends_with(&chars("notepad.exe"), &chars("notepad.exe")));
    assert!(!ends_with(&chars("notepad.exe.bak"), &chars("notepad.exe")));
    assert!(!ends_with(&chars("pad.exe"), &chars("notepad.exe")));
}

#[test]
fn matches_at_compares_one_position() {
    let hay = chars("notepad");
    assert!(matches_at(&hay, &chars("tep"), 2));
    assert!(!matches_at(&hay, &chars("tep"), 1));
    assert!(matches_at(&hay, &chars(""), 7));
}

#[test]
fn decimal_numerals_are_read() {
    assert_eq!(number("0"), Some(0));
    assert_eq!(number("7"), Some(7));
    assert_eq!(number("1080"), Some(1080));
    assert_eq!(number("007"), Some(7));
    assert_eq!(number("0000000000000000000000000000012"), Some(12));
}

#[test]
fn plus_sign_is_accepted_once_at_the_start() {
    assert_eq!(number("+5"), Some(5));
    assert_eq!(number("+0"), Some(0));
    assert_eq!(number("++5"), None);
    assert_eq!(number("5+"), None);
    assert_eq!(number("+"), None);
}

#[test]
fn what_is_no_numeral_is_refused() {
    assert_eq!(number(""), None);
    assert_eq!(number("-5"), None);
    assert_eq!(number("-0"), None);
    assert_eq!(number(" 5"), None);
    assert_eq!(number("5 "), None);
    assert_eq!(number("1_000"), None);
    assert_eq!(number("1.5"), None);
    assert_eq!(number("12a"), None);
    assert_eq!(number("0x10"), None);
    assert_eq!(number("\u{663}"), None);
}

#[test]
fn largest_machine_word_is_read_and_the_next_number_refused() {
    assert_eq!(number(&format!("{}", usize::MAX)), Some(usize::MAX));
    let beyond: u128 = usize::MAX as u128 + 1;
    assert_eq!(number(&format!("{}", beyond)), None);
    assert_eq!(number("99999999999999999999999999999999999999999"), None);
}

#[test]
fn overflow_is_refused_whatever_follows() {
    assert_eq!(number("99999999999999999999999999999999999999999x"), None);
}

#[test]
fn numeral_is_read_out_of_a_range() {
    let v = chars("800x600");
    assert_eq!(parse_usize(&v, 0, 3), Some(800));
    assert_eq!(parse_usize(&v, 4, 7), Some(600));
    assert_eq!(parse_usize(&v, 0, 7), None);
    assert_eq!(parse_usize(&v, 3, 3), None);
}

#[test]
fn reading_agrees_with_std() {
    let samples: [&str; 12] =
        ["0", "42", "+42", "-42", "", "+", "00", "4 2", "18446744073709551615",
         "18446744073709551616", "٣", "1e3"];
    for s in samples {
        assert_eq!(number(s), s.parse::<usize>().ok());
    }
}

#[test]
fn numbers_are_written_in_canonical_decimal() {
    assert_eq!(format_decimal(0), "0");
    assert_eq!(format_decimal(9), "9");
    assert_eq!(format_decimal(10), "10");
    assert_eq!(format_decimal(1080), "1080");
    assert_eq!(format_decimal(100200), "100200");
    assert_eq!(format_decimal(usize::MAX), format!("{}", usize::MAX));
}

#[test]
fn writing_then_reading_gives_the_number_back() {
    let samples: [usize; 6] = [0, 1, 9, 10, 4096, usize::MAX];
    for n in samples {
        assert_eq!(number(&format_decimal(n)), Some(n));
    }
}

#[test]
fn reading_then_writing_strips_sign_and_leading_zeros() {
    assert_eq!(format_decimal(number("+007").unwrap()), "7");
    assert_eq!(format_decimal(number("000").unwrap()), "0");
    assert_eq!(format_decimal(number("120").unwrap()), "120");
}
