use porcupine::text::{
    chars_of, clone_strings, decimal_string, eq_ignoring_ascii_case, find_first, find_last,
    find_text, has_suffix, lower, matches_at, signed_decimal_string, str_eq,
};

fn chars(text: &str) -> Vec<char> {
    text.chars().collect()
}

#[test]
fn strings_are_equal_when_their_characters_are() {
    assert!(str_eq("", ""));
    assert!(str_eq("hey siri", "hey siri"));
    assert!(!str_eq("hey siri", "hey sir"));
    assert!(!str_eq("hey siri", "hey sirI"));
    assert!(str_eq("caf\u{e9}", "caf\u{e9}"));
    assert!(!str_eq("caf\u{e9}", "cafe"));
}

#[test]
fn characters_are_listed_in_order() {
    assert_eq!(chars_of(""), Vec::<char>::new());
    assert_eq!(chars_of("a\u{e9}\u{1F600}b"), vec!['a', '\u{e9}', '\u{1F600}', 'b']);
}

#[test]
fn numbers_are_written_in_decimal() {
    assert_eq!(decimal_string(0), "0");
    assert_eq!(decimal_string(7), "7");
    assert_eq!(decimal_string(10), "10");
    assert_eq!(decimal_string(16000), "16000");
    assert_eq!(decimal_string(u64::MAX), "18446744073709551615");
    assert_eq!(signed_decimal_string(0), "0");
    assert_eq!(signed_decimal_string(-1), "-1");
    assert_eq!(signed_decimal_string(512), "512");
    assert_eq!(signed_decimal_string(i64::MIN), "-9223372036854775808");
    assert_eq!(signed_decimal_string(i64::MAX), "9223372036854775807");
    for n in (0u64..100_000).step_by(977) {
        assert_eq!(decimal_string(n), n.to_string());
        assert_eq!(signed_decimal_string(-(n as i64)), (-(n as i64)).to_string());
    }
}

#[test]
fn first_and_last_occurrences_are_found() {
    let text = chars("a_b_c");
    assert_eq!(find_first(&text, '_'), Some(1));
    assert_eq!(find_last(&text, '_'), Some(3));
    assert_eq!(find_first(&text, 'a'), Some(0));
    assert_eq!(find_last(&text, 'c'), Some(4));
    assert_eq!(find_first(&text, 'x'), None);
    assert_eq!(find_last(&text, 'x'), None);
    assert_eq!(find_first(&[], '_'), None);
    assert_eq!(find_last(&[], '_'), None);
}

#[test]
fn parts_are_found_where_they_first_occur() {
    let text = chars("CPU partCPU part");
    assert_eq!(find_text(&text, &chars("CPU part")), Some(0));
    assert_eq!(find_text(&text, &chars("part")), Some(4));
    assert_eq!(find_text(&text, &chars("tC")), Some(7));
    assert_eq!(find_text(&text, &chars("")), Some(0));
    assert_eq!(find_text(&text, &chars("parts")), None);
    assert_eq!(find_text(&chars("ab"), &chars("abc")), None);
    assert_eq!(find_text(&[], &[]), Some(0));
    assert!(matches_at(&text, &chars("part"), 12));
    assert!(!matches_at(&text, &chars("part"), 13));
    assert!(!matches_at(&text, &chars("part"), 100));
    assert!(matches_at(&text, &[], 16));
    assert!(!matches_at(&text, &[], 17));
}

#[test]
fn suffixes_are_recognised() {
    assert!(has_suffix(&chars("alexa_linux.ppn"), &chars("_linux.ppn")));
    assert!(has_suffix(&chars("_linux.ppn"), &chars("_linux.ppn")));
    assert!(has_suffix(&chars("abc"), &[]));
    assert!(!has_suffix(&chars("linux.ppn"), &chars("_linux.ppn")));
    assert!(!has_suffix(&chars("alexa_linux.ppn "), &chars("_linux.ppn")));
}

#[test]
fn only_ascii_capitals_are_lowered() {
    assert_eq!(lower('A'), 'a');
    assert_eq!(lower('Z'), 'z');
    assert_eq!(lower('a'), 'a');
    assert_eq!(lower('0'), '0');
    assert_eq!(lower('@'), '@');
    assert_eq!(lower('['), '[');
    assert_eq!(lower('\u{c9}'), '\u{c9}');
    assert_eq!(lower('\u{212A}'), '\u{212A}');
    assert!(eq_ignoring_ascii_case(&chars("0XD0b"), &chars("0xd0B")));
    assert!(!eq_ignoring_ascii_case(&chars("0xd0b"), &chars("0xd0")));
    assert!(!eq_ignoring_ascii_case(&chars("\u{212A}"), &chars("k")));
    assert!(eq_ignoring_ascii_case(&[], &[]));
}

#[test]
fn strings_are_copied_in_order() {
    let strings = vec!["a".to_string(), String::new(), "c d".to_string()];
    assert_eq!(clone_strings(&strings), strings);
    assert_eq!(clone_strings(&[]), Vec::<String>::new());
}
