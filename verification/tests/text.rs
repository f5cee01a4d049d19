use etl_slots::decimal::append_decimal;
use etl_slots::decimal::parse_decimal;
use etl_slots::text::find;
use etl_slots::text::rfind_char;
use etl_slots::text::to_chars;

fn chars(s: &str) -> Vec<char> {
    s.chars().collect()
}

#[test]
fn to_chars_gives_the_characters_in_order() {
    assert_eq!(to_chars(""), Vec::<char>::new());
    assert_eq!(to_chars("a_b"), vec!['a', '_', 'b']);
    assert_eq!(to_chars("caf\u{e9}!"), vec!['c', 'a', 'f', '\u{e9}', '!']);
}

#[test]
fn find_gives_the_leftmost_occurrence() {
    assert_eq!(find(&chars("abcabc"), &chars("bc")), Some(1));
    assert_eq!(find(&chars("abcabc"), &chars("abc")), Some(0));
    assert_eq!(find(&chars("abcabc"), &chars("cab")), Some(2));
    assert_eq!(find(&chars("aaa"), &chars("aa")), Some(0));
    assert_eq!(find(&chars("xyz"), &chars("yz")), Some(1));
    assert_eq!(find(&chars("xyz"), &chars("xyz")), Some(0));
}

#[test]
fn find_gives_none_where_the_pattern_is_absent() {
    assert_eq!(find(&chars("abcabc"), &chars("cb")), None);
    assert_eq!(find(&chars("ab"), &chars("abc")), None);
    assert_eq!(find(&chars(""), &chars("a")), None);
    assert_eq!(find(&chars("_appl_y_"), &chars("_apply_")), None);
}

#[test]
fn find_of_the_empty_pattern_is_the_start() {
    assert_eq!(find(&chars("abc"), &chars("")), Some(0));
    assert_eq!(find(&chars(""), &chars("")), Some(0));
}

#[test]
fn rfind_char_gives_the_rightmost_index() {
    let text = chars("a_b_c_d");
    assert_eq!(rfind_char(&text, '_'), Some(5));
    assert_eq!(rfind_char(&text[..5], '_'), Some(3));
    assert_eq!(rfind_char(&text[2..4], '_'), Some(1));
    assert_eq!(rfind_char(&text, 'a'), Some(0));
    assert_eq!(rfind_char(&text, 'd'), Some(6));
}

#[test]
fn rfind_char_gives_none_where_the_character_is_absent() {
    let text = chars("a_b_c_d");
    assert_eq!(rfind_char(&text, 'x'), None);
    assert_eq!(rfind_char(&text[2..3], '_'), None);
    assert_eq!(rfind_char(&text[3..3], '_'), None);
    assert_eq!(rfind_char(&[], '_'), None);
}

#[test]
fn append_decimal_writes_the_shortest_notation() {
    let values: [u64; 9] = [0, 1, 9, 10, 11, 99, 100, 1234567890, u64::MAX];
    for value in values {
        let mut out = String::from("n=");
        append_decimal(&mut out, value);
        assert_eq!(out, format!("n={}", value));
    }
}

#[test]
fn parse_decimal_reads_what_append_decimal_writes() {
    let values: [u64; 8] = [0, 1, 9, 10, 99, 100, 4294967295, u64::MAX];
    for value in values {
        let mut out = String::new();
        append_decimal(&mut out, value);
        let text = chars(&out);
        assert_eq!(parse_decimal(&text, u64::MAX), Some(value));
    }
}

#[test]
fn parse_decimal_reads_the_whole_text() {
    let text = chars("ab123cd");
    assert_eq!(parse_decimal(&text[2..5], u64::MAX), Some(123));
    assert_eq!(parse_decimal(&text[2..4], u64::MAX), Some(12));
    assert_eq!(parse_decimal(&text[1..5], u64::MAX), None);
    assert_eq!(parse_decimal(&text[2..6], u64::MAX), None);
    assert_eq!(parse_decimal(&text[2..2], u64::MAX), None);
    assert_eq!(parse_decimal(&text, u64::MAX), None);
}

#[test]
fn parse_decimal_respects_the_bound() {
    let text = chars("256");
    assert_eq!(parse_decimal(&text, 256), Some(256));
    assert_eq!(parse_decimal(&text, 255), None);
    assert_eq!(parse_decimal(&text, 0), None);
    assert_eq!(parse_decimal(&text, 25), None);
    let zero = chars("0");
    assert_eq!(parse_decimal(&zero, 0), Some(0));
    let nine = chars("9");
    assert_eq!(parse_decimal(&nine, 8), None);
    assert_eq!(parse_decimal(&nine, 9), Some(9));
    let large = chars("18446744073709551616");
    assert_eq!(parse_decimal(&large, u64::MAX), None);
    let largest = chars("18446744073709551615");
    assert_eq!(parse_decimal(&largest, u64::MAX), Some(u64::MAX));
}

#[test]
fn parse_decimal_accepts_leading_zeros() {
    let text = chars("0000000000000000000000042");
    assert_eq!(parse_decimal(&text, 42), Some(42));
    let text = chars("00");
    assert_eq!(parse_decimal(&text, 0), Some(0));
}

#[test]
fn parse_decimal_rejects_what_is_not_all_digits() {
    let samples: [&str; 12] = [
        "", "+", "-", "+42", "-42", "++42", "4+2", "42+", " 42", "42 ", "4_2", "\u{663}",
    ];
    for sample in samples {
        let text = chars(sample);
        assert_eq!(parse_decimal(&text, u64::MAX), None, "reading {:?}", sample);
    }
    let text = chars("+42");
    assert_eq!(parse_decimal(&text[1..], u64::MAX), Some(42));
}

#[test]
fn parse_decimal_agrees_with_the_standard_parser_on_unsigned_text() {
    let samples: [&str; 12] = [
        "", "0", "00", "1", "12a", " 1", "1 ", "4294967295", "4294967296",
        "18446744073709551615", "18446744073709551616", "999999999999999999999",
    ];
    for sample in samples {
        let text = chars(sample);
        assert_eq!(
            parse_decimal(&text, u64::MAX),
            sample.parse::<u64>().ok(),
            "reading {:?}",
            sample
        );
        assert_eq!(
            parse_decimal(&text, 4294967295).map(|value| value as u32),
            sample.parse::<u32>().ok(),
            "reading {:?}",
            sample
        );
    }
}
