use alice_container::text::{
    char_is_whitespace, concat2, concat_decimal, find_char, has_prefix, join_path, parse_number,
    push_decimal, push_signed_decimal, same_text, split_lines, split_words, sub_vec, to_chars,
    trimmed, u64_to_string, ParseFailure,
};
use std::path::Path;

fn chars(s: &str) -> Vec<char> {
    s.chars().collect()
}

fn text(v: &[char]) -> String {
    v.iter().collect()
}

const SAMPLES: [&str; 18] = [
    "",
    "a",
    "\n",
    "a\n",
    "a\nb",
    "a\n\nb\n",
    "a\r\nb\r\n",
    "a\r",
    "a\r\r\n",
    "\r\n",
    "  lead and trail \t",
    "usage_usec 123\nuser_usec 4\n",
    "one\u{a0}two\u{3000}three",
    "\u{2003}x\u{85}y\u{1680}",
    "tab\tsep\u{b}v\u{c}f",
    "no-space\u{200b}here",
    " \n \n",
    "x\u{2028}y\u{2029}z\u{202f}w\u{205f}v",
];

#[test]
fn chars_of_a_string() {
    assert_eq!(to_chars("héllo"), chars("héllo"));
    assert!(to_chars("").is_empty());
}

#[test]
fn decimal_numerals() {
    for n in [0u64, 1, 9, 10, 11, 99, 100, 12345, 1 << 32, u64::MAX - 1, u64::MAX] {
        assert_eq!(u64_to_string(n), n.to_string());
        assert_eq!(concat_decimal("n=", n), format!("n={}", n));
    }
    let mut out = String::from("x");
    push_decimal(&mut out, 42);
    push_decimal(&mut out, 0);
    assert_eq!(out, "x420");
    for i in [0i32, 1, -1, 17, -22, i32::MAX, i32::MIN] {
        let mut out = String::from("e");
        push_signed_decimal(&mut out, i);
        assert_eq!(out, format!("e{}", i));
    }
    assert_eq!(concat2("ab", "cd"), "abcd");
}

#[test]
fn whitespace_is_what_the_standard_library_says() {
    for code in 0..0x3100u32 {
        if let Some(c) = char::from_u32(code) {
            assert_eq!(char_is_whitespace(c), c.is_whitespace(), "for U+{:04X}", code);
        }
    }
    assert!(!char_is_whitespace('\u{feff}'));
}

#[test]
fn lines_are_what_the_standard_library_says() {
    for sample in SAMPLES {
        let got: Vec<String> = split_lines(&chars(sample)).iter().map(|l| text(l)).collect();
        let expected: Vec<String> = sample.lines().map(|l| l.to_string()).collect();
        assert_eq!(got, expected, "for {:?}", sample);
    }
}

#[test]
fn words_are_what_the_standard_library_says() {
    for sample in SAMPLES {
        let got: Vec<String> = split_words(&chars(sample)).iter().map(|l| text(l)).collect();
        let expected: Vec<String> = sample.split_whitespace().map(|l| l.to_string()).collect();
        assert_eq!(got, expected, "for {:?}", sample);
    }
}

#[test]
fn trimming_is_what_the_standard_library_says() {
    for sample in SAMPLES {
        assert_eq!(text(&trimmed(&chars(sample))), sample.trim(), "for {:?}", sample);
    }
}

#[test]
fn numbers_are_read_as_the_standard_library_reads_them() {
    let samples = [
        "", "0", "00", "7", "+7", "+", "-", "-7", "++7", "7+", " 7", "7 ", "1_000", "0x10",
        "18446744073709551615", "18446744073709551616", "99999999999999999999999",
        "184467440737095516150", "1844674407370955161x", "18446744073709551616x", "x", "٣",
    ];
    for sample in samples {
        let got = parse_number(&chars(sample), u64::MAX).map_err(|e| e.to_string());
        let expected = sample.parse::<u64>().map_err(|e| e.to_string());
        assert_eq!(got, expected, "for {:?}", sample);
        let got = parse_number(&chars(sample), u32::MAX as u64).map_err(|e| e.to_string());
        let expected = sample.parse::<u32>().map(|n| n as u64).map_err(|e| e.to_string());
        assert_eq!(got, expected, "for {:?} as u32", sample);
    }
    assert_eq!(parse_number(&chars("4294967296"), u32::MAX as u64), Err(ParseFailure::Overflow));
    assert_eq!(parse_number(&chars(""), 5), Err(ParseFailure::Empty));
    assert_eq!(parse_number(&chars("5x"), 5), Err(ParseFailure::InvalidDigit));
    assert_eq!(parse_number(&chars("6"), 5), Err(ParseFailure::Overflow));
    assert_eq!(parse_number(&chars("5"), 5), Ok(5));
}

#[test]
fn what_is_formatted_is_read_back() {
    for n in [0u64, 5, 10, 1 << 40, u64::MAX] {
        assert_eq!(parse_number(&chars(&u64_to_string(n)), u64::MAX), Ok(n));
    }
}

#[test]
fn prefixes_and_searches() {
    let v = chars("usage_usec 5");
    assert!(has_prefix(&v, "usage_usec"));
    assert!(has_prefix(&v, ""));
    assert!(!has_prefix(&v, "usage_usec 55"));
    assert!(!has_prefix(&v, "user"));
    assert!(same_text(&chars("total"), "total"));
    assert!(!same_text(&chars("total"), "tota"));
    assert!(!same_text(&chars("tota"), "total"));
    assert_eq!(find_char(&chars("avg10=1.23"), '='), 5);
    assert_eq!(find_char(&chars("a==b"), '='), 1);
    assert_eq!(find_char(&chars("abc"), '='), 3);
    assert_eq!(find_char(&chars(""), '='), 0);
    assert_eq!(text(&sub_vec(&chars("hello"), 1, 3)), "el");
    assert_eq!(text(&sub_vec(&chars("hello"), 5, 5)), "");
}

#[test]
fn paths_join_as_the_standard_library_joins_them() {
    let samples = [
        ("/sys/fs/cgroup", "alice"),
        ("/sys/fs/cgroup/", "alice"),
        ("/a", "/b"),
        ("", "b"),
        ("a", ""),
        ("", ""),
        ("/", "x"),
        ("/", "/"),
        ("rel", "etc/hosts"),
        ("/a//", "b"),
        ("/a", ".old_root"),
    ];
    for (base, rel) in samples {
        let expected = Path::new(base).join(rel).to_string_lossy().to_string();
        assert_eq!(join_path(base, rel), expected, "for {:?} and {:?}", base, rel);
    }
}
