use live_captions_gtk::text::{contains, decimal, ends_with, parse_u64, trim};

#[test]
fn decimal_writes_numbers_without_leading_zeros() {
    assert_eq!(decimal(0), "0");
    assert_eq!(decimal(7), "7");
    assert_eq!(decimal(10), "10");
    assert_eq!(decimal(1_048_576), "1048576");
    assert_eq!(decimal(u64::MAX), u64::MAX.to_string());
}

#[test]
fn parse_u64_follows_the_standard_library() {
    for text in ["0", "42", "+42", "007", "18446744073709551615", "", "+", "-1", "1 ", " 1", "18446744073709551616", "12a", "١"] {
        assert_eq!(parse_u64(text), text.parse::<u64>().ok(), "parsing {text:?}");
    }
}

#[test]
fn trim_strips_unicode_white_space_like_str_trim() {
    for text in ["  hello ", "\t\nx\r\n", "", "   ", "\u{3000}你好\u{00a0}", "a b", "\u{2003}x\u{200b}"] {
        assert_eq!(trim(text), text.trim(), "trimming {text:?}");
    }
}

#[test]
fn suffix_and_substring_tests() {
    assert!(ends_with("model.tar.bz2", ".tar.bz2"));
    assert!(!ends_with("bz2", ".tar.bz2"));
    assert!(ends_with("x", ""));
    assert!(contains("none, bytes", "bytes"));
    assert!(!contains("byte", "bytes"));
    assert!(contains("", ""));
}
