use exchange_feed::text::{chars_of, digit, find_char, join, parse_u64, same_text};

#[test]
fn parse_u64_reads_digits() {
    assert_eq!(parse_u64("0"), Some(0));
    assert_eq!(parse_u64("111"), Some(111));
    assert_eq!(parse_u64("1700000000123"), Some(1_700_000_000_123));
}

#[test]
fn parse_u64_takes_a_plus_and_leading_zeros() {
    assert_eq!(parse_u64("+5"), Some(5));
    assert_eq!(parse_u64("007"), Some(7));
    assert_eq!(parse_u64("+000"), Some(0));
}

#[test]
fn parse_u64_limits() {
    assert_eq!(parse_u64("18446744073709551615"), Some(u64::MAX));
    assert_eq!(parse_u64("18446744073709551616"), None);
    assert_eq!(parse_u64("18446744073709551620"), None);
    assert_eq!(parse_u64("99999999999999999999"), None);
    assert_eq!(parse_u64("000018446744073709551615"), Some(u64::MAX));
}

#[test]
fn parse_u64_refuses_what_is_no_number() {
    for bad in ["", "+", "-", "-5", "++5", "5+", " 5", "5 ", "1_000", "1.0", "1e3", "abc", "12a", "٣"] {
        assert_eq!(parse_u64(bad), None, "text {:?}", bad);
    }
}

#[test]
fn parse_u64_agrees_with_std() {
    for sample in [
        "", "0", "1", "+1", "-1", "+", "-", "00", "+00", "18446744073709551615",
        "18446744073709551616", "184467440737095516150", "1 ", " 1", "1_0", "0x1", "１", "12345",
        "+-1", "9223372036854775808",
    ] {
        assert_eq!(parse_u64(sample), sample.parse::<u64>().ok(), "sample {:?}", sample);
    }
}

#[test]
fn chars_of_lists_every_character() {
    assert_eq!(chars_of(""), Vec::<char>::new());
    assert_eq!(chars_of("a@b"), vec!['a', '@', 'b']);
    assert_eq!(chars_of("é€😀"), vec!['é', '€', '😀']);
}

#[test]
fn join_puts_one_text_behind_the_other() {
    assert_eq!(join("wss://x/", "btcusdt@kline_1m"), "wss://x/btcusdt@kline_1m");
    assert_eq!(join("", "b"), "b");
    assert_eq!(join("a", ""), "a");
}

#[test]
fn same_text_compares_characters() {
    assert!(same_text("", ""));
    assert!(same_text("event", "event"));
    assert!(!same_text("event", "Event"));
    assert!(!same_text("event", "events"));
    assert!(!same_text("events", "event"));
    assert!(!same_text("a", ""));
}

#[test]
fn find_char_gives_the_first_place() {
    let cs = chars_of("BTC-USDT@candle1m@x");
    assert_eq!(find_char(&cs, 0, '@'), 8);
    assert_eq!(find_char(&cs, 8, '@'), 8);
    assert_eq!(find_char(&cs, 9, '@'), 17);
    assert_eq!(find_char(&cs, 18, '@'), 19);
    assert_eq!(find_char(&cs, 19, '@'), 19);
    assert_eq!(find_char(&cs, 0, '#'), 19);
}

#[test]
fn digit_knows_the_ten_digits() {
    for c in "0123456789".chars() {
        assert!(digit(c));
    }
    for c in "/:aA+-. ٣".chars() {
        assert!(!digit(c));
    }
}
