use rust_media::frame_rate::{
    format_int, frame_rate_or_default, parse_frame_rate, parse_int, DEFAULT_FRAME_RATE,
};

fn args(items: &[&str]) -> Vec<String> {
    items.iter().map(|s| s.to_string()).collect()
}

#[test]
fn default_frame_rate_is_thirty() {
    assert_eq!(DEFAULT_FRAME_RATE, 30);
}

#[test]
fn missing_argument_gives_the_default() {
    assert_eq!(parse_frame_rate(&args(&["prog"])), 30);
    assert_eq!(parse_frame_rate(&args(&[])), 30);
}

#[test]
fn unparsable_argument_gives_the_default() {
    assert_eq!(parse_frame_rate(&args(&["prog", "fast"])), 30);
    assert_eq!(parse_frame_rate(&args(&["prog", ""])), 30);
    assert_eq!(parse_frame_rate(&args(&["prog", "24.5"])), 30);
    assert_eq!(parse_frame_rate(&args(&["prog", " 24"])), 30);
    assert_eq!(parse_frame_rate(&args(&["prog", "24fps"])), 30);
    assert_eq!(parse_frame_rate(&args(&["prog", "99999999999"])), 30);
}

#[test]
fn integer_argument_is_used() {
    assert_eq!(parse_frame_rate(&args(&["prog", "24"])), 24);
    assert_eq!(parse_frame_rate(&args(&["prog", "60", "ignored"])), 60);
    assert_eq!(parse_frame_rate(&args(&["prog", "0"])), 0);
    assert_eq!(parse_frame_rate(&args(&["prog", "-5"])), -5);
}

#[test]
fn fallback_keeps_a_parsed_value() {
    assert_eq!(frame_rate_or_default(Some(24)), 24);
    assert_eq!(frame_rate_or_default(Some(0)), 0);
    assert_eq!(frame_rate_or_default(None), 30);
}

#[test]
fn parse_int_reads_signs_and_leading_zeros() {
    assert_eq!(parse_int("24"), Some(24));
    assert_eq!(parse_int("+24"), Some(24));
    assert_eq!(parse_int("-24"), Some(-24));
    assert_eq!(parse_int("0024"), Some(24));
    assert_eq!(parse_int("-0"), Some(0));
    assert_eq!(parse_int("0"), Some(0));
}

#[test]
fn parse_int_rejects_what_is_no_integer() {
    assert_eq!(parse_int(""), None);
    assert_eq!(parse_int("+"), None);
    assert_eq!(parse_int("-"), None);
    assert_eq!(parse_int("+-1"), None);
    assert_eq!(parse_int("1-"), None);
    assert_eq!(parse_int("1_000"), None);
    assert_eq!(parse_int("12a"), None);
    assert_eq!(parse_int("a12"), None);
    assert_eq!(parse_int("1 2"), None);
    assert_eq!(parse_int("٣"), None);
    assert_eq!(parse_int("0x10"), None);
}

#[test]
fn parse_int_stops_at_the_limits() {
    assert_eq!(parse_int("2147483647"), Some(i32::MAX));
    assert_eq!(parse_int("2147483648"), None);
    assert_eq!(parse_int("-2147483648"), Some(i32::MIN));
    assert_eq!(parse_int("-2147483649"), None);
    assert_eq!(parse_int("21474836470"), None);
    assert_eq!(parse_int("99999999999999999999999999"), None);
    assert_eq!(parse_int("00000000000000000000000042"), Some(42));
}

#[test]
fn parse_int_agrees_with_the_standard_parser() {
    let samples = [
        "", "0", "7", "+7", "-7", "30", "024", "2147483647", "2147483648", "-2147483648",
        "-2147483649", "++1", "--1", "1e3", "１２", " 1", "1 ", "+", "-", "4294967296",
    ];
    for s in samples {
        assert_eq!(parse_int(s), s.parse::<i32>().ok(), "input {:?}", s);
    }
}

#[test]
fn format_int_writes_base_ten() {
    assert_eq!(format_int(0), "0");
    assert_eq!(format_int(7), "7");
    assert_eq!(format_int(24), "24");
    assert_eq!(format_int(30), "30");
    assert_eq!(format_int(1000), "1000");
    assert_eq!(format_int(-5), "-5");
    assert_eq!(format_int(i32::MAX), "2147483647");
    assert_eq!(format_int(i32::MIN), "-2147483648");
}

#[test]
fn format_int_is_read_back_by_parse_int() {
    for v in [0, 1, 9, 10, 11, 99, 100, 12345, -1, -10, -12345, i32::MAX, i32::MIN] {
        assert_eq!(parse_int(&format_int(v)), Some(v));
        assert_eq!(format_int(v), v.to_string());
    }
}
