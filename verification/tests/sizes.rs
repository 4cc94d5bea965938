use download_orchestrator::progress::{saturating_sum, ProgressIndicator};
use download_orchestrator::size::{expected_size, parse_decimal};

#[test]
fn parse_decimal_reads_plain_numbers() {
    assert_eq!(parse_decimal(b"0"), Some(0));
    assert_eq!(parse_decimal(b"5"), Some(5));
    assert_eq!(parse_decimal(b"123"), Some(123));
    assert_eq!(parse_decimal(b"007"), Some(7));
    assert_eq!(parse_decimal(b"10485760"), Some(10485760));
}

#[test]
fn parse_decimal_takes_one_leading_plus() {
    assert_eq!(parse_decimal(b"+5"), Some(5));
    assert_eq!(parse_decimal(b"+"), None);
    assert_eq!(parse_decimal(b"++5"), None);
    assert_eq!(parse_decimal(b"5+"), None);
}

#[test]
fn parse_decimal_refuses_what_is_no_number() {
    assert_eq!(parse_decimal(b""), None);
    assert_eq!(parse_decimal(b"-1"), None);
    assert_eq!(parse_decimal(b" 1"), None);
    assert_eq!(parse_decimal(b"1 "), None);
    assert_eq!(parse_decimal(b"12a"), None);
    assert_eq!(parse_decimal(b"1_000"), None);
    assert_eq!(parse_decimal(b"1.5"), None);
    assert_eq!(parse_decimal(&[0x31, 0xff]), None);
    assert_eq!(parse_decimal(&[0x09]), None);
}

#[test]
fn parse_decimal_stops_at_64_bits() {
    assert_eq!(parse_decimal(b"18446744073709551615"), Some(u64::MAX));
    assert_eq!(parse_decimal(b"18446744073709551616"), None);
    assert_eq!(parse_decimal(b"99999999999999999999"), None);
    assert_eq!(parse_decimal(b"000000000000000000000000001"), Some(1));
}

#[test]
fn parse_decimal_agrees_with_std() {
    let samples = [
        "", "+", "-", "0", "+0", "-0", "42", "+42", "4 2", "0x10", "18446744073709551615",
        "18446744073709551616", "184467440737095516150", "abc", "12345678901234567890",
    ];
    for text in samples.iter() {
        assert_eq!(parse_decimal(text.as_bytes()), text.parse::<u64>().ok(), "{}", text);
    }
}

#[test]
fn expected_size_defaults_to_zero() {
    assert_eq!(expected_size(None), 0);
    assert_eq!(expected_size(Some(b"")), 0);
    assert_eq!(expected_size(Some(b"chunked")), 0);
    assert_eq!(expected_size(Some(b"18446744073709551616")), 0);
    assert_eq!(expected_size(Some(b"5")), 5);
    assert_eq!(expected_size(Some(b"2097152")), 2097152);
}

#[test]
fn saturating_sum_stops_at_the_top() {
    assert_eq!(saturating_sum(2, 3), 5);
    assert_eq!(saturating_sum(u64::MAX, 0), u64::MAX);
    assert_eq!(saturating_sum(u64::MAX - 1, 1), u64::MAX);
    assert_eq!(saturating_sum(u64::MAX - 1, 5), u64::MAX);
    assert_eq!(saturating_sum(u64::MAX, u64::MAX), u64::MAX);
}

#[test]
fn indicator_starts_at_zero_unfinished() {
    let p = ProgressIndicator::new(10, "file.bin".to_string());
    assert_eq!(p.position, 0);
    assert_eq!(p.length, 10);
    assert_eq!(p.label, "file.bin");
    assert!(!p.finished);
    assert!(!p.is_finished());
}

#[test]
fn indicator_advances_and_saturates() {
    let mut p = ProgressIndicator::new(10, String::new());
    p.inc(4);
    p.inc(3);
    assert_eq!(p.position, 7);
    p.inc(20);
    assert_eq!(p.position, 27);
    assert_eq!(p.length, 10);
    p.inc(u64::MAX);
    assert_eq!(p.position, u64::MAX);
    assert!(!p.finished);
}

#[test]
fn indicator_finish_moves_position_to_length() {
    let mut p = ProgressIndicator::new(10, "a".to_string());
    p.inc(3);
    p.finish();
    assert_eq!(p.position, 10);
    assert!(p.is_finished());
    assert_eq!(p.label, "a");

    let mut q = ProgressIndicator::new(0, "b".to_string());
    q.inc(3);
    q.finish_with_label("done".to_string());
    assert_eq!(q.position, 0);
    assert_eq!(q.label, "done");
    assert!(q.finished);
}

#[test]
fn indicator_label_and_length_can_change() {
    let mut p = ProgressIndicator::new(0, "a".to_string());
    p.set_length(99);
    p.set_label("b".to_string());
    assert_eq!(p.length, 99);
    assert_eq!(p.label, "b");
    assert_eq!(p.position, 0);
    assert!(!p.finished);
}
