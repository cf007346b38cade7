//! Text and code units.
use std::time::Duration;

use awaza::clock::{millis, now_ms, timer_period, Span};
use awaza::log::log_line;
use awaza::utf16::{decode, encode, reg_sz_bytes, wide};

#[test]
fn wide_appends_a_terminator() {
    assert_eq!(wide("awaza"), vec![0x61, 0x77, 0x61, 0x7A, 0x61, 0]);
    assert_eq!(wide(""), vec![0]);
}

#[test]
fn encode_has_no_terminator() {
    assert_eq!(encode("かな"), vec![0x304B, 0x306A]);
    assert!(encode("").is_empty());
}

#[test]
fn supplementary_characters_take_a_pair() {
    assert_eq!(encode("\u{20BB7}"), vec![0xD842, 0xDFB7]);
    assert_eq!(encode("\u{10000}"), vec![0xD800, 0xDC00]);
    assert_eq!(encode("\u{10FFFF}"), vec![0xDBFF, 0xDFFF]);
    assert_eq!(encode("\u{FFFF}"), vec![0xFFFF]);
}

#[test]
fn encode_agrees_with_the_standard_library() {
    for text in ["", "a", "無変換\u{20BB7}変換", "\u{D7FF}\u{E000}", "\0x", "🎌🎌"] {
        let expected: Vec<u16> = text.encode_utf16().collect();
        assert_eq!(encode(text), expected);
    }
}

#[test]
fn decode_reads_back_what_was_encoded() {
    for text in ["", "C:\\Program Files\\awaza.dll", "し\u{20BB7}゛", "\u{10FFFF}"] {
        let units = encode(text);
        assert_eq!(decode(&units, units.len()), text);
    }
}

#[test]
fn decode_stops_at_the_reported_length() {
    let buffer = [0x61u16, 0x62, 0x63, 0, 0, 0];
    assert_eq!(decode(&buffer, 2), "ab");
    assert_eq!(decode(&buffer, 0), "");
    assert_eq!(decode(&[0xD842, 0xDFB7], 1), "\u{FFFD}");
}

#[test]
fn lone_surrogates_read_as_replacements() {
    let cases: Vec<Vec<u16>> = vec![
        vec![0xD800],
        vec![0xDC00, 0x61],
        vec![0xD800, 0x61],
        vec![0xD800, 0xD800, 0xDC00],
        vec![0xDFFF, 0xD800],
    ];
    for units in cases {
        assert_eq!(decode(&units, units.len()), String::from_utf16_lossy(&units));
    }
    assert_eq!(decode(&[0xDC00, 0x61], 2), "\u{FFFD}a");
}

#[test]
fn different_texts_differ_in_units() {
    assert_ne!(encode("か"), encode("が"));
    assert_ne!(encode("\u{20BB7}"), encode("\u{20BB8}"));
}

#[test]
fn units_of_a_concatenation() {
    let mut joined = encode("変");
    joined.extend(encode("換"));
    assert_eq!(encode("変換"), joined);
}

#[test]
fn first_zero_is_the_terminator() {
    let units = wide("親指");
    let end = units.iter().position(|unit| *unit == 0).unwrap();
    assert_eq!(end, units.len() - 1);
    assert_eq!(decode(&units, end), "親指");
}

#[test]
fn registry_strings_are_little_endian_and_terminated() {
    assert_eq!(reg_sz_bytes("A"), vec![0x41, 0x00, 0x00, 0x00]);
    assert_eq!(reg_sz_bytes("あ"), vec![0x42, 0x30, 0x00, 0x00]);
    let bytes = reg_sz_bytes("Apartment");
    assert_eq!(bytes.len(), 20);
    let read: Vec<u16> = bytes.chunks(2).map(|b| u16::from_le_bytes([b[0], b[1]])).collect();
    assert_eq!(read, wide("Apartment"));
}

fn span(duration: Duration) -> Span {
    Span { secs: duration.as_secs(), nanos: duration.subsec_nanos() }
}

#[test]
fn milliseconds_are_rounded_down() {
    assert_eq!(millis(Span { secs: 0, nanos: 999_999 }), 0);
    assert_eq!(millis(Span { secs: 0, nanos: 1_000_000 }), 1);
    assert_eq!(millis(Span { secs: 2, nanos: 34_999_999 }), 2034);
    for duration in [Duration::ZERO, Duration::from_nanos(1_999_999), Duration::MAX] {
        assert_eq!(millis(span(duration)), duration.as_millis());
    }
}

#[test]
fn stamps_saturate() {
    assert_eq!(now_ms(Span { secs: 0, nanos: 0 }), 0);
    assert_eq!(now_ms(Span { secs: 1234, nanos: 567_000_000 }), 1_234_567);
    let most = Duration::from_millis(u64::MAX);
    assert_eq!(now_ms(span(most)), u64::MAX);
    assert_eq!(now_ms(span(most + Duration::from_millis(1))), u64::MAX);
    assert_eq!(now_ms(span(most - Duration::from_millis(1))), u64::MAX - 1);
}

#[test]
fn periods_saturate() {
    assert_eq!(timer_period(span(Duration::from_millis(100))), 100);
    let most = Duration::from_millis(u32::MAX as u64);
    assert_eq!(timer_period(span(most)), u32::MAX);
    assert_eq!(timer_period(span(most + Duration::from_millis(1))), u32::MAX);
    assert_eq!(timer_period(span(most - Duration::from_nanos(1))), u32::MAX - 1);
}

#[test]
fn log_lines_tell_when_and_who() {
    let since = Some(Span { secs: 1_700_000_000, nanos: 5_999_999 });
    assert_eq!(log_line(since, 4711, "かな"), "[1700000000005 pid=4711] かな\n");
    assert_eq!(log_line(Some(Span { secs: 0, nanos: 10_000_000 }), 0, ""), "[10 pid=0] \n");
}

#[test]
fn a_clock_before_the_epoch_reads_as_zero() {
    assert_eq!(log_line(None, 9, "x"), "[0 pid=9] x\n");
}

#[test]
fn log_numbers_are_plain_decimals() {
    for ms in [0u64, 9, 10, 99, 100, 1_000_000, 1_000_001, u64::MAX] {
        let duration = Duration::from_millis(ms);
        let pid = (ms % 100_000) as u32;
        assert_eq!(
            log_line(Some(span(duration)), pid, "m"),
            format!("[{} pid={}] m\n", ms, pid)
        );
    }
    assert_eq!(
        log_line(Some(span(Duration::MAX)), u32::MAX, "m"),
        format!("[{} pid={}] m\n", Duration::MAX.as_millis(), u32::MAX)
    );
}
