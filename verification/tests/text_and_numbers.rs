use myore::bytes::u64_to_bytes;
use myore::float64::truncate;
use myore::text::{contains, decimal_text, format_duration, parse_u64};

#[test]
fn durations_have_two_digits_each() {
    assert_eq!(format_duration(0), "00:00");
    assert_eq!(format_duration(75), "01:15");
    assert_eq!(format_duration(599), "09:59");
    assert_eq!(format_duration(3600), "60:00");
    assert_eq!(format_duration(u32::MAX), "71582788:15");
}

#[test]
fn durations_match_the_formatter() {
    for seconds in [1u32, 9, 10, 59, 60, 61, 5999, 6000, 123_456] {
        assert_eq!(format_duration(seconds), format!("{:02}:{:02}", seconds / 60, seconds % 60));
    }
}

#[test]
fn decimals_are_shortest() {
    assert_eq!(decimal_text(0), "0");
    assert_eq!(decimal_text(10), "10");
    assert_eq!(decimal_text(u64::MAX), "18446744073709551615");
}

#[test]
fn numbers_are_read_as_the_standard_library_reads_them() {
    let texts = [
        "", "+", "-", "0", "+7", "++7", "-0", "007", " 7", "7 ", "7\n", "1_000", "12a",
        "18446744073709551615", "18446744073709551616", "+18446744073709551615",
        "99999999999999999999999", "0000000000000000000000000000001", "\u{0663}", "1.5",
    ];
    for text in texts {
        assert_eq!(parse_u64(text), text.parse::<u64>().ok());
    }
    assert_eq!(parse_u64("250000"), Some(250_000));
}

#[test]
fn written_numbers_are_read_back() {
    for n in [0u64, 9, 10, 99, 100, 18_446_744_073_709_551_615] {
        assert_eq!(parse_u64(&decimal_text(n)), Some(n));
    }
}

#[test]
fn substrings_are_found() {
    assert!(contains("mainnet.helius-rpc.com", "helius-rpc.com"));
    assert!(contains("helius-rpc.com", "helius-rpc.com"));
    assert!(contains("anything", ""));
    assert!(!contains("helius-rpc.co", "helius-rpc.com"));
    assert!(!contains("", "a"));
    assert!(contains("\u{e9}\u{e8}b", "\u{e8}b"));
    assert!(contains("aab", "ab"));
}

#[test]
fn nonces_are_little_endian() {
    assert_eq!(u64_to_bytes(0x0102_0304_0506_0708), [8, 7, 6, 5, 4, 3, 2, 1]);
    for n in [0u64, 1, 255, 256, u64::MAX, 0xdead_beef_cafe_f00d] {
        assert_eq!(u64_to_bytes(n), n.to_le_bytes());
        assert_eq!(u64::from_le_bytes(u64_to_bytes(n)), n);
    }
}

#[test]
fn truncation_is_that_of_a_cast() {
    let values = [
        0.0f64, -0.0, 0.25, 0.999_999_999, 1.0, 1.5, 2.0, 5000.0, 10_123.75, 4503599627370495.5,
        4503599627370496.0, 9007199254740993.0, 1.0e15, 1.0e18, 9.3e18, 1.8446744073709550e19,
        1.8446744073709552e19, 1.0e20, 1.0e300, -1.0, -0.5, -1.0e300, 5.0e-324, f64::INFINITY,
        f64::NEG_INFINITY, f64::NAN, f64::MAX, f64::MIN_POSITIVE,
    ];
    for value in values {
        assert_eq!(truncate(value.to_bits()), value as u64);
    }
    assert_eq!(truncate(10_123.75f64.to_bits()), 10_123);
}
