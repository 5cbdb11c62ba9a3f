//! Parsing and formatting of numbers, sizes and key-value lines.

use rustwhy::utils::format::{
    bool_to_string, format_bytes, format_duration, i64_to_string, u64_to_string,
};
use rustwhy::utils::math::{div_toward_zero, to_signed};
use rustwhy::utils::parse::{
    parse_i64, parse_key_value, parse_key_value_as, parse_size_human, parse_u64, scale_size,
    size_factor,
};
use rustwhy::utils::text::chars_of;

const NUMBERS: [&str; 22] = [
    "0",
    "7",
    "42",
    "+5",
    "-5",
    "-0",
    "+",
    "-",
    "",
    " 12 ",
    "\t99\n",
    "1 2",
    "12a",
    "a12",
    "0007",
    "18446744073709551615",
    "18446744073709551616",
    "9223372036854775807",
    "9223372036854775808",
    "-9223372036854775808",
    "-9223372036854775809",
    "٣",
];

#[test]
fn parse_u64_matches_the_standard_library() {
    for s in NUMBERS {
        assert_eq!(parse_u64(s), s.trim().parse::<u64>().ok(), "u64 of {:?}", s);
    }
    assert_eq!(parse_u64("  16314356 "), Some(16314356));
    assert_eq!(parse_u64("kB"), None);
}

#[test]
fn parse_i64_matches_the_standard_library() {
    for s in NUMBERS {
        assert_eq!(parse_i64(s), s.trim().parse::<i64>().ok(), "i64 of {:?}", s);
    }
    assert_eq!(parse_i64("-45000"), Some(-45000));
}

#[test]
fn decimal_text_matches_the_standard_library() {
    for n in [0u64, 1, 9, 10, 11, 99, 100, 12345, u64::MAX, u64::MAX - 1, 1 << 63] {
        assert_eq!(u64_to_string(n), n.to_string());
        assert_eq!(parse_u64(&u64_to_string(n)), Some(n));
    }
    for n in [0i64, 1, -1, 9, -10, 12345, -12345, i64::MAX, i64::MIN, i64::MIN + 1] {
        assert_eq!(i64_to_string(n), n.to_string());
        assert_eq!(parse_i64(&i64_to_string(n)), Some(n));
    }
    assert_eq!(bool_to_string(true), "true");
    assert_eq!(bool_to_string(false), "false");
}

#[test]
fn size_factors() {
    assert_eq!(size_factor(""), Some(1));
    assert_eq!(size_factor("K"), Some(1_000));
    assert_eq!(size_factor("KB"), Some(1_000));
    assert_eq!(size_factor("KI"), Some(1_024));
    assert_eq!(size_factor("KIB"), Some(1_024));
    assert_eq!(size_factor("M"), Some(1_000_000));
    assert_eq!(size_factor("MB"), Some(1_000_000));
    assert_eq!(size_factor("MI"), Some(1_048_576));
    assert_eq!(size_factor("MIB"), Some(1_048_576));
    assert_eq!(size_factor("G"), Some(1_000_000_000));
    assert_eq!(size_factor("GB"), Some(1_000_000_000));
    assert_eq!(size_factor("GI"), Some(1_073_741_824));
    assert_eq!(size_factor("GIB"), Some(1_073_741_824));
    assert_eq!(size_factor("T"), Some(1_000_000_000_000));
    assert_eq!(size_factor("TB"), Some(1_000_000_000_000));
    assert_eq!(size_factor("TI"), Some(1_099_511_627_776));
    assert_eq!(size_factor("TIB"), Some(1_099_511_627_776));
    assert_eq!(size_factor("k"), None);
    assert_eq!(size_factor("P"), None);
    assert_eq!(size_factor("B"), None);
}

#[test]
fn scaled_sizes() {
    assert_eq!(scale_size(&chars_of("3"), "K"), Some(3_000));
    assert_eq!(scale_size(&chars_of(""), "K"), None);
    assert_eq!(scale_size(&chars_of("3"), "X"), None);
    assert_eq!(scale_size(&chars_of("18446744073709551615"), ""), Some(u64::MAX));
    assert_eq!(scale_size(&chars_of("18446744073709551615"), "K"), None);
}

#[test]
fn human_sizes() {
    assert_eq!(parse_size_human("100M"), Some(100_000_000));
    assert_eq!(parse_size_human("1G"), Some(1_000_000_000));
    assert_eq!(parse_size_human("1g"), Some(1_000_000_000));
    assert_eq!(parse_size_human("  2KiB "), Some(2_048));
    assert_eq!(parse_size_human("5mib"), Some(5 * 1_048_576));
    assert_eq!(parse_size_human("3TB"), Some(3_000_000_000_000));
    assert_eq!(parse_size_human("1Ti"), Some(1_099_511_627_776));
    assert_eq!(parse_size_human("512"), Some(512));
    assert_eq!(parse_size_human("0"), Some(0));
    assert_eq!(parse_size_human(""), None);
    assert_eq!(parse_size_human("M"), None);
    assert_eq!(parse_size_human("12X"), None);
    assert_eq!(parse_size_human("1.5G"), None);
    assert_eq!(parse_size_human("10 M"), None);
    assert_eq!(parse_size_human("-1K"), None);
    assert_eq!(parse_size_human("20000000000G"), None);
    assert_eq!(parse_size_human("18446744073709551615"), Some(u64::MAX));
}

#[test]
fn key_value_lines() {
    assert_eq!(
        parse_key_value("MemTotal:       16314356 kB"),
        Some(("MemTotal".to_string(), "16314356".to_string()))
    );
    assert_eq!(
        parse_key_value("  Name :  value rest "),
        Some(("Name".to_string(), "value".to_string()))
    );
    assert_eq!(parse_key_value("a:b:c"), Some(("a".to_string(), "b:c".to_string())));
    assert_eq!(parse_key_value("no colon here"), None);
    assert_eq!(parse_key_value("key:"), None);
    assert_eq!(parse_key_value("key:   "), None);
    assert_eq!(parse_key_value(":v"), Some(("".to_string(), "v".to_string())));
    assert_eq!(parse_key_value(""), None);
}

#[test]
fn key_value_lines_as_numbers() {
    assert_eq!(
        parse_key_value_as("MemTotal:       16314356 kB"),
        Some(("MemTotal".to_string(), 16314356))
    );
    assert_eq!(parse_key_value_as("SwapFree: 0 kB"), Some(("SwapFree".to_string(), 0)));
    assert_eq!(parse_key_value_as("Name: bash"), None);
    assert_eq!(parse_key_value_as("Value: -3"), None);
    assert_eq!(parse_key_value_as("nothing"), None);
}

#[test]
fn byte_sizes_are_rendered_with_binary_units() {
    assert_eq!(format_bytes(0), "0 B");
    assert_eq!(format_bytes(1023), "1023 B");
    assert_eq!(format_bytes(1024), "1.0 kiB");
    assert_eq!(format_bytes(1536), "1.5 kiB");
    assert_eq!(format_bytes(1_048_576), "1.0 MiB");
    assert_eq!(format_bytes(3 * 1_073_741_824), "3.0 GiB");
}

#[test]
fn durations_are_rendered_by_unit() {
    assert_eq!(format_duration(0, 0), "0s");
    assert_eq!(format_duration(12_240, 0), "3h 24m");
    assert_eq!(format_duration(1, 500_000_000), "1s 500ms");
    assert_eq!(format_duration(86_400 * 2 + 5, 0), "2days 5s");
    assert_eq!(format_duration(0, 32_000_000), "32ms");
}

#[test]
fn integer_helpers() {
    assert_eq!(div_toward_zero(45_999, 1000), 45);
    assert_eq!(div_toward_zero(-45_999, 1000), -45);
    assert_eq!(div_toward_zero(-999, 1000), 0);
    assert_eq!(div_toward_zero(i64::MIN, 1000), i64::MIN / 1000);
    assert_eq!(div_toward_zero(i64::MAX, 1), i64::MAX);
    assert_eq!(to_signed(0), 0);
    assert_eq!(to_signed(5), 5);
    assert_eq!(to_signed(u64::MAX), -1);
    assert_eq!(to_signed(1 << 63), i64::MIN);
    assert_eq!(to_signed((1 << 63) - 1), i64::MAX);
}
