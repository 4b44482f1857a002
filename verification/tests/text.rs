use niumside_poptracker::text::{
    chars_of, digit_of, i64_to_string, parse_digits, parse_i64, parse_u16, parse_u32, parse_u64,
    parse_u8, parse_unsigned, same_text, spells, u64_to_string,
};

#[test]
fn unsigned_numbers_are_read_as_the_standard_parsers_read_them() {
    assert_eq!(parse_u64("0"), Some(0));
    assert_eq!(parse_u64("5429573939285739921"), Some(5_429_573_939_285_739_921));
    assert_eq!(parse_u64("18446744073709551615"), Some(u64::MAX));
    assert_eq!(parse_u64("18446744073709551616"), None);
    assert_eq!(parse_u64("+7"), Some(7));
    assert_eq!(parse_u64("007"), Some(7));
    assert_eq!(parse_u64(""), None);
    assert_eq!(parse_u64("+"), None);
    assert_eq!(parse_u64("-0"), None);
    assert_eq!(parse_u64("1 "), None);
    assert_eq!(parse_u64("１"), None);
    assert_eq!(parse_u64("12a"), None);
    assert_eq!(parse_u32("4294967295"), Some(u32::MAX));
    assert_eq!(parse_u32("4294967296"), None);
    assert_eq!(parse_u16("65535"), Some(u16::MAX));
    assert_eq!(parse_u16("65536"), None);
    assert_eq!(parse_u8("255"), Some(u8::MAX));
    assert_eq!(parse_u8("256"), None);
    assert_eq!(parse_unsigned("41", 40), None);
    assert_eq!(parse_unsigned("40", 40), Some(40));
}

#[test]
fn the_parsers_agree_with_the_standard_ones() {
    let samples = [
        "", "0", "1", "+1", "-1", "+", "-", "00", "255", "256", "65535", "65536", "4294967295",
        "4294967296", "9223372036854775807", "9223372036854775808", "-9223372036854775808",
        "-9223372036854775809", "18446744073709551615", "18446744073709551616", "1e3", "0x10",
        " 1", "1_000", "++1", "+-1",
    ];
    for s in samples {
        assert_eq!(parse_u8(s), s.parse::<u8>().ok());
        assert_eq!(parse_u16(s), s.parse::<u16>().ok());
        assert_eq!(parse_u32(s), s.parse::<u32>().ok());
        assert_eq!(parse_u64(s), s.parse::<u64>().ok());
        assert_eq!(parse_i64(s), s.parse::<i64>().ok());
    }
}

#[test]
fn signed_numbers_are_read_with_their_sign() {
    assert_eq!(parse_i64("1728117291"), Some(1_728_117_291));
    assert_eq!(parse_i64("-42"), Some(-42));
    assert_eq!(parse_i64("+42"), Some(42));
    assert_eq!(parse_i64("-0"), Some(0));
    assert_eq!(parse_i64("9223372036854775807"), Some(i64::MAX));
    assert_eq!(parse_i64("9223372036854775808"), None);
    assert_eq!(parse_i64("-9223372036854775808"), Some(i64::MIN));
    assert_eq!(parse_i64("-9223372036854775809"), None);
    assert_eq!(parse_i64("-"), None);
    assert_eq!(parse_i64("--1"), None);
}

#[test]
fn numbers_are_written_in_base_ten() {
    assert_eq!(u64_to_string(0), "0");
    assert_eq!(u64_to_string(9), "9");
    assert_eq!(u64_to_string(10), "10");
    assert_eq!(u64_to_string(683_285_085_818_191_976), "683285085818191976");
    assert_eq!(u64_to_string(u64::MAX), "18446744073709551615");
    assert_eq!(i64_to_string(0), "0");
    assert_eq!(i64_to_string(-1), "-1");
    assert_eq!(i64_to_string(i64::MIN), "-9223372036854775808");
    assert_eq!(i64_to_string(i64::MAX), "9223372036854775807");
}

#[test]
fn what_is_written_reads_back() {
    for n in [0u64, 1, 9, 10, 99, 100, 65535, 65536, u64::MAX - 1, u64::MAX] {
        assert_eq!(parse_u64(&u64_to_string(n)), Some(n));
    }
    for n in [i64::MIN, -10, -1, 0, 1, 10, i64::MAX] {
        assert_eq!(parse_i64(&i64_to_string(n)), Some(n));
    }
}

#[test]
fn texts_are_compared_character_by_character() {
    assert!(same_text("heartbeat", "heartbeat"));
    assert!(!same_text("heartbeat", "heartbeats"));
    assert!(!same_text("heartbeat", "Heartbeat"));
    assert!(same_text("", ""));
    assert!(spells(&chars_of("søk"), "søk"));
    assert_eq!(chars_of("a1"), vec!['a', '1']);
    assert_eq!(digit_of('7'), Some(7));
    assert_eq!(digit_of('x'), None);
    assert_eq!(parse_digits(&chars_of("x12"), 1, 100), Some(12));
    assert_eq!(parse_digits(&chars_of("x12"), 3, 100), None);
}
