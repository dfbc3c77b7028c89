use workout_bot::text::parse_u32;
use workout_bot::text::text_is;
use workout_bot::text::u32_to_string;
use workout_bot::text::u64_to_string;

#[test]
fn renders_zero() {
    assert_eq!(u64_to_string(0), "0");
    assert_eq!(u32_to_string(0), "0");
}

#[test]
fn renders_plain_numbers() {
    assert_eq!(u64_to_string(7), "7");
    assert_eq!(u64_to_string(10), "10");
    assert_eq!(u64_to_string(905), "905");
    assert_eq!(u32_to_string(123456789), "123456789");
}

#[test]
fn renders_extremes() {
    assert_eq!(u32_to_string(u32::MAX), "4294967295");
    assert_eq!(u64_to_string(u64::MAX), "18446744073709551615");
}

#[test]
fn parses_plain_numbers() {
    assert_eq!(parse_u32("0"), Some(0));
    assert_eq!(parse_u32("10"), Some(10));
    assert_eq!(parse_u32("007"), Some(7));
    assert_eq!(parse_u32("4294967295"), Some(u32::MAX));
}

#[test]
fn parses_leading_plus_as_u32_does() {
    assert_eq!(parse_u32("+10"), "+10".parse::<u32>().ok());
    assert_eq!(parse_u32("+0"), Some(0));
    assert_eq!(parse_u32("+"), None);
}

#[test]
fn rejects_what_u32_rejects() {
    for s in ["", "-5", "-0", "abc", "10 ", " 10", "1.5", "ten", "10km", "++1"] {
        assert_eq!(parse_u32(s), s.parse::<u32>().ok(), "input: {:?}", s);
        assert_eq!(parse_u32(s), None, "input: {:?}", s);
    }
}

#[test]
fn rejects_overflow() {
    assert_eq!(parse_u32("4294967296"), None);
    assert_eq!(parse_u32("99999999999999999999"), None);
}

#[test]
fn agrees_with_u32_parse_on_samples() {
    for s in ["0", "42", "+42", "4294967295", "4294967296", "0042"] {
        assert_eq!(parse_u32(s), s.parse::<u32>().ok(), "input: {:?}", s);
    }
}

#[test]
fn text_is_compares_whole_strings() {
    assert!(text_is("/HELP", "/HELP"));
    assert!(!text_is("/HELP ", "/HELP"));
    assert!(!text_is("/help", "/HELP"));
    assert!(!text_is("", "/HELP"));
    assert!(text_is("", ""));
}
