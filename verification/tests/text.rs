use noc::text::{eq_ignore_ascii_case, hex2, hex8, i64_to_string, u128_to_string, parse_u16, replace_all, trim, trim_end_char, u64_to_string};
use noc::version::suite_version;

#[test]
fn number_parsing_and_printing() {
    assert_eq!(parse_u16("3389"), Some(3389));
    assert_eq!(parse_u16("+80"), Some(80));
    assert_eq!(parse_u16("0065535"), Some(65535));
    assert_eq!(parse_u16("65536"), None);
    assert_eq!(parse_u16(""), None);
    assert_eq!(parse_u16("+"), None);
    assert_eq!(parse_u16("-1"), None);
    assert_eq!(parse_u16("12a"), None);
    assert_eq!(parse_u16("999999999999999999999"), None);
    assert_eq!(u64_to_string(0), "0");
    assert_eq!(u64_to_string(18446744073709551615), "18446744073709551615");
    assert_eq!(i64_to_string(i64::MIN), "-9223372036854775808");
    assert_eq!(hex8(0xdeadbeef), "deadbeef");
    assert_eq!(hex8(5), "00000005");
    assert_eq!(hex2(0x0f), "0f");
    assert_eq!(hex2(0xe9), "e9");
    assert_eq!(u128_to_string(u128::MAX), "340282366920938463463374607431768211455");
    assert_eq!(u128_to_string(7), "7");
}

#[test]
fn string_helpers() {
    assert_eq!(trim("  a b \n"), "a b");
    assert_eq!(trim_end_char("http://x///", '/'), "http://x");
    assert_eq!(replace_all("{u} and {u}", "{u}", "me"), "me and me");
    assert!(eq_ignore_ascii_case("Linux-A", "linux-a"));
    assert!(!eq_ignore_ascii_case("É", "é"));
    assert_eq!(suite_version(" v1.2.3\n"), "1.2.3");
    assert_eq!(suite_version("vv0.2.0-rc.1"), "0.2.0-rc.1");
}
