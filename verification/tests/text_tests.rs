use lcu_helper::text::{
    centi_to_string, ends_with, parse_dec, starts_with, str_eq, trim, trim_quotes, u64_to_string,
};

#[test]
fn decimal_rendering_matches_the_standard_formatter() {
    assert_eq!(u64_to_string(0), "0");
    assert_eq!(u64_to_string(7), "7");
    assert_eq!(u64_to_string(52341), "52341");
    assert_eq!(u64_to_string(u64::MAX), format!("{}", u64::MAX));
}

#[test]
fn centi_rendering_has_two_decimals() {
    assert_eq!(centi_to_string(0), "0.00");
    assert_eq!(centi_to_string(257), "2.57");
    assert_eq!(centi_to_string(43636), "436.36");
    assert_eq!(centi_to_string(100), "1.00");
    assert_eq!(centi_to_string(5), "0.05");
}

#[test]
fn digit_parsing_is_exact_and_bounded() {
    assert_eq!(parse_dec("0", u64::MAX), Some(0));
    assert_eq!(parse_dec("52341", 65535), Some(52341));
    assert_eq!(parse_dec("65536", 65535), None);
    assert_eq!(parse_dec("", u64::MAX), None);
    assert_eq!(parse_dec("12a", u64::MAX), None);
    assert_eq!(parse_dec("-3", u64::MAX), None);
    assert_eq!(parse_dec("0052341", 65535), Some(52341));
    assert_eq!(parse_dec("18446744073709551615", u64::MAX), Some(u64::MAX));
    assert_eq!(parse_dec("18446744073709551616", u64::MAX), None);
}

#[test]
fn trimming_and_affixes_behave_like_std() {
    assert_eq!(trim("  \r\n x y \t "), "x y");
    assert_eq!(trim(""), "");
    assert_eq!(trim("   "), "");
    assert_eq!(trim_quotes("\"--app-port=1\""), "--app-port=1");
    assert_eq!(trim_quotes("no quotes"), "no quotes");
    assert!(starts_with("--app-port=5", "--app-port="));
    assert!(!starts_with("-app-port=5", "--app-port="));
    assert!(ends_with("x.pvp.net", ".pvp.net"));
    assert!(!ends_with("net", ".pvp.net"));
    assert!(str_eq("abc", "abc"));
    assert!(!str_eq("abc", "abd"));
}
