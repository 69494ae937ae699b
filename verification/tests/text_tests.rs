use matrix_bridge_zulip::text::{i64_to_string, parse_i64, starts_with, str_eq, trim_end, trim_start};

#[test]
fn decimal_notation_of_integers() {
    assert_eq!(i64_to_string(0), "0");
    assert_eq!(i64_to_string(7), "7");
    assert_eq!(i64_to_string(42), "42");
    assert_eq!(i64_to_string(-15), "-15");
    assert_eq!(i64_to_string(i64::MAX), "9223372036854775807");
    assert_eq!(i64_to_string(i64::MIN), "-9223372036854775808");
}

#[test]
fn parse_reads_what_std_reads() {
    let samples = [
        "0", "7", "-7", "+7", "007", "", "-", "+", "12a", " 12", "12 ", "9223372036854775807",
        "9223372036854775808", "-9223372036854775808", "-9223372036854775809", "--1", "1-",
        "99999999999999999999999", "0000000000000000000000000000001",
    ];
    for s in samples {
        assert_eq!(parse_i64(s), s.parse::<i64>().ok(), "input {:?}", s);
    }
}

#[test]
fn parse_inverts_decimal_notation() {
    for n in [0i64, 1, -1, 10, 99, 100, -100, 1234567890, i64::MAX, i64::MIN] {
        assert_eq!(parse_i64(&i64_to_string(n)), Some(n));
    }
}

#[test]
fn prefixes_and_trimming() {
    assert!(starts_with("@_zulip_7:h", "@_zulip_"));
    assert!(!starts_with("@_zuli", "@_zulip_"));
    assert!(starts_with("abc", ""));
    assert!(str_eq("abc", "abc"));
    assert!(!str_eq("abc", "abd"));
    assert_eq!(trim_end("https://chat.example///", '/'), "https://chat.example");
    assert_eq!(trim_end("///", '/'), "");
    assert_eq!(trim_start("//users/me", '/'), "users/me");
    assert_eq!(trim_start("users/", '/'), "users/");
}
