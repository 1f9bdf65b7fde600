use athena_led::text::{concat2, split_first, str_ends_with, str_eq, str_has_char, trim};

#[test]
fn trim_strips_unicode_whitespace() {
    assert_eq!(trim("  a b \t\n"), "a b");
    assert_eq!(trim("\u{3000}x\u{a0}"), "x");
    assert_eq!(trim("   "), "");
    assert_eq!(trim(""), "");
}

#[test]
fn split_first_cases() {
    assert_eq!(split_first("a b c", ' '), ("a", Some("b c")));
    assert_eq!(split_first("abc", ' '), ("abc", None));
    assert_eq!(split_first(" x", ' '), ("", Some("x")));
    assert_eq!(split_first("22:30", ':'), ("22", Some("30")));
}

#[test]
fn small_string_helpers() {
    assert!(str_eq("ping", "ping"));
    assert!(!str_eq("ping", "pong"));
    assert!(str_ends_with("pet_x.bin", ".bin"));
    assert!(!str_ends_with("bin", ".bin"));
    assert!(str_has_char("text:hi", ':'));
    assert!(!str_has_char("cpu", ':'));
    assert_eq!(concat2("module:", "cpu"), "module:cpu");
}
