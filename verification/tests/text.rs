use apigrok::text::append_decimal;
use apigrok::text::eq_ignore_case;
use apigrok::text::text_eq;

fn decimal_of(n: u64) -> String {
    let mut buffer = String::new();
    append_decimal(&mut buffer, n);
    buffer
}

#[test]
fn decimal_numerals_have_no_leading_zeros() {
    assert_eq!(decimal_of(0), "0");
    assert_eq!(decimal_of(7), "7");
    assert_eq!(decimal_of(10), "10");
    assert_eq!(decimal_of(80), "80");
    assert_eq!(decimal_of(443), "443");
    assert_eq!(decimal_of(8080), "8080");
    assert_eq!(decimal_of(10000), "10000");
    assert_eq!(decimal_of(65535), "65535");
    assert_eq!(decimal_of(65536), "65536");
    assert_eq!(decimal_of(4294967295), "4294967295");
    assert_eq!(decimal_of(18446744073709551615), "18446744073709551615");
}

#[test]
fn decimal_agrees_with_the_standard_library() {
    let mut n: u64 = 0;
    loop {
        assert_eq!(decimal_of(n), n.to_string());
        if n > 65535 - 97 {
            break;
        }
        n += 97;
    }
    let mut n: u64 = 1;
    for _ in 0..63 {
        n *= 2;
        assert_eq!(decimal_of(n), n.to_string());
        assert_eq!(decimal_of(n - 1), (n - 1).to_string());
    }
}

#[test]
fn decimal_is_appended_to_what_is_there() {
    let mut buffer = "example.test:".to_string();
    append_decimal(&mut buffer, 8443);
    assert_eq!(buffer, "example.test:8443");
}

#[test]
fn case_of_ascii_letters_is_ignored() {
    assert!(eq_ignore_case("Host", "host"));
    assert!(eq_ignore_case("USER-AGENT", "user-agent"));
    assert!(eq_ignore_case("", ""));
    assert!(eq_ignore_case("HTTP2-Settings", "http2-settings"));
    assert!(!eq_ignore_case("host", "hosts"));
    assert!(!eq_ignore_case("host", "hos"));
    assert!(!eq_ignore_case("host", "most"));
    assert!(!eq_ignore_case("a-b", "a_b"));
}

#[test]
fn only_ascii_letters_are_folded() {
    assert!(!eq_ignore_case("@", "`"));
    assert!(!eq_ignore_case("[", "{"));
    assert!(!eq_ignore_case("\u{c9}", "\u{e9}"));
    assert!(eq_ignore_case("\u{e9}A", "\u{e9}a"));
    assert!(eq_ignore_case("Z", "z"));
    assert!(eq_ignore_case("A", "a"));
}

#[test]
fn texts_are_equal_character_by_character() {
    assert!(text_eq("https", "https"));
    assert!(text_eq("", ""));
    assert!(!text_eq("https", "http"));
    assert!(!text_eq("https", "httpS"));
    assert!(text_eq("h\u{e9}llo", "h\u{e9}llo"));
}
