use dp_web::text::{find_char, i64_string, parse_i64, str_eq, u64_string};
use dp_web::user::{check_username, generate_token};

#[test]
fn parse_plain_numbers() {
    assert_eq!(parse_i64("0"), Some(0));
    assert_eq!(parse_i64("42"), Some(42));
    assert_eq!(parse_i64("007"), Some(7));
    assert_eq!(parse_i64("+42"), Some(42));
    assert_eq!(parse_i64("-42"), Some(-42));
}

#[test]
fn parse_at_the_limits() {
    assert_eq!(parse_i64("9223372036854775807"), Some(i64::MAX));
    assert_eq!(parse_i64("9223372036854775808"), None);
    assert_eq!(parse_i64("-9223372036854775808"), Some(i64::MIN));
    assert_eq!(parse_i64("-9223372036854775809"), None);
    assert_eq!(parse_i64("99999999999999999999999"), None);
}

#[test]
fn parse_rejects_malformed() {
    assert_eq!(parse_i64(""), None);
    assert_eq!(parse_i64("-"), None);
    assert_eq!(parse_i64("+"), None);
    assert_eq!(parse_i64("4x2"), None);
    assert_eq!(parse_i64(" 42"), None);
    assert_eq!(parse_i64("42 "), None);
    assert_eq!(parse_i64("--42"), None);
}

#[test]
fn render_numbers() {
    assert_eq!(u64_string(0), "0");
    assert_eq!(u64_string(7), "7");
    assert_eq!(u64_string(1234567890), "1234567890");
    assert_eq!(i64_string(0), "0");
    assert_eq!(i64_string(-123), "-123");
    assert_eq!(i64_string(i64::MAX), "9223372036854775807");
    assert_eq!(i64_string(i64::MIN), "-9223372036854775808");
}

#[test]
fn find_first_occurrence() {
    assert_eq!(find_char("a:b:c", ':'), Some(1));
    assert_eq!(find_char("abc", ':'), None);
    assert_eq!(find_char(":", ':'), Some(0));
    assert_eq!(find_char("", ':'), None);
}

#[test]
fn string_equality_by_chars() {
    assert!(str_eq("", ""));
    assert!(str_eq("Bearer ", "Bearer "));
    assert!(!str_eq("Bearer", "Bearer "));
    assert!(!str_eq("abc", "abd"));
}

#[test]
fn username_policy() {
    assert!(check_username("totally.valid.username"));
    assert!(check_username("A"));
    assert!(check_username("9"));
    assert!(check_username("mixed.Case.007"));
    // every character must belong to the alphanumeric-plus-dot class
    assert!(!check_username("not valid username"));
    assert!(!check_username("hyphen-ated"));
    assert!(!check_username(""));
    assert!(!check_username("!!! ???"));
}

#[test]
fn generated_tokens_are_long_random_alphanumerics() {
    let t = generate_token();
    assert_eq!(t.chars().count(), 48);
    assert!(t.chars().all(|c| c.is_ascii_alphanumeric()));
    let u = generate_token();
    assert_eq!(u.chars().count(), 48);
    // two draws of a 62^48 space never collide in practice
    assert_ne!(t, u);
}
