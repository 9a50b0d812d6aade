use thumbnail_creator::download::{str_eq, starts_with, validate_url};
use thumbnail_creator::text::decimal_string;

#[test]
fn decimal_of_numbers() {
    assert_eq!(decimal_string(0), "0");
    assert_eq!(decimal_string(7), "7");
    assert_eq!(decimal_string(70), "70");
    assert_eq!(decimal_string(1000000), "1000000");
    assert_eq!(decimal_string(u64::MAX), "18446744073709551615");
}

#[test]
fn prefix_and_equality() {
    assert!(starts_with("image/png", "image/"));
    assert!(!starts_with("imag", "image/"));
    assert!(!starts_with("text/image/", "image/"));
    assert!(str_eq("http", "http"));
    assert!(!str_eq("http", "https"));
}

#[test]
fn url_schemes() {
    assert!(validate_url("http://example.com/a.png").is_ok());
    assert!(validate_url("https://example.com/a.png").is_ok());
    assert!(validate_url("file:///tmp/a.png").is_err());
    assert!(validate_url("mailto:someone@example.com").is_err());
    assert!(validate_url("").is_err());
}
