use cheer_up::error::Error;
use cheer_up::locale::{Locale, UserLocale};
use cheer_up::text::{i64_to_string, parse_i64, u64_to_string};

#[test]
fn integers_are_written_in_decimal() {
    assert_eq!(i64_to_string(0), "0");
    assert_eq!(i64_to_string(7), "7");
    assert_eq!(i64_to_string(10), "10");
    assert_eq!(i64_to_string(-1), "-1");
    assert_eq!(i64_to_string(1989), "1989");
    assert_eq!(i64_to_string(i64::MAX), "9223372036854775807");
    assert_eq!(i64_to_string(i64::MIN), "-9223372036854775808");
    assert_eq!(u64_to_string(u64::MAX), "18446744073709551615");
    assert_eq!(u64_to_string(0), "0");
}

#[test]
fn decimal_numbers_are_read() {
    assert_eq!(parse_i64("0"), Some(0));
    assert_eq!(parse_i64("42"), Some(42));
    assert_eq!(parse_i64("+42"), Some(42));
    assert_eq!(parse_i64("-42"), Some(-42));
    assert_eq!(parse_i64("-0"), Some(0));
    assert_eq!(parse_i64("007"), Some(7));
    assert_eq!(parse_i64("9223372036854775807"), Some(i64::MAX));
    assert_eq!(parse_i64("-9223372036854775808"), Some(i64::MIN));
    assert_eq!(parse_i64("00000000000000000000000000000012"), Some(12));
}

#[test]
fn what_is_no_number_is_refused() {
    assert_eq!(parse_i64(""), None);
    assert_eq!(parse_i64("-"), None);
    assert_eq!(parse_i64("+"), None);
    assert_eq!(parse_i64("none"), None);
    assert_eq!(parse_i64("12a"), None);
    assert_eq!(parse_i64(" 12"), None);
    assert_eq!(parse_i64("1-2"), None);
    assert_eq!(parse_i64("--1"), None);
    assert_eq!(parse_i64("٣"), None);
    assert_eq!(parse_i64("9223372036854775808"), None);
    assert_eq!(parse_i64("-9223372036854775809"), None);
    assert_eq!(parse_i64("99999999999999999999999999"), None);
}

#[test]
fn parsing_agrees_with_std() {
    for text in ["5", "-5", "+5", "", "x", "18446744073709551616", "000", "-000123"] {
        assert_eq!(parse_i64(text), text.parse::<i64>().ok());
    }
    for n in [0i64, 1, -1, 99, -100, i64::MAX, i64::MIN] {
        assert_eq!(i64_to_string(n), n.to_string());
        assert_eq!(parse_i64(&i64_to_string(n)), Some(n));
    }
}

#[test]
fn locale_of_each_code() {
    assert_eq!(Locale::from_str("en"), Locale::EN);
    assert_eq!(Locale::from_str("es"), Locale::ES);
    assert_eq!(Locale::from_str("it"), Locale::IT);
    assert_eq!(Locale::from_str("ua"), Locale::UA);
}

#[test]
fn unknown_code_selects_english() {
    assert_eq!(Locale::from_str(""), Locale::EN);
    assert_eq!(Locale::from_str("fr"), Locale::EN);
    assert_eq!(Locale::from_str("EN"), Locale::EN);
    assert_eq!(Locale::from_str("IT"), Locale::EN);
    assert_eq!(Locale::from_str("it "), Locale::EN);
}

#[test]
fn locale_code_round_trip() {
    for locale in [Locale::EN, Locale::ES, Locale::IT, Locale::UA] {
        assert_eq!(Locale::from_str(&locale.to_string()), locale);
        assert_eq!(Locale::from_str(locale.as_str()), locale);
    }
    assert_eq!(Locale::UA.to_string(), "ua");
}

#[test]
fn stored_language_selects_the_locale() {
    let stored = |language: &str| UserLocale { language: language.to_string() };
    assert_eq!(stored("es").locale(), Locale::ES);
    assert_eq!(stored("ua").locale(), Locale::UA);
    assert_eq!(stored("de").locale(), Locale::EN);
    assert_eq!(stored("de").to_string(), "en");
    assert_eq!(stored("it").to_string(), "it");
}

#[test]
fn errors_map_to_status_codes() {
    assert_eq!(Error::NotFound.status_code(), 404);
    assert_eq!(Error::Sqlx("RowNotFound".to_string()).status_code(), 500);
    assert_eq!(Error::Anyhow("boom".to_string()).status_code(), 500);
}

#[test]
fn errors_have_bodies() {
    assert_eq!(Error::NotFound.body(), "API error");
    assert_eq!(Error::Sqlx("RowNotFound".to_string()).body(), "an error occurred with the database");
    assert_eq!(Error::Anyhow("boom".to_string()).body(), "internal server error");
    assert_eq!(
        Error::Sqlx("locked".to_string()).into_response(),
        (500, "an error occurred with the database".to_string())
    );
    assert_eq!(
        Error::Sqlx("locked".to_string()).into_response(),
        Error::Sqlx("disk full".to_string()).into_response()
    );
    assert_eq!(
        Error::Anyhow("a".to_string()).into_response(),
        Error::Anyhow("b".to_string()).into_response()
    );
    assert_eq!(Error::NotFound.into_response(), (404, "API error".to_string()));
}
