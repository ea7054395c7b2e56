use doup::database::postgresql::{pool_settings, CONNECTION_TIMEOUT_SECS, DEFAULT_MAX_POOL_CONNECTIONS};
use doup::utils::{parse_key, parse_key_u32, parse_u32, ParseIntFailure};

fn std_kind(text: &str) -> Result<u32, ParseIntFailure> {
    text.parse::<u32>().map_err(|e| match e.kind() {
        std::num::IntErrorKind::Empty => ParseIntFailure::Empty,
        std::num::IntErrorKind::InvalidDigit => ParseIntFailure::InvalidDigit,
        std::num::IntErrorKind::PosOverflow => ParseIntFailure::TooLarge,
        other => panic!("unexpected kind {other:?}"),
    })
}

#[test]
fn parse_u32_reads_decimal_numbers() {
    assert_eq!(parse_u32("20"), Ok(20));
    assert_eq!(parse_u32("0"), Ok(0));
    assert_eq!(parse_u32("+7"), Ok(7));
    assert_eq!(parse_u32("007"), Ok(7));
    assert_eq!(parse_u32("4294967295"), Ok(u32::MAX));
}

#[test]
fn parse_u32_tells_why_a_text_is_no_number() {
    assert_eq!(parse_u32(""), Err(ParseIntFailure::Empty));
    assert_eq!(parse_u32("+"), Err(ParseIntFailure::InvalidDigit));
    assert_eq!(parse_u32("-1"), Err(ParseIntFailure::InvalidDigit));
    assert_eq!(parse_u32("4294967296"), Err(ParseIntFailure::TooLarge));
    assert_eq!(parse_u32("42949672960x"), Err(ParseIntFailure::TooLarge));
    assert_eq!(parse_u32("4294967x"), Err(ParseIntFailure::InvalidDigit));
}

#[test]
fn parse_u32_agrees_with_str_parse() {
    for text in [
        "", "+", "-", "-1", "-0", " 1", "1 ", "4294967296", "99999999999999999999", "1a", "١", "++1",
        "12", "+12", "65536", "4294967294", "0000000000001", "3000000000", "42949672960x", "4294967x",
        "123456789012x", "9999999",
    ] {
        assert_eq!(parse_u32(text), std_kind(text), "input {text:?}");
    }
}

#[test]
fn parse_key_u32_reports_like_str_parse() {
    assert_eq!(parse_key_u32("MAX", Ok("12".to_string())).unwrap(), 12);
    for text in ["", "x1", "4294967296"] {
        let e = parse_key_u32("MAX", Ok(text.to_string())).unwrap_err();
        let std_error = text.parse::<u32>().unwrap_err();
        assert_eq!(e.status_code, 500);
        assert_eq!(e.http_message, None);
        assert_eq!(
            e.log_message,
            Some(format!("Failed to parse `MAX` as `u32`: {std_error}"))
        );
    }
    let e = parse_key_u32("MAX", Err("environment variable not found".to_string())).unwrap_err();
    assert_eq!(e.log_message.as_deref(), Some("A var error has occurred: environment variable not found"));
}

#[test]
fn pool_settings_use_defaults() {
    let s = pool_settings(None, None);
    assert_eq!(s.max_size, DEFAULT_MAX_POOL_CONNECTIONS);
    assert_eq!(s.max_size, 20);
    assert_eq!(s.min_idle, None);
    assert_eq!(s.connection_timeout_secs, CONNECTION_TIMEOUT_SECS);
    assert_eq!(s.connection_timeout_secs, 10);
}

#[test]
fn pool_settings_read_the_variables() {
    let s = pool_settings(Some("5".to_string()), Some("2".to_string()));
    assert_eq!(s.max_size, 5);
    assert_eq!(s.min_idle, Some(2));
}

#[test]
fn pool_settings_ignore_bad_numbers() {
    let s = pool_settings(Some("many".to_string()), Some("-3".to_string()));
    assert_eq!(s.max_size, 20);
    assert_eq!(s.min_idle, None);
}

#[test]
fn parse_key_passes_values_and_reports_missing_ones() {
    assert_eq!(parse_key(Ok("secret".to_string())).unwrap(), "secret");
    let e = parse_key(Err("environment variable not found".to_string())).unwrap_err();
    assert_eq!(e.status_code, 500);
    assert_eq!(e.log_message.as_deref(), Some("A var error has occurred: environment variable not found"));
}
