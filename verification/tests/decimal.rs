use steam_api::decimal::{format_decimal, parse_decimal, push_decimal};
use steam_api::SteamIdError;

#[test]
fn format_decimal_writes_plain_digits() {
    assert_eq!(format_decimal(0), "0");
    assert_eq!(format_decimal(7), "7");
    assert_eq!(format_decimal(10), "10");
    assert_eq!(format_decimal(22222), "22222");
    assert_eq!(format_decimal(76561197960287930), "76561197960287930");
    assert_eq!(format_decimal(u64::MAX), "18446744073709551615");
}

#[test]
fn push_decimal_appends() {
    let mut out = String::from("id=");
    push_decimal(&mut out, 1050);
    assert_eq!(out, "id=1050");
    push_decimal(&mut out, 0);
    assert_eq!(out, "id=10500");
}

#[test]
fn parse_decimal_reads_digits() {
    assert_eq!(parse_decimal("0"), Ok(0));
    assert_eq!(parse_decimal("000"), Ok(0));
    assert_eq!(parse_decimal("0042"), Ok(42));
    assert_eq!(parse_decimal("76561197960287930"), Ok(76561197960287930));
    assert_eq!(parse_decimal("18446744073709551615"), Ok(u64::MAX));
    assert_eq!(parse_decimal("00018446744073709551615"), Ok(u64::MAX));
}

#[test]
fn parse_decimal_rejects_what_is_no_number() {
    assert_eq!(parse_decimal(""), Err(SteamIdError::ParseError));
    assert_eq!(parse_decimal("+1"), Err(SteamIdError::ParseError));
    assert_eq!(parse_decimal("-1"), Err(SteamIdError::ParseError));
    assert_eq!(parse_decimal("12a"), Err(SteamIdError::ParseError));
    assert_eq!(parse_decimal(" 12"), Err(SteamIdError::ParseError));
    assert_eq!(parse_decimal("12 "), Err(SteamIdError::ParseError));
    assert_eq!(parse_decimal("1_000"), Err(SteamIdError::ParseError));
    assert_eq!(parse_decimal("１２"), Err(SteamIdError::ParseError));
    assert_eq!(parse_decimal("12é"), Err(SteamIdError::ParseError));
}

#[test]
fn parse_decimal_reports_overflow() {
    assert_eq!(parse_decimal("18446744073709551616"), Err(SteamIdError::Overflow));
    assert_eq!(parse_decimal("99999999999999999999"), Err(SteamIdError::Overflow));
    assert_eq!(
        parse_decimal("100000000000000000000000000000000000000000000000000"),
        Err(SteamIdError::Overflow)
    );
}

#[test]
fn parse_decimal_prefers_the_syntax_error() {
    assert_eq!(parse_decimal("99999999999999999999x"), Err(SteamIdError::ParseError));
}

#[test]
fn parse_decimal_undoes_format_decimal() {
    for n in [0u64, 1, 9, 10, 99, 100, 4294967295, 4294967296, 76561197960287930, u64::MAX] {
        assert_eq!(parse_decimal(&format_decimal(n)), Ok(n));
    }
}
