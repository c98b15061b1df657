use cpts::units::{parse, parse_amount, signed_units, UnitsError};

#[test]
fn parse_positive_is_buy() {
    assert_eq!(parse("1000000"), Ok((true, 1000000)));
    assert_eq!(parse("+7"), Ok((true, 7)));
}

#[test]
fn parse_negative_is_sell() {
    assert_eq!(parse("-5"), Ok((false, 5)));
    assert_eq!(parse("-9223372036854775808"), Ok((false, 9223372036854775808)));
    assert_eq!(parse("9223372036854775807"), Ok((true, 9223372036854775807)));
}

#[test]
fn parse_zero_is_refused() {
    assert_eq!(parse("0"), Err(UnitsError::Zero));
    assert_eq!(parse("-0"), Err(UnitsError::Zero));
}

#[test]
fn parse_non_integer_is_refused() {
    assert_eq!(parse(""), Err(UnitsError::NotAnInteger));
    assert_eq!(parse("-"), Err(UnitsError::NotAnInteger));
    assert_eq!(parse("1.5"), Err(UnitsError::NotAnInteger));
    assert_eq!(parse("abc"), Err(UnitsError::NotAnInteger));
    assert_eq!(parse("9223372036854775808"), Err(UnitsError::NotAnInteger));
}

#[test]
fn signed_units_direction_and_magnitude() {
    assert_eq!(signed_units(3), Ok((true, 3)));
    assert_eq!(signed_units(-3), Ok((false, 3)));
    assert_eq!(signed_units(i64::MIN), Ok((false, 1u64 << 63)));
    assert_eq!(signed_units(0), Err(UnitsError::Zero));
}

#[test]
fn parse_amount_reads_balances() {
    assert_eq!(parse_amount("42"), Some(42));
    assert_eq!(parse_amount("0"), Some(0));
    assert_eq!(parse_amount("18446744073709551615"), Some(u64::MAX));
    assert_eq!(parse_amount("-1"), None);
    assert_eq!(parse_amount("18446744073709551616"), None);
    assert_eq!(parse_amount("x"), None);
}

#[test]
fn units_error_messages() {
    assert_eq!(UnitsError::Zero.message(), "Units can't be zero.");
}
