//! Decimal parsing tests: exact values, signs, scales, and the strings
//! that must be rejected.

use bittrex::parse::parse_decimal;
use bittrex::types::Decimal;

/// Integer and fractional forms parse to the exact mantissa and scale.
#[test]
fn it_parses_decimals() {
    assert_eq!(parse_decimal("0"), Some(Decimal { mantissa: 0, scale: 0 }));
    assert_eq!(parse_decimal("42"), Some(Decimal { mantissa: 42, scale: 0 }));
    assert_eq!(parse_decimal("0.00000001"), Some(Decimal { mantissa: 1, scale: 8 }));
    assert_eq!(parse_decimal("1.2345"), Some(Decimal { mantissa: 12345, scale: 4 }));
    assert_eq!(parse_decimal("1500.5"), Some(Decimal { mantissa: 15005, scale: 1 }));
    assert_eq!(
        parse_decimal("999999999999999999"),
        Some(Decimal { mantissa: 999999999999999999, scale: 0 })
    );
}

/// A minus sign negates the mantissa and nothing else.
#[test]
fn it_parses_signed_decimals() {
    assert_eq!(parse_decimal("-7"), Some(Decimal { mantissa: -7, scale: 0 }));
    assert_eq!(parse_decimal("-0.25"), Some(Decimal { mantissa: -25, scale: 2 }));
    assert_eq!(parse_decimal("-0"), Some(Decimal { mantissa: 0, scale: 0 }));
}

/// Leading zeroes carry into the mantissa's digit reading.
#[test]
fn it_parses_leading_zeroes() {
    assert_eq!(parse_decimal("007"), Some(Decimal { mantissa: 7, scale: 0 }));
    assert_eq!(parse_decimal("0.50"), Some(Decimal { mantissa: 50, scale: 2 }));
}

/// Strings that are not plain decimal numbers are rejected.
#[test]
fn it_rejects_malformed_decimals() {
    assert_eq!(parse_decimal(""), None);
    assert_eq!(parse_decimal("-"), None);
    assert_eq!(parse_decimal("."), None);
    assert_eq!(parse_decimal(".5"), None);
    assert_eq!(parse_decimal("5."), None);
    assert_eq!(parse_decimal("1.2.3"), None);
    assert_eq!(parse_decimal("1e7"), None);
    assert_eq!(parse_decimal("+5"), None);
    assert_eq!(parse_decimal("--5"), None);
    assert_eq!(parse_decimal("12a4"), None);
    assert_eq!(parse_decimal("1234567890123456789"), None);
}
