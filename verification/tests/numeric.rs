use bybit_rs::decimal::{parse_decimal, parse_u64_str, u64_to_string, Decimal};

#[test]
fn parse_decimal_plain() {
    assert_eq!(parse_decimal("54380.00"), Some(Decimal { mantissa: 5438000, scale: 2 }));
    assert_eq!(parse_decimal("58617"), Some(Decimal { mantissa: 58617, scale: 0 }));
    assert_eq!(parse_decimal("0.005"), Some(Decimal { mantissa: 5, scale: 3 }));
    assert_eq!(parse_decimal("-1.5"), Some(Decimal { mantissa: -15, scale: 1 }));
    assert_eq!(parse_decimal("-0.25"), Some(Decimal { mantissa: -25, scale: 2 }));
    assert_eq!(parse_decimal("0"), Some(Decimal { mantissa: 0, scale: 0 }));
}

#[test]
fn parse_decimal_rejects_malformed() {
    assert_eq!(parse_decimal(""), None);
    assert_eq!(parse_decimal("-"), None);
    assert_eq!(parse_decimal("."), None);
    assert_eq!(parse_decimal("1."), None);
    assert_eq!(parse_decimal(".5"), None);
    assert_eq!(parse_decimal("1.2.3"), None);
    assert_eq!(parse_decimal("12a"), None);
    assert_eq!(parse_decimal("a12"), None);
    assert_eq!(parse_decimal("1,5"), None);
    assert_eq!(parse_decimal(" 1"), None);
}

#[test]
fn parse_decimal_rejects_overflow() {
    // One digit beyond the mantissa's range.
    assert_eq!(parse_decimal("92233720368547758080"), None);
    assert_eq!(parse_decimal("9223372036854775808"), None);
    assert_eq!(parse_decimal("9223372036854775807"), Some(Decimal {
        mantissa: 9223372036854775807,
        scale: 0,
    }));
    assert_eq!(parse_decimal("922337203685477580.8"), None);
}

#[test]
fn parse_u64_cases() {
    assert_eq!(parse_u64_str("0"), Some(0));
    assert_eq!(parse_u64_str("100"), Some(100));
    assert_eq!(parse_u64_str("18446744073709551615"), Some(u64::MAX));
    assert_eq!(parse_u64_str("18446744073709551616"), None);
    assert_eq!(parse_u64_str(""), None);
    assert_eq!(parse_u64_str("1.5"), None);
    assert_eq!(parse_u64_str("-1"), None);
}

#[test]
fn u64_rendering() {
    assert_eq!(u64_to_string(0), "0");
    assert_eq!(u64_to_string(7), "7");
    assert_eq!(u64_to_string(1617706010000), "1617706010000");
    assert_eq!(u64_to_string(u64::MAX), "18446744073709551615");
}

#[test]
fn decimal_rendering() {
    assert_eq!(Decimal { mantissa: 543805, scale: 1 }.to_string(), "54380.5");
    assert_eq!(Decimal { mantissa: 58617, scale: 0 }.to_string(), "58617");
    assert_eq!(Decimal { mantissa: 5, scale: 3 }.to_string(), "0.005");
    assert_eq!(Decimal { mantissa: -15, scale: 1 }.to_string(), "-1.5");
    assert_eq!(Decimal { mantissa: 0, scale: 0 }.to_string(), "0");
    assert_eq!(Decimal { mantissa: 10, scale: 2 }.to_string(), "0.10");
    assert_eq!(Decimal { mantissa: 1234, scale: 4 }.to_string(), "0.1234");
}

// Rendering a parsed literal gives the literal back (no normalization is
// applied either way).
#[test]
fn parse_then_render_round_trip() {
    for s in ["54380.50", "0.005", "-1.5", "58617", "0.10"] {
        assert_eq!(parse_decimal(s).unwrap().to_string(), s);
    }
}
