use tex_shooter::number::{format_u32, parse_u32, Decimal, ParseError};

#[test]
fn parse_u32_accepts_what_from_str_accepts() {
    for s in ["0", "100", "+42", "0004294967295"] {
        assert_eq!(parse_u32(s), Ok(s.parse::<u32>().unwrap()));
    }
}

#[test]
fn parse_u32_errors() {
    assert_eq!(parse_u32(""), Err(ParseError::Malformed));
    assert_eq!(parse_u32("+"), Err(ParseError::Malformed));
    assert_eq!(parse_u32("12a"), Err(ParseError::Malformed));
    assert_eq!(parse_u32(" 1"), Err(ParseError::Malformed));
    assert_eq!(parse_u32("4294967296"), Err(ParseError::OutOfRange));
}

#[test]
fn format_u32_values() {
    assert_eq!(format_u32(0), "0");
    assert_eq!(format_u32(9), "9");
    assert_eq!(format_u32(10), "10");
    assert_eq!(format_u32(u32::MAX), "4294967295");
}

#[test]
fn decimal_parse_values() {
    assert_eq!(Decimal::parse("2.8"), Ok(Decimal { mantissa: 28, scale: 1 }));
    assert_eq!(Decimal::parse("4.0"), Ok(Decimal { mantissa: 40, scale: 1 }));
    assert_eq!(Decimal::parse("4"), Ok(Decimal { mantissa: 4, scale: 0 }));
    assert_eq!(Decimal::parse(".5"), Ok(Decimal { mantissa: 5, scale: 1 }));
    assert_eq!(Decimal::parse("5."), Ok(Decimal { mantissa: 5, scale: 0 }));
    assert_eq!(Decimal::parse("+1.25"), Ok(Decimal { mantissa: 125, scale: 2 }));
}

#[test]
fn decimal_parse_errors() {
    assert_eq!(Decimal::parse(""), Err(ParseError::Malformed));
    assert_eq!(Decimal::parse("."), Err(ParseError::Malformed));
    assert_eq!(Decimal::parse("1.2.3"), Err(ParseError::Malformed));
    assert_eq!(Decimal::parse("f/2.8"), Err(ParseError::Malformed));
    assert_eq!(Decimal::parse("-2.8"), Err(ParseError::Malformed));
    assert_eq!(Decimal::parse("1.0000000001"), Err(ParseError::OutOfRange));
    assert_eq!(Decimal::parse("4294967296"), Err(ParseError::OutOfRange));
    assert_eq!(Decimal::parse("0.000000001"), Ok(Decimal { mantissa: 1, scale: 9 }));
}
