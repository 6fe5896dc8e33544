use planets_federation::scalar::{BigDecimal, BigInt, CodecError, WireValue};

fn text(s: &str) -> WireValue {
    WireValue::Text(s.to_string())
}

#[test]
fn decimal_decodes_only_from_string() {
    match BigDecimal::parse(WireValue::Number("12".to_string())) {
        Err(CodecError::ExpectedType(WireValue::Number(n))) => assert_eq!(n, "12"),
        _ => panic!("a number wire value must be refused with the value echoed"),
    }
    match BigDecimal::parse(WireValue::Null) {
        Err(CodecError::ExpectedType(WireValue::Null)) => {}
        _ => panic!("a null wire value must be refused with the value echoed"),
    }
    match BigDecimal::parse(WireValue::Boolean(true)) {
        Err(CodecError::ExpectedType(WireValue::Boolean(true))) => {}
        _ => panic!("a boolean wire value must be refused with the value echoed"),
    }
}

#[test]
fn decimal_rejects_bad_text() {
    match BigDecimal::parse(text("hello")) {
        Err(CodecError::InvalidDecimal(s)) => assert_eq!(s, "hello"),
        _ => panic!("bad decimal text must fail with the text echoed"),
    }
    match BigDecimal::parse(text("")) {
        Err(CodecError::InvalidDecimal(_)) => {}
        _ => panic!("empty text must fail"),
    }
}

#[test]
fn decimal_round_trip_exact() {
    let parsed = match BigDecimal::parse(text("1331.107")) {
        Ok(d) => d,
        Err(_) => panic!("valid decimal text must decode"),
    };
    let encoded = parsed.to_json();
    match &encoded {
        WireValue::Text(t) => assert_eq!(t, "1331.107"),
        _ => panic!("the decimal encodes as a string"),
    }
    let again = match BigDecimal::parse(encoded) {
        Ok(d) => d,
        Err(_) => panic!("the encoding must decode again"),
    };
    assert_eq!(parsed, again);
}

#[test]
fn decimal_round_trip_keeps_trailing_zeros() {
    let parsed = BigDecimal::parse(text("1.50")).ok().unwrap();
    assert_eq!(parsed.as_text(), "1.50");
    let again = BigDecimal::parse(parsed.to_json()).ok().unwrap();
    assert_eq!(parsed, again);
}

#[test]
fn decimal_canonicalizes_exponent_text() {
    // The parser really runs: exponent notation comes back in plain form.
    let parsed = BigDecimal::from_text("2e1").unwrap();
    assert_eq!(parsed.as_text(), "20");
    let again = BigDecimal::parse(parsed.to_json()).ok().unwrap();
    assert_eq!(parsed, again);
}

#[test]
fn decimal_round_trip_negative_small() {
    let parsed = BigDecimal::parse(text("-0.00123")).ok().unwrap();
    let again = BigDecimal::parse(parsed.to_json()).ok().unwrap();
    assert_eq!(parsed, again);
}

#[test]
fn decimal_round_trip_law_function() {
    let d = BigDecimal::from_text("31862140.830686979").unwrap();
    let again = planets_federation::scalar::decimal_round_trip(&d).ok().unwrap();
    assert_eq!(d, again);
}

#[test]
fn bigint_input_parsing_unsupported() {
    assert!(matches!(
        BigInt::parse(text("123")),
        Err(CodecError::UnsupportedInput)
    ));
    assert!(matches!(
        BigInt::parse(WireValue::Number("123".to_string())),
        Err(CodecError::UnsupportedInput)
    ));
}

#[test]
fn bigint_text_grammar() {
    assert!(BigInt::from_text("0").is_some());
    assert!(BigInt::from_text("123").is_some());
    assert!(BigInt::from_text("-123").is_some());
    assert!(BigInt::from_text("").is_none());
    assert!(BigInt::from_text("-").is_none());
    assert!(BigInt::from_text("+5").is_none());
    assert!(BigInt::from_text("007").is_none());
    assert!(BigInt::from_text("-0").is_none());
    assert!(BigInt::from_text("12a").is_none());
}

#[test]
fn bigint_encodes_exactly_below_double_precision() {
    // 2^53 - 1 is the largest odd integer a double holds exactly.
    let n = BigInt::from_text("9007199254740991").unwrap();
    match n.to_json() {
        WireValue::Number(t) => {
            let as_double: f64 = t.parse().unwrap();
            assert_eq!(as_double, 9007199254740991.0_f64);
            assert_eq!(as_double as u64, 9007199254740991_u64);
        }
        _ => panic!("a modest integer encodes as a number"),
    }
}

#[test]
fn bigint_encoding_is_lossy_beyond_double_precision() {
    // 2^53 + 1 cannot survive the documented lossy conversion.
    let n = BigInt::from_text("9007199254740993").unwrap();
    match n.to_json() {
        WireValue::Number(t) => {
            let as_double: f64 = t.parse().unwrap();
            assert_ne!(as_double as u64, 9007199254740993_u64);
        }
        _ => panic!("the integer still encodes as a number"),
    }
}

#[test]
fn bigint_small_value_encodes_as_number() {
    let n = BigInt::from_text("123").unwrap();
    match n.to_json() {
        WireValue::Number(t) => {
            let as_double: f64 = t.parse().unwrap();
            assert_eq!(as_double, 123.0_f64);
        }
        _ => panic!("a small integer encodes as a number"),
    }
}

#[test]
fn bigint_beyond_double_range_encodes_as_null() {
    let mut huge = String::from("1");
    for _ in 0..309 {
        huge.push('0');
    }
    let n = BigInt::from_text(&huge).unwrap();
    assert!(matches!(n.to_json(), WireValue::Null));
}
