use coin::price::Price;

#[test]
fn parse_test() {
    assert_eq!(Price::parse_str("0"), Ok(Price(0)));
    assert_eq!(Price::parse_str("0.0"), Ok(Price(0)));
    assert_eq!(Price::parse_str("0.000001"), Ok(Price(1)));
    assert_eq!(Price::parse_str("0.00001"), Ok(Price(10)));
    assert_eq!(Price::parse_str("0.000010"), Ok(Price(10)));
    assert_eq!(Price::parse_str("0.00001000"), Ok(Price(10)));
    assert_eq!(Price::parse_str("1"), Ok(Price(1_000_000)));
    assert_eq!(Price::parse_str("1.0"), Ok(Price(1_000_000)));
    assert_eq!(Price::parse_str("1.000000"), Ok(Price(1_000_000)));
    assert_eq!(Price::parse_str("1.000000000"), Ok(Price(1_000_000)));
    assert_eq!(Price::parse_str("42.00300000"), Ok(Price(42_003_000)));
    assert_eq!(Price::parse_str("42.00300100"), Ok(Price(42_003_001)));
}

#[test]
fn equal_numbers_are_equal_prices() {
    assert_eq!(Price::parse_str("0"), Price::parse_str("0.000000"));
    assert_eq!(Price::parse_str("0.0"), Price::parse_str("0.000000"));
    assert_eq!(Price::parse_str("42.003"), Price::parse_str("42.003000"));
    assert_eq!(Price::parse_str("42.003"), Ok(Price(42_003_000)));
    assert_eq!(Price::parse_str("042.0030000000"), Ok(Price(42_003_000)));
    assert_eq!(Price::parse_str("7."), Price::parse_str("7"));
    assert_eq!(Price::parse_str(".5"), Price::parse_str("0.5"));
    assert_eq!(Price::parse_str(".5"), Ok(Price(500_000)));
}

#[test]
fn no_digits_is_zero() {
    assert_eq!(Price::parse_str(""), Ok(Price(0)));
    assert_eq!(Price::parse_str("."), Ok(Price(0)));
}

#[test]
fn seventh_digit_must_be_zero() {
    assert_eq!(
        Price::parse_str("1.0000001"),
        Err(String::from("unable to parse as price (too many digits) 1.0000001"))
    );
    assert_eq!(
        Price::parse_str("0.12345609"),
        Err(String::from("unable to parse as price (too many digits) 0.12345609"))
    );
    assert_eq!(Price::parse_str("0.1234560"), Ok(Price(123_456)));
}

#[test]
fn other_characters_are_refused() {
    for text in ["-1", "+1", "1e3", "1,5", " 1", "1 ", "abc", "1.2.3", "..", "1..", "٣"] {
        assert_eq!(
            Price::parse_str(text),
            Err(format!("unable to parse as price {}", text)),
            "{}",
            text
        );
    }
}

#[test]
fn shape_is_judged_before_precision() {
    assert_eq!(
        Price::parse_str("1.0000001x"),
        Err(String::from("unable to parse as price 1.0000001x"))
    );
    assert_eq!(
        Price::parse_str("99999999999999999999.12345678"),
        Err(String::from("unable to parse as price (too many digits) 99999999999999999999.12345678"))
    );
}

#[test]
fn largest_price() {
    assert_eq!(Price::parse_str("9223372036854.775807"), Ok(Price(i64::MAX)));
    assert_eq!(Price::parse_str("9223372036854.77580700"), Ok(Price(i64::MAX)));
    assert_eq!(
        Price::parse_str("9223372036854.775808"),
        Err(String::from("unable to parse as price (too large) 9223372036854.775808"))
    );
    assert_eq!(
        Price::parse_str("9223372036855"),
        Err(String::from("unable to parse as price (too large) 9223372036855"))
    );
    assert_eq!(
        Price::parse_str("100000000000000000000000000000000000000.5"),
        Err(String::from(
            "unable to parse as price (too large) 100000000000000000000000000000000000000.5"
        ))
    );
    assert_eq!(Price::parse_str("0009223372036854.5"), Ok(Price(9_223_372_036_854_500_000)));
}

#[test]
fn prices_are_ordered_by_their_count() {
    let low = Price::parse_str("99.999999").unwrap();
    let high = Price::parse_str("100").unwrap();
    assert!(low < high);
    assert!(Price(-1) < Price(0));
    assert_eq!(low.0 + 1, high.0);
}
