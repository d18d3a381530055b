use meal_tracker::price::parse_price;

fn chars(s: &str) -> Vec<char> {
    s.chars().collect()
}

#[test]
fn whole_and_fractional_prices() {
    assert_eq!(parse_price(&chars("4.99")), Some(499));
    assert_eq!(parse_price(&chars("250")), Some(25000));
    assert_eq!(parse_price(&chars("2.5")), Some(250));
    assert_eq!(parse_price(&chars("0")), Some(0));
    assert_eq!(parse_price(&chars("0.07")), Some(7));
}

#[test]
fn extra_fraction_digits_are_truncated() {
    assert_eq!(parse_price(&chars("0.999")), Some(99));
    assert_eq!(parse_price(&chars("15.129")), Some(1512));
}

#[test]
fn bare_point_forms() {
    assert_eq!(parse_price(&chars(".5")), Some(50));
    assert_eq!(parse_price(&chars("5.")), Some(500));
}

#[test]
fn malformed_prices_are_rejected() {
    assert_eq!(parse_price(&chars("")), None);
    assert_eq!(parse_price(&chars(".")), None);
    assert_eq!(parse_price(&chars("abc")), None);
    assert_eq!(parse_price(&chars("1.2.3")), None);
    assert_eq!(parse_price(&chars("-4")), None);
    assert_eq!(parse_price(&chars("4,99")), None);
    assert_eq!(parse_price(&chars("1 2")), None);
}

#[test]
fn oversized_prices_are_rejected() {
    assert_eq!(parse_price(&chars("99999999999999999999")), None);
    // The largest cent value that still fits.
    assert_eq!(parse_price(&chars("92233720368547758.07")), Some(i64::MAX));
    assert_eq!(parse_price(&chars("92233720368547758.08")), None);
}

#[test]
fn leading_zeros_are_harmless() {
    assert_eq!(parse_price(&chars("007.50")), Some(750));
    assert_eq!(parse_price(&chars("000")), Some(0));
}
