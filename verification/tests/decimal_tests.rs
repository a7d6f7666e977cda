use hype_copy_trade::decimal::Dec;

#[test]
fn parse_plain_integer() {
    assert_eq!(Dec::parse("100"), Some(Dec { units: 100, scale: 0 }));
}

#[test]
fn parse_fraction() {
    assert_eq!(Dec::parse("123.45"), Some(Dec { units: 12345, scale: 2 }));
}

#[test]
fn parse_leading_zero_fraction() {
    assert_eq!(Dec::parse("0.005"), Some(Dec { units: 5, scale: 3 }));
}

#[test]
fn parse_zero() {
    assert_eq!(Dec::parse("0"), Some(Dec { units: 0, scale: 0 }));
}

#[test]
fn parse_rejects_empty() {
    assert_eq!(Dec::parse(""), None);
}

#[test]
fn parse_rejects_letters() {
    assert_eq!(Dec::parse("abc"), None);
    assert_eq!(Dec::parse("12a.5"), None);
}

#[test]
fn parse_rejects_two_dots() {
    assert_eq!(Dec::parse("1.2.3"), None);
}

#[test]
fn parse_rejects_leading_dot() {
    assert_eq!(Dec::parse(".5"), None);
}

#[test]
fn parse_rejects_trailing_dot() {
    assert_eq!(Dec::parse("5."), None);
}

#[test]
fn parse_rejects_sign_without_magnitude() {
    assert_eq!(Dec::parse("-1"), None);
}

#[test]
fn parse_rejects_too_many_units() {
    // twenty-five digits reach the unit-count bound
    assert_eq!(Dec::parse("1000000000000000000000000"), None);
    // twenty-four digits stay below it
    assert_eq!(
        Dec::parse("999999999999999999999999"),
        Some(Dec { units: 999_999_999_999_999_999_999_999, scale: 0 })
    );
}

#[test]
fn parse_rejects_too_many_places() {
    assert_eq!(Dec::parse("0.0000000000001"), None);
    assert_eq!(Dec::parse("0.000000000001"), Some(Dec { units: 1, scale: 12 }));
}

#[test]
fn parse_signed_negative() {
    assert_eq!(Dec::parse_signed("-3.5"), Some((true, Dec { units: 35, scale: 1 })));
}

#[test]
fn parse_signed_positive() {
    assert_eq!(Dec::parse_signed("3.5"), Some((false, Dec { units: 35, scale: 1 })));
}

#[test]
fn parse_signed_rejects_bare_minus() {
    assert_eq!(Dec::parse_signed("-"), None);
}

#[test]
fn format_integer() {
    assert_eq!(Dec { units: 95, scale: 0 }.to_dec_string(), "95");
}

#[test]
fn format_zero() {
    assert_eq!(Dec { units: 0, scale: 0 }.to_dec_string(), "0");
}

#[test]
fn format_fraction() {
    assert_eq!(Dec { units: 12345, scale: 2 }.to_dec_string(), "123.45");
}

#[test]
fn format_pads_leading_fraction_zeros() {
    assert_eq!(Dec { units: 5, scale: 3 }.to_dec_string(), "0.005");
}

#[test]
fn format_keeps_trailing_zeros() {
    assert_eq!(Dec { units: 20000, scale: 4 }.to_dec_string(), "2.0000");
}

#[test]
fn format_parse_round_trip() {
    let values = [
        Dec { units: 0, scale: 0 },
        Dec { units: 7, scale: 0 },
        Dec { units: 12345, scale: 2 },
        Dec { units: 5, scale: 3 },
        Dec { units: 100, scale: 1 },
        Dec { units: 999_999_999_999_999_999_999_999, scale: 12 },
    ];
    for v in values {
        let s = v.to_dec_string();
        assert_eq!(Dec::parse(&s), Some(v));
    }
}
