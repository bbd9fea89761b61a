use recipe_client::fraction::{
    format_amount, gcd, nearest_simple_fraction, parse_amount, Fraction,
};

#[test]
fn parse_whole_number() {
    assert_eq!(parse_amount("2"), Some(Fraction { num: 2, den: 1 }));
    assert_eq!(parse_amount("12"), Some(Fraction { num: 12, den: 1 }));
    assert_eq!(parse_amount("0"), Some(Fraction { num: 0, den: 1 }));
    assert_eq!(parse_amount("007"), Some(Fraction { num: 7, den: 1 }));
}

#[test]
fn parse_fraction_form() {
    assert_eq!(parse_amount("3/4"), Some(Fraction { num: 3, den: 4 }));
    assert_eq!(parse_amount("1/2"), Some(Fraction { num: 1, den: 2 }));
    assert_eq!(parse_amount("10/3"), Some(Fraction { num: 10, den: 3 }));
}

#[test]
fn parse_decimal_form() {
    assert_eq!(parse_amount("1.5"), Some(Fraction { num: 15, den: 10 }));
    assert_eq!(parse_amount("0.25"), Some(Fraction { num: 25, den: 100 }));
    assert_eq!(parse_amount("2.0"), Some(Fraction { num: 20, den: 10 }));
}

#[test]
fn parse_rejects_bad_shapes() {
    for bad in ["", "1.", ".5", "/2", "1/", "a", "1 / 2", "1.2.3", "1/2/3", "-1", "1,5"] {
        assert_eq!(parse_amount(bad), None, "expected rejection of {bad:?}");
    }
}

#[test]
fn parse_rejects_zero_denominator() {
    assert_eq!(parse_amount("3/0"), None);
}

#[test]
fn parse_rejects_values_that_do_not_fit() {
    assert_eq!(parse_amount("99999999999999999999"), None);
    assert_eq!(parse_amount("1/99999999999999999999"), None);
    assert_eq!(parse_amount("1.000000000000"), None);
}

#[test]
fn parse_agrees_with_the_amount_pattern() {
    // The same shape the amount input accepts: digits, digits/digits,
    // or digits.digits.  A zero denominator matches the shape but is no
    // amount, so it is left out here and checked above.
    let pattern = regex::Regex::new(r"^(?:(?:\d+)|(?:\d+/\d+)|(?:\d+\.\d+))$").unwrap();
    for text in [
        "1", "12", "1/2", "3/4", "1.5", "0.25", "", "1.", ".5", "/2", "1/", "a", "1 /2",
        "1.2.3", "1/2/3", "x/y", "7", "100.001",
    ] {
        assert_eq!(
            parse_amount(text).is_some(),
            pattern.is_match(text),
            "disagreement on {text:?}"
        );
    }
}

#[test]
fn format_reduces_to_lowest_terms() {
    assert_eq!(format_amount(Fraction { num: 15, den: 10 }), "3/2");
    assert_eq!(format_amount(Fraction { num: 3, den: 4 }), "3/4");
    assert_eq!(format_amount(Fraction { num: 7, den: 1 }), "7");
    assert_eq!(format_amount(Fraction { num: 4, den: 2 }), "2");
    assert_eq!(format_amount(Fraction { num: 0, den: 3 }), "0");
}

#[test]
fn gcd_examples() {
    assert_eq!(gcd(12, 8), 4);
    assert_eq!(gcd(7, 13), 1);
    assert_eq!(gcd(0, 5), 5);
    assert_eq!(gcd(5, 0), 5);
}

#[test]
fn nearest_fraction_finds_the_simplest_denominator() {
    // One and a half is exactly three halves.
    assert_eq!(nearest_simple_fraction(1500, 16), Some(Fraction { num: 3, den: 2 }));
    // A third, given in rounded thousandths, comes back as one third.
    assert_eq!(nearest_simple_fraction(333, 16), Some(Fraction { num: 1, den: 3 }));
    // A whole number keeps denominator one.
    assert_eq!(nearest_simple_fraction(2000, 16), Some(Fraction { num: 2, den: 1 }));
}

#[test]
fn nearest_fraction_gives_up_outside_the_bound() {
    // One seventeenth is not approximated by any denominator up to four.
    assert_eq!(nearest_simple_fraction(59, 4), None);
}

#[test]
fn fraction_new_rejects_zero_denominator() {
    assert_eq!(Fraction::new(1, 0), None);
    assert_eq!(Fraction::new(1, 2), Some(Fraction { num: 1, den: 2 }));
}
