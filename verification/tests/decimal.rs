use hostfacts::decimal::{decimal_string, signed_decimal_string};

#[test]
fn zero_is_a_single_digit() {
    assert_eq!(decimal_string(0), "0");
}

#[test]
fn single_digits() {
    let expected = ["0", "1", "2", "3", "4", "5", "6", "7", "8", "9"];
    let mut n: u128 = 0;
    while n < 10 {
        assert_eq!(decimal_string(n), expected[n as usize]);
        n += 1;
    }
}

#[test]
fn several_digits_most_significant_first() {
    assert_eq!(decimal_string(10), "10");
    assert_eq!(decimal_string(120), "120");
    assert_eq!(decimal_string(1_048_576), "1048576");
    assert_eq!(decimal_string(9_007_199_254_740_993), "9007199254740993");
}

#[test]
fn largest_number() {
    assert_eq!(decimal_string(u128::MAX), "340282366920938463463374607431768211455");
}

#[test]
fn decimal_agrees_with_the_standard_rendering() {
    let mut n: u128 = 0;
    while n < 5000 {
        assert_eq!(decimal_string(n), format!("{}", n));
        n += 1;
    }
    let mut m: u128 = 1;
    while m < u128::MAX / 7 {
        assert_eq!(decimal_string(m), format!("{}", m));
        assert_eq!(decimal_string(m - 1), format!("{}", m - 1));
        m *= 7;
    }
}

#[test]
fn decimal_reads_back() {
    let mut n: u128 = 1;
    while n < u128::MAX / 3 {
        let parsed: u128 = decimal_string(n).parse().unwrap();
        assert_eq!(parsed, n);
        n *= 3;
    }
}

#[test]
fn signed_numbers() {
    assert_eq!(signed_decimal_string(0), "0");
    assert_eq!(signed_decimal_string(73), "73");
    assert_eq!(signed_decimal_string(-1), "-1");
    assert_eq!(signed_decimal_string(-450), "-450");
    assert_eq!(signed_decimal_string(i64::MAX), "9223372036854775807");
    assert_eq!(signed_decimal_string(i64::MIN), "-9223372036854775808");
}
