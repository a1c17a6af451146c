use task_pipeline::text::{push_decimal, to_decimal};

#[test]
fn decimal_of_zero_is_a_single_digit() {
    assert_eq!(to_decimal(0), "0");
}

#[test]
fn decimal_of_single_digits() {
    for d in 0u128..10 {
        assert_eq!(to_decimal(d), format!("{}", d));
    }
}

#[test]
fn decimal_has_no_leading_zeros() {
    assert_eq!(to_decimal(10), "10");
    assert_eq!(to_decimal(100), "100");
    assert_eq!(to_decimal(1000), "1000");
    assert_eq!(to_decimal(907), "907");
}

#[test]
fn decimal_of_the_largest_values() {
    assert_eq!(to_decimal(u32::MAX as u128), "4294967295");
    assert_eq!(to_decimal(u64::MAX as u128), "18446744073709551615");
    assert_eq!(to_decimal(u128::MAX), "340282366920938463463374607431768211455");
}

#[test]
fn decimal_agrees_with_the_standard_rendering() {
    let mut n: u128 = 1;
    for _ in 0..38 {
        assert_eq!(to_decimal(n), format!("{}", n));
        assert_eq!(to_decimal(n - 1), format!("{}", n - 1));
        n *= 10;
    }
}

#[test]
fn push_decimal_appends_to_what_is_there() {
    let mut s = String::from("id=");
    push_decimal(&mut s, 42);
    assert_eq!(s, "id=42");
    push_decimal(&mut s, 0);
    assert_eq!(s, "id=420");
}
