use zero2prod::text::{str_eq, to_decimal, to_decimal_wide};

#[test]
fn decimal_of_single_digits() {
    assert_eq!(to_decimal(0), "0");
    assert_eq!(to_decimal(7), "7");
    assert_eq!(to_decimal(9), "9");
}

#[test]
fn decimal_of_longer_numbers() {
    assert_eq!(to_decimal(10), "10");
    assert_eq!(to_decimal(5432), "5432");
    assert_eq!(to_decimal(65535), "65535");
    assert_eq!(to_decimal(1_000_000), "1000000");
    assert_eq!(to_decimal(u64::MAX), "18446744073709551615");
}

#[test]
fn decimal_agrees_with_display() {
    for n in [0u64, 1, 9, 10, 11, 99, 100, 101, 8080, 12345, 99999] {
        assert_eq!(to_decimal(n), format!("{}", n));
    }
}

#[test]
fn equal_strings_are_equal() {
    assert!(str_eq("", ""));
    assert!(str_eq("/auth/refresh", "/auth/refresh"));
    assert!(str_eq("é", "é"));
}

#[test]
fn different_strings_are_not_equal() {
    assert!(!str_eq("/auth/refresh", "/auth/refresh?x=1"));
    assert!(!str_eq("local", "Local"));
    assert!(!str_eq("", " "));
}

#[test]
fn decimal_of_wide_numbers() {
    assert_eq!(to_decimal_wide(0), "0");
    assert_eq!(to_decimal_wide(18446744073709551616), "18446744073709551616");
    assert_eq!(to_decimal_wide(u128::MAX), "340282366920938463463374607431768211455");
}
