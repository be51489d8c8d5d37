use publish::decimal::storage_path;
use publish::decimal::u64_to_decimal;

#[test]
fn decimal_of_zero() {
    assert_eq!(u64_to_decimal(0), "0");
}

#[test]
fn decimal_of_single_digit() {
    assert_eq!(u64_to_decimal(7), "7");
}

#[test]
fn decimal_of_ten() {
    assert_eq!(u64_to_decimal(10), "10");
}

#[test]
fn decimal_of_several_digits() {
    assert_eq!(u64_to_decimal(42), "42");
    assert_eq!(u64_to_decimal(1234567890), "1234567890");
}

#[test]
fn decimal_of_largest_value() {
    assert_eq!(u64_to_decimal(u64::MAX), "18446744073709551615");
}

#[test]
fn storage_path_names_the_identifier() {
    assert_eq!(storage_path(0), "data/0");
    assert_eq!(storage_path(17), "data/17");
}
