use rust_scaper::status::StockStatus;
use rust_scaper::text::{decimal_string, str_equal};

#[test]
fn status_labels() {
    assert_eq!(StockStatus::Unknown.to_string(), "unknown");
    assert_eq!(StockStatus::InStock.to_string(), "in stock");
    assert_eq!(StockStatus::OutOfStock.to_string(), "out of stock");
}

#[test]
fn status_is_unknown_by_default() {
    assert_eq!(StockStatus::default(), StockStatus::Unknown);
}

#[test]
fn equal_strings_are_equal() {
    assert!(str_equal("", ""));
    assert!(str_equal("in stock", "in stock"));
    assert!(str_equal("på lager", "på lager"));
}

#[test]
fn different_strings_are_different() {
    assert!(!str_equal("in stock", "in stocK"));
    assert!(!str_equal("in stock", "in stoc"));
    assert!(!str_equal("in stoc", "in stock"));
    assert!(!str_equal("", "a"));
    assert!(!str_equal("pa lager", "på lager"));
    assert!(!str_equal("xn stock", "in stock"));
}

#[test]
fn decimal_of_single_digits() {
    let digits = ["0", "1", "2", "3", "4", "5", "6", "7", "8", "9"];
    for (n, digit) in digits.iter().enumerate() {
        assert_eq!(decimal_string(n), *digit);
    }
}

#[test]
fn decimal_of_larger_numbers() {
    assert_eq!(decimal_string(10), "10");
    assert_eq!(decimal_string(42), "42");
    assert_eq!(decimal_string(100), "100");
    assert_eq!(decimal_string(1009), "1009");
    assert_eq!(decimal_string(1234567890), "1234567890");
    assert_eq!(decimal_string(usize::MAX), format!("{}", usize::MAX));
}
