use diet_store::text::{decimal, same_text};

#[test]
fn decimal_writes_zero_as_one_digit() {
    assert_eq!(decimal(0), "0");
}

#[test]
fn decimal_writes_single_digits() {
    assert_eq!(decimal(1), "1");
    assert_eq!(decimal(7), "7");
    assert_eq!(decimal(9), "9");
}

#[test]
fn decimal_writes_several_digits_most_significant_first() {
    assert_eq!(decimal(10), "10");
    assert_eq!(decimal(42), "42");
    assert_eq!(decimal(500), "500");
    assert_eq!(decimal(99999), "99999");
    assert_eq!(decimal(1234567890), "1234567890");
}

#[test]
fn decimal_writes_a_sign_before_negative_numbers() {
    assert_eq!(decimal(-1), "-1");
    assert_eq!(decimal(-10), "-10");
    assert_eq!(decimal(-99999), "-99999");
}

#[test]
fn decimal_writes_the_ends_of_the_range() {
    assert_eq!(decimal(i64::MAX), "9223372036854775807");
    assert_eq!(decimal(i64::MIN), "-9223372036854775808");
}

#[test]
fn decimal_agrees_with_the_standard_formatting() {
    let samples: Vec<i64> = vec![
        0,
        5,
        -5,
        19,
        100,
        -100,
        1001,
        65535,
        -65536,
        4294967296,
        i64::MAX - 1,
        i64::MIN + 1,
    ];
    for n in samples {
        assert_eq!(decimal(n), format!("{}", n));
    }
}

#[test]
fn same_text_accepts_equal_texts() {
    assert!(same_text("", ""));
    assert!(same_text("Lunch", "Lunch"));
    assert!(same_text("2024-01-15T12:00:00Z", "2024-01-15T12:00:00Z"));
}

#[test]
fn same_text_rejects_texts_of_different_length() {
    assert!(!same_text("Lunch", "Lunc"));
    assert!(!same_text("Lunch", "Lunch "));
    assert!(!same_text("", "x"));
}

#[test]
fn same_text_rejects_texts_that_differ_in_one_place() {
    assert!(!same_text("Lunch", "lunch"));
    assert!(!same_text("Lunch", "Lunci"));
    assert!(!same_text("Dinner", "Dinnar"));
}

#[test]
fn same_text_compares_characters_outside_ascii() {
    assert!(same_text("Frühstück", "Frühstück"));
    assert!(!same_text("Frühstück", "Fruhstuck"));
    assert!(same_text("👤", "👤"));
    assert!(!same_text("👤", "👥"));
}
