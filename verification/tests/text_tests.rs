use aodata::text::copy_opt;
use aodata::text::decimal;
use aodata::text::pad_zeros;
use aodata::text::same_text;

#[test]
fn decimal_writes_digits() {
    assert_eq!(decimal(0), "0");
    assert_eq!(decimal(7), "7");
    assert_eq!(decimal(10), "10");
    assert_eq!(decimal(3005), "3005");
    assert_eq!(decimal(-42), "-42");
}

#[test]
fn decimal_reaches_the_ends_of_the_range() {
    assert_eq!(decimal(i64::MAX), "9223372036854775807");
    assert_eq!(decimal(i64::MIN), "-9223372036854775808");
}

#[test]
fn decimal_agrees_with_the_standard_rendering() {
    let samples: [i64; 9] = [0, 1, -1, 9, 10, 99, 100, -1000, 1234567890123];
    for sample in samples {
        assert_eq!(decimal(sample), sample.to_string());
    }
}

#[test]
fn pad_fills_short_texts_with_zeros() {
    assert_eq!(pad_zeros("7", 4), "0007");
    assert_eq!(pad_zeros("12", 4), "0012");
    assert_eq!(pad_zeros("", 4), "0000");
    assert_eq!(pad_zeros("-5", 4), "00-5");
}

#[test]
fn pad_leaves_long_texts_alone() {
    assert_eq!(pad_zeros("3005", 4), "3005");
    assert_eq!(pad_zeros("30051", 4), "30051");
    assert_eq!(pad_zeros("abc", 0), "abc");
}

#[test]
fn pad_counts_characters_not_bytes() {
    assert_eq!(pad_zeros("äö", 4), "00äö");
    assert_eq!(pad_zeros("äö", 4), format!("{:0>4}", "äö"));
}

#[test]
fn same_text_compares_contents() {
    assert!(same_text("location", "location"));
    assert!(!same_text("location", "locations"));
    assert!(same_text("", ""));
}

#[test]
fn copy_opt_copies() {
    assert_eq!(copy_opt(&Some("Sword".to_string())), Some("Sword".to_string()));
    assert_eq!(copy_opt(&None), None);
}
