use truinlag::text::{date_text, decimal_text, with_number, zero_padded_text};

#[test]
fn decimal_digits() {
    assert_eq!(decimal_text(0), "0");
    assert_eq!(decimal_text(7), "7");
    assert_eq!(decimal_text(1234567890), "1234567890");
    assert_eq!(decimal_text(u64::MAX), "18446744073709551615");
}

#[test]
fn prefix_and_number() {
    assert_eq!(with_number("team ", 12), "team 12");
    assert_eq!(with_number("", 305), "305");
}

#[test]
fn zero_padding_fills_up_to_the_width() {
    assert_eq!(zero_padded_text(7, 2), "07");
    assert_eq!(zero_padded_text(7, 4), "0007");
    assert_eq!(zero_padded_text(123, 2), "123");
    assert_eq!(zero_padded_text(0, 0), "0");
}

#[test]
fn dates_are_written_as_chrono_writes_them() {
    assert_eq!(date_text(2024, 6, 7), "2024-06-07");
    assert_eq!(date_text(987, 12, 31), "0987-12-31");
    assert_eq!(date_text(12345, 6, 7), "+12345-06-07");
    assert_eq!(date_text(-44, 3, 15), "-0044-03-15");
}

#[test]
fn dates_agree_with_chrono() {
    for (y, m, d) in [(2024, 2, 29), (1, 1, 1), (9999, 12, 31), (10000, 1, 1), (-1, 5, 5)] {
        let date = chrono::NaiveDate::from_ymd_opt(y, m, d).unwrap();
        assert_eq!(date_text(y, m, d), date.format("%Y-%m-%d").to_string());
    }
}
