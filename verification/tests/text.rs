use bootc_bridge::decimal::decimal_text;
use bootc_bridge::diagnostic::{failure_line, invalid_arguments_line};

#[test]
fn decimal_of_zero_is_a_single_digit() {
    assert_eq!(decimal_text(0), "0");
}

#[test]
fn decimal_of_single_digits() {
    assert_eq!(decimal_text(1), "1");
    assert_eq!(decimal_text(7), "7");
    assert_eq!(decimal_text(9), "9");
}

#[test]
fn decimal_keeps_inner_and_trailing_zeros() {
    assert_eq!(decimal_text(10), "10");
    assert_eq!(decimal_text(100), "100");
    assert_eq!(decimal_text(1002003), "1002003");
}

#[test]
fn decimal_of_negative_numbers_has_a_minus_sign() {
    assert_eq!(decimal_text(-1), "-1");
    assert_eq!(decimal_text(-12), "-12");
    assert_eq!(decimal_text(-90), "-90");
}

#[test]
fn decimal_of_the_extremes() {
    assert_eq!(decimal_text(i32::MAX), "2147483647");
    assert_eq!(decimal_text(i32::MIN), "-2147483648");
    assert_eq!(decimal_text(i32::MIN + 1), "-2147483647");
}

#[test]
fn decimal_agrees_with_the_standard_formatting() {
    let mut n: i64 = i32::MIN as i64;
    while n <= i32::MAX as i64 {
        let value = n as i32;
        assert_eq!(decimal_text(value), format!("{}", value));
        n += 7_654_321;
    }
    for value in -1000..=1000 {
        assert_eq!(decimal_text(value), format!("{}", value));
    }
}

#[test]
fn invalid_arguments_line_names_the_count() {
    assert_eq!(invalid_arguments_line(0), "bootc-bridge: invalid arguments (argc=0)");
    assert_eq!(invalid_arguments_line(-5), "bootc-bridge: invalid arguments (argc=-5)");
    assert_eq!(invalid_arguments_line(3), "bootc-bridge: invalid arguments (argc=3)");
    assert_eq!(
        invalid_arguments_line(i32::MIN),
        "bootc-bridge: invalid arguments (argc=-2147483648)"
    );
}

#[test]
fn failure_line_is_the_tag_and_the_description() {
    assert_eq!(failure_line("no such image"), "bootc-bridge: no such image");
    assert_eq!(
        failure_line("deploying: writing: disk full"),
        "bootc-bridge: deploying: writing: disk full"
    );
}

#[test]
fn failure_line_of_an_empty_description_is_the_tag_alone() {
    assert_eq!(failure_line(""), "bootc-bridge: ");
}

#[test]
fn failure_line_keeps_text_outside_ascii() {
    assert_eq!(failure_line("échec: 失敗"), "bootc-bridge: échec: 失敗");
}
