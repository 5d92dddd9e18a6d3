use solid_patterns::text::{decimal_string, digit_str, with_decimal, with_dollars};

#[test]
fn decimal_numerals() {
    assert_eq!(decimal_string(0), "0");
    assert_eq!(decimal_string(9), "9");
    assert_eq!(decimal_string(10), "10");
    assert_eq!(decimal_string(1234567890), "1234567890");
    assert_eq!(decimal_string(u32::MAX), "4294967295");
    assert_eq!(digit_str(7), "7");
    assert_eq!(with_decimal("n=".to_string(), 305), "n=305");
}

#[test]
fn dollars_and_cents() {
    assert_eq!(with_dollars(String::new(), 0), "$0.00");
    assert_eq!(with_dollars(String::new(), 7), "$0.07");
    assert_eq!(with_dollars(String::new(), 70), "$0.70");
    assert_eq!(with_dollars(String::new(), 100), "$1.00");
    assert_eq!(with_dollars("total ".to_string(), 17998), "total $179.98");
    assert_eq!(with_dollars(String::new(), u32::MAX), "$42949672.95");
}
