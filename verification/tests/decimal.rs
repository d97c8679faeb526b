use qip_core::decimal::decimal_string;

#[test]
fn zero_is_one_digit() {
    assert_eq!(decimal_string(0), "0");
}

#[test]
fn single_digits() {
    let expected = ["0", "1", "2", "3", "4", "5", "6", "7", "8", "9"];
    for (n, text) in expected.iter().enumerate() {
        assert_eq!(decimal_string(n), *text);
    }
}

#[test]
fn digits_come_most_significant_first() {
    assert_eq!(decimal_string(10), "10");
    assert_eq!(decimal_string(12), "12");
    assert_eq!(decimal_string(21), "21");
    assert_eq!(decimal_string(1000), "1000");
    assert_eq!(decimal_string(1234567890), "1234567890");
}

#[test]
fn inner_and_trailing_zeros_are_kept() {
    assert_eq!(decimal_string(100), "100");
    assert_eq!(decimal_string(101), "101");
    assert_eq!(decimal_string(10010), "10010");
}

#[test]
fn largest_value() {
    assert_eq!(decimal_string(usize::MAX), usize::MAX.to_string());
}

#[test]
fn agrees_with_std_around_powers_of_ten() {
    let mut power: usize = 1;
    for _ in 0..9 {
        for n in [power - 1, power, power + 1] {
            assert_eq!(decimal_string(n), n.to_string());
        }
        power *= 10;
    }
}
