use porwarder::text::{decimal_string, digit_text};

#[test]
fn zero_is_one_digit() {
    assert_eq!(decimal_string(0), "0");
}

#[test]
fn numerals_have_no_leading_zero() {
    assert_eq!(decimal_string(7), "7");
    assert_eq!(decimal_string(10), "10");
    assert_eq!(decimal_string(443), "443");
    assert_eq!(decimal_string(1443), "1443");
    assert_eq!(decimal_string(6379), "6379");
    assert_eq!(decimal_string(65535), "65535");
    assert_eq!(decimal_string(u64::MAX), "18446744073709551615");
}

#[test]
fn numerals_agree_with_the_standard_library() {
    for n in 0u64..2000 {
        assert_eq!(decimal_string(n), n.to_string());
    }
}

#[test]
fn each_digit_has_its_character() {
    let digits = ["0", "1", "2", "3", "4", "5", "6", "7", "8", "9"];
    for d in 0u64..10 {
        assert_eq!(digit_text(d), digits[d as usize]);
    }
}
