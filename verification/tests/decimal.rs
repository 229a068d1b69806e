use tabular_export::decimal::{i32_to_string, i64_to_string};

#[test]
fn decimal_text_has_no_leading_zeros_and_keeps_the_sign() {
    assert_eq!(i64_to_string(0), "0");
    assert_eq!(i64_to_string(7), "7");
    assert_eq!(i64_to_string(10), "10");
    assert_eq!(i64_to_string(-10), "-10");
    assert_eq!(i64_to_string(1000000), "1000000");
    assert_eq!(i64_to_string(-907), "-907");
    assert_eq!(i32_to_string(-2147483648), "-2147483648");
    assert_eq!(i32_to_string(42), "42");
}

#[test]
fn decimal_text_agrees_with_the_standard_formatter() {
    let mut v: i64 = 1;
    for _ in 0..62 {
        assert_eq!(i64_to_string(v), v.to_string());
        assert_eq!(i64_to_string(-v), (-v).to_string());
        assert_eq!(i64_to_string(v - 1), (v - 1).to_string());
        v *= 2;
    }
}
