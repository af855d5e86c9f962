use miki_backend::text::{i8_to_decimal, join_strings, u64_to_decimal};

#[test]
fn decimal_of_zero() {
    assert_eq!(u64_to_decimal(0), "0");
}

#[test]
fn decimal_of_large_values() {
    assert_eq!(u64_to_decimal(1700000000), "1700000000");
    assert_eq!(u64_to_decimal(u64::MAX), "18446744073709551615");
    assert_eq!(u64_to_decimal(10), "10");
}

#[test]
fn decimal_of_signed_bytes() {
    assert_eq!(i8_to_decimal(0), "0");
    assert_eq!(i8_to_decimal(1), "1");
    assert_eq!(i8_to_decimal(-5), "-5");
    assert_eq!(i8_to_decimal(127), "127");
    assert_eq!(i8_to_decimal(-128), "-128");
}

#[test]
fn join_puts_separator_between_parts() {
    let parts = vec!["a".to_string(), "b".to_string(), "c".to_string()];
    assert_eq!(join_strings(&parts, ", "), "a, b, c");
    assert_eq!(join_strings(&vec!["only".to_string()], ","), "only");
    assert_eq!(join_strings(&Vec::new(), ","), "");
}
