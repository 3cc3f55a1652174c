use generic_token::decimal::{decimal_string, parse_decimal};

#[test]
fn decimal_string_writes_plain_digits() {
    assert_eq!(decimal_string(0), "0");
    assert_eq!(decimal_string(7), "7");
    assert_eq!(decimal_string(10), "10");
    assert_eq!(decimal_string(500), "500");
    assert_eq!(decimal_string(1_000_000), "1000000");
    assert_eq!(decimal_string(u128::MAX), "340282366920938463463374607431768211455");
}

#[test]
fn decimal_string_agrees_with_the_standard_formatter() {
    let mut n: u128 = 1;
    for _ in 0..128 {
        assert_eq!(decimal_string(n), n.to_string());
        assert_eq!(decimal_string(n - 1), (n - 1).to_string());
        n = n.wrapping_mul(2).max(1);
    }
}

#[test]
fn parse_decimal_reads_what_was_written() {
    for n in [0u128, 1, 9, 10, 11, 99, 100, 12345678901234567890, u128::MAX - 1, u128::MAX] {
        assert_eq!(parse_decimal(&decimal_string(n)), Some(n));
    }
}

#[test]
fn parse_decimal_agrees_with_the_standard_parser() {
    for text in ["", "+", "++1", "+-1", "-0", "0", "+0", "00", "1_000", "12 ", " 12", "\t12",
        "1\u{0}", "٣", "１２", "340282366920938463463374607431768211455",
        "340282366920938463463374607431768211456", "999999999999999999999999999999999999999",
        "0000000000000000000000000000000000000000000000000000001", "+42", "4+2", "abc"]
    {
        assert_eq!(parse_decimal(text), text.parse::<u128>().ok(), "{:?}", text);
    }
}
