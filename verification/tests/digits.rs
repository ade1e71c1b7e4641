use dexscreener::parse_u64;
use dexscreener::u64_to_dec;

#[test]
fn formats_exact_decimals() {
    assert_eq!(u64_to_dec(0), "0");
    assert_eq!(u64_to_dec(7), "7");
    assert_eq!(u64_to_dec(10), "10");
    assert_eq!(u64_to_dec(1620000000000), "1620000000000");
    assert_eq!(u64_to_dec(u64::MAX), "18446744073709551615");
}

#[test]
fn parses_exact_decimals() {
    assert_eq!(parse_u64("0"), Some(0));
    assert_eq!(parse_u64("0042"), Some(42));
    assert_eq!(parse_u64("18446744073709551615"), Some(u64::MAX));
}

#[test]
fn rejects_what_is_not_a_plain_decimal() {
    assert_eq!(parse_u64(""), None);
    assert_eq!(parse_u64("-1"), None);
    assert_eq!(parse_u64("1.5"), None);
    assert_eq!(parse_u64("1e3"), None);
    assert_eq!(parse_u64("18446744073709551616"), None);
}

#[test]
fn parse_inverts_format() {
    let values: Vec<u64> = vec![0, 1, 9, 10, 99, 100, 12345, u64::MAX - 1, u64::MAX];
    for v in values {
        assert_eq!(parse_u64(&u64_to_dec(v)), Some(v));
    }
}
