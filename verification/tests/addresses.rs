use dexscreener::format_addresses;
use dexscreener::ClientError;

fn run(addrs: &[&str]) -> Result<String, ClientError> {
    let v: Vec<String> = addrs.iter().map(|s| s.to_string()).collect();
    format_addresses(&v)
}

#[test]
fn prefixed_pair_joins_with_comma() {
    let r = run(&[
        "0x1111111111111111111111111111111111111111",
        "0x2222222222222222222222222222222222222222",
    ])
    .unwrap();
    assert_eq!(
        r,
        "0x1111111111111111111111111111111111111111,0x2222222222222222222222222222222222222222"
    );
}

#[test]
fn bare_address_gains_prefix() {
    let r = run(&["1111111111111111111111111111111111111111"]).unwrap();
    assert_eq!(r, "0x1111111111111111111111111111111111111111");
}

#[test]
fn invalid_address_is_returned_in_error() {
    let r = run(&["not-an-address"]);
    assert!(matches!(r, Err(ClientError::InvalidAddress(a)) if a == "not-an-address"));
}

#[test]
fn empty_list_formats_to_empty_string() {
    let r = run(&[]).unwrap();
    assert_eq!(r, "");
}

#[test]
fn prefixed_address_passes_through_unchanged() {
    let a = "0x16b9a82891338f9ba80e2d6970fdda79d1eb0dae";
    let r = run(&[a]).unwrap();
    assert_eq!(r, a);
    let again = run(&[&r]).unwrap();
    assert_eq!(again, a);
}

#[test]
fn mixed_case_hex_is_accepted() {
    let a = "0x7213a321F1855CF1779f42c0CD85d3D95291D34C";
    let r = run(&[a]).unwrap();
    assert_eq!(r, a);
}

#[test]
fn solana_style_address_passes_through() {
    let a = "9WzDXwBbmkg8ZTbNMqUxvQRAyrZzDsGYdLVL9zYtAWWM";
    assert_eq!(a.len(), 44);
    let r = run(&[a]).unwrap();
    assert_eq!(r, a);
}

#[test]
fn wrong_length_fails() {
    let a = "0x123456";
    let r = run(&[a]);
    assert!(matches!(r, Err(ClientError::InvalidAddress(b)) if b == a));
}

#[test]
fn forty_chars_with_non_hex_fails() {
    let a = "111111111111111111111111111111111111111g";
    assert_eq!(a.len(), 40);
    let r = run(&[a]);
    assert!(matches!(r, Err(ClientError::InvalidAddress(b)) if b == a));
}

#[test]
fn forty_two_chars_without_prefix_fails() {
    let a = "111111111111111111111111111111111111111111";
    assert_eq!(a.len(), 42);
    let r = run(&[a]);
    assert!(matches!(r, Err(ClientError::InvalidAddress(b)) if b == a));
}

#[test]
fn forty_four_chars_with_punctuation_fails() {
    let a = "9WzDXwBbmkg8ZTbNMqUxvQRAyrZzDsGYdLVL9zYtAWW-";
    assert_eq!(a.len(), 44);
    let r = run(&[a]);
    assert!(matches!(r, Err(ClientError::InvalidAddress(b)) if b == a));
}

#[test]
fn first_invalid_entry_stops_the_walk() {
    let r = run(&[
        "0x1111111111111111111111111111111111111111",
        "bogus",
        "also-bogus",
    ]);
    assert!(matches!(r, Err(ClientError::InvalidAddress(a)) if a == "bogus"));
}

#[test]
fn forty_four_hex_chars_route_to_the_solana_rule() {
    let a = "11111111111111111111111111111111111111111111";
    assert_eq!(a.len(), 44);
    let r = run(&[a]).unwrap();
    assert_eq!(r, a);
}
