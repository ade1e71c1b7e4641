use dexscreener::format_address;
use dexscreener::ClientError;
use dexscreener::BASE_URL;

#[test]
fn base_url_points_at_the_production_root() {
    assert_eq!(BASE_URL, "https://api.dexscreener.com/latest/");
}

#[test]
fn format_address_appends_to_the_buffer() {
    let mut out = String::from("dex/pairs/bsc/");
    format_address("1111111111111111111111111111111111111111", &mut out).unwrap();
    assert_eq!(out, "dex/pairs/bsc/0x1111111111111111111111111111111111111111");
}

#[test]
fn format_address_leaves_the_buffer_alone_on_failure() {
    let mut out = String::from("dex/tokens/");
    let r = format_address("oops", &mut out);
    assert!(matches!(r, Err(ClientError::InvalidAddress(a)) if a == "oops"));
    assert_eq!(out, "dex/tokens/");
}
