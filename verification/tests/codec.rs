use dexscreener::decode_pair;
use dexscreener::decode_pair_response;
use dexscreener::decode_timed_txns;
use dexscreener::decode_token;
use dexscreener::decode_txns;
use dexscreener::encode_pair_response;
use dexscreener::encode_token;
use dexscreener::encode_txns;
use dexscreener::ClientError;
use dexscreener::Json;
use dexscreener::Liquidity;
use dexscreener::Pair;
use dexscreener::PairResponse;
use dexscreener::Timed;
use dexscreener::Token;
use dexscreener::Transactions;

fn js(x: &str) -> Json {
    Json::Str(x.to_string())
}

fn jn(x: &str) -> Json {
    Json::Num(x.to_string())
}

fn jobj(members: Vec<(&str, Json)>) -> Json {
    Json::Obj(members.into_iter().map(|(k, v)| (k.to_string(), v)).collect())
}

fn token_json() -> Json {
    jobj(vec![
        ("address", js("0x2170Ed0880ac9A755fd29B2688956BD959F933F8")),
        ("name", js("Wrapped Ether")),
        ("symbol", js("WETH")),
    ])
}

fn txns_json() -> Json {
    jobj(vec![("buys", jn("3")), ("sells", jn("7"))])
}

fn timed_txns_json() -> Json {
    jobj(vec![
        ("m5", txns_json()),
        ("h1", txns_json()),
        ("h6", txns_json()),
        ("h24", txns_json()),
    ])
}

fn timed_num_json() -> Json {
    jobj(vec![
        ("m5", jn("1.5")),
        ("h1", jn("2.25")),
        ("h6", jn("3")),
        ("h24", jn("4.125")),
    ])
}

fn pair_json() -> Json {
    jobj(vec![
        ("chainId", js("bsc")),
        ("dexId", js("pancakeswap")),
        ("url", js("https://dexscreener.com/bsc/x")),
        ("labels", Json::Arr(vec![js("v2")])),
        ("pairAddress", js("0x16b9a82891338f9ba80e2d6970fdda79d1eb0dae")),
        ("baseToken", token_json()),
        ("quoteToken", token_json()),
        ("priceNative", js("1.0001")),
        ("priceUsd", js("309.5")),
        ("txns", timed_txns_json()),
        ("volume", timed_num_json()),
        ("priceChange", timed_num_json()),
        (
            "liquidity",
            jobj(vec![("usd", jn("1000")), ("base", jn("2")), ("quote", jn("3"))]),
        ),
        ("fdv", jn("123456.7")),
        ("pairCreatedAt", jn("1620000000000")),
    ])
}

#[test]
fn token_decodes_with_all_fields() {
    let t = decode_token(&token_json()).unwrap();
    assert_eq!(t.symbol, "WETH");
    assert_eq!(t.name.as_deref(), Some("Wrapped Ether"));
    assert_eq!(
        t.address.as_deref(),
        Some("0x2170Ed0880ac9A755fd29B2688956BD959F933F8")
    );
}

#[test]
fn token_address_may_be_null_or_missing() {
    let with_null = jobj(vec![("address", Json::Null), ("name", Json::Null), ("symbol", js("BNB"))]);
    let t = decode_token(&with_null).unwrap();
    assert_eq!(t.address, None);
    assert_eq!(t.name, None);
    let missing = jobj(vec![("symbol", js("BNB"))]);
    let t2 = decode_token(&missing).unwrap();
    assert_eq!(t2.address, None);
    assert_eq!(t2, t);
}

#[test]
fn token_without_symbol_fails() {
    let bad = jobj(vec![("address", Json::Null), ("name", Json::Null)]);
    let r = decode_token(&bad);
    assert!(matches!(r, Err(ClientError::Decode(_))));
}

#[test]
fn token_round_trip_keeps_null_members() {
    let t = Token { address: None, name: None, symbol: "BNB".to_string() };
    let j = encode_token(&t);
    let back = decode_token(&j).unwrap();
    assert_eq!(back, t);
    match &j {
        Json::Obj(fs) => {
            assert_eq!(fs.len(), 3);
            assert_eq!(fs[0], ("address".to_string(), Json::Null));
        },
        _ => panic!("expected an object"),
    }
}

#[test]
fn txns_round_trip_in_decimal() {
    let t = Transactions { buys: 18446744073709551615, sells: 0 };
    let j = encode_txns(&t);
    match &j {
        Json::Obj(fs) => {
            assert_eq!(fs[0], ("buys".to_string(), jn("18446744073709551615")));
            assert_eq!(fs[1], ("sells".to_string(), jn("0")));
        },
        _ => panic!("expected an object"),
    }
    assert_eq!(decode_txns(&j).unwrap(), t);
}

#[test]
fn txns_reject_fractions_and_negatives() {
    let frac = jobj(vec![("buys", jn("1.5")), ("sells", jn("0"))]);
    assert!(matches!(decode_txns(&frac), Err(ClientError::Decode(_))));
    let neg = jobj(vec![("buys", jn("-1")), ("sells", jn("0"))]);
    assert!(matches!(decode_txns(&neg), Err(ClientError::Decode(_))));
}

#[test]
fn timed_record_missing_a_window_fails() {
    let partial = jobj(vec![("m5", txns_json()), ("h1", txns_json()), ("h6", txns_json())]);
    assert!(matches!(decode_timed_txns(&partial), Err(ClientError::Decode(_))));
    let full = decode_timed_txns(&timed_txns_json()).unwrap();
    assert_eq!(full.h24, Transactions { buys: 3, sells: 7 });
}

#[test]
fn pair_decodes_with_every_member() {
    let p = decode_pair(&pair_json()).unwrap();
    assert_eq!(p.chain_id, "bsc");
    assert_eq!(p.labels, vec!["v2".to_string()]);
    assert_eq!(p.price_usd.as_deref(), Some("309.5"));
    assert_eq!(p.volume.h1, "2.25");
    assert_eq!(p.liquidity.as_ref().unwrap().usd.as_deref(), Some("1000"));
    assert_eq!(p.fdv.as_deref(), Some("123456.7"));
    assert_eq!(p.pair_created_at, Some(1620000000000));
}

#[test]
fn pair_missing_base_token_fails() {
    let mut members = match pair_json() {
        Json::Obj(fs) => fs,
        _ => panic!("expected an object"),
    };
    members.retain(|(k, _)| k != "baseToken");
    let r = decode_pair(&Json::Obj(members));
    assert!(matches!(r, Err(ClientError::Decode(_))));
}

#[test]
fn pair_missing_optionals_decodes_to_absent() {
    let mut members = match pair_json() {
        Json::Obj(fs) => fs,
        _ => panic!("expected an object"),
    };
    members.retain(|(k, _)| {
        k != "fdv" && k != "priceUsd" && k != "liquidity" && k != "pairCreatedAt" && k != "labels"
    });
    let p = decode_pair(&Json::Obj(members)).unwrap();
    assert_eq!(p.fdv, None);
    assert_eq!(p.price_usd, None);
    assert_eq!(p.liquidity, None);
    assert_eq!(p.pair_created_at, None);
    assert_eq!(p.labels, Vec::<String>::new());
}

fn sample_pair() -> Pair {
    Pair {
        chain_id: "bsc".to_string(),
        dex_id: "pancakeswap".to_string(),
        url: "https://dexscreener.com/bsc/x".to_string(),
        labels: vec!["v2".to_string(), "wrapped".to_string()],
        pair_address: "0x16b9a82891338f9ba80e2d6970fdda79d1eb0dae".to_string(),
        base_token: Token {
            address: Some("0x2170Ed0880ac9A755fd29B2688956BD959F933F8".to_string()),
            name: Some("Wrapped Ether".to_string()),
            symbol: "WETH".to_string(),
        },
        quote_token: Token { address: None, name: None, symbol: "BUSD".to_string() },
        price_native: "1.0001".to_string(),
        price_usd: None,
        txns: Timed {
            m5: Transactions { buys: 1, sells: 2 },
            h1: Transactions { buys: 3, sells: 4 },
            h6: Transactions { buys: 5, sells: 6 },
            h24: Transactions { buys: 7, sells: 8 },
        },
        volume: Timed {
            m5: "0.5".to_string(),
            h1: "1.5".to_string(),
            h6: "2.5".to_string(),
            h24: "3.5".to_string(),
        },
        price_change: Timed {
            m5: "-0.1".to_string(),
            h1: "0.2".to_string(),
            h6: "-0.3".to_string(),
            h24: "0.4".to_string(),
        },
        liquidity: Some(Liquidity {
            usd: None,
            base: "10".to_string(),
            quote: "20".to_string(),
        }),
        fdv: None,
        pair_created_at: Some(1620000000000),
    }
}

#[test]
fn response_round_trip_with_pairs() {
    let original = PairResponse { pairs: Some(vec![sample_pair(), sample_pair()]) };
    let wire = encode_pair_response(&original);
    let back = decode_pair_response(&wire).unwrap();
    assert_eq!(back, original);
}

#[test]
fn response_round_trip_keeps_absent_distinct_from_empty() {
    let absent = PairResponse { pairs: None };
    let wire_absent = encode_pair_response(&absent);
    assert_eq!(wire_absent, Json::Obj(Vec::new()));
    assert_eq!(decode_pair_response(&wire_absent).unwrap(), absent);

    let empty = PairResponse { pairs: Some(Vec::new()) };
    let wire_empty = encode_pair_response(&empty);
    assert_eq!(
        wire_empty,
        Json::Obj(vec![("pairs".to_string(), Json::Arr(Vec::new()))])
    );
    let back = decode_pair_response(&wire_empty).unwrap();
    assert_eq!(back, empty);
    assert_ne!(back, absent);
}

#[test]
fn response_accepts_null_and_missing_pairs() {
    let with_null = jobj(vec![("pairs", Json::Null)]);
    assert_eq!(decode_pair_response(&with_null).unwrap(), PairResponse { pairs: None });
    let missing = jobj(vec![]);
    assert_eq!(decode_pair_response(&missing).unwrap(), PairResponse { pairs: None });
    let empty = jobj(vec![("pairs", Json::Arr(Vec::new()))]);
    assert_eq!(
        decode_pair_response(&empty).unwrap(),
        PairResponse { pairs: Some(Vec::new()) }
    );
}

#[test]
fn response_with_wrong_pairs_kind_fails() {
    let bad = jobj(vec![("pairs", jn("5"))]);
    assert!(matches!(decode_pair_response(&bad), Err(ClientError::Decode(_))));
    let not_an_object = jn("5");
    assert!(matches!(decode_pair_response(&not_an_object), Err(ClientError::Decode(_))));
}

#[test]
fn encode_omits_absent_optionals() {
    let p = sample_pair();
    let wire = dexscreener::encode_pair(&p);
    match &wire {
        Json::Obj(fs) => {
            assert!(fs.iter().all(|(k, _)| k != "priceUsd" && k != "fdv"));
            assert!(fs.iter().any(|(k, _)| k == "liquidity"));
            assert!(fs.iter().any(|(k, _)| k == "pairCreatedAt"));
            let liq = fs.iter().find(|(k, _)| k == "liquidity").unwrap();
            match &liq.1 {
                Json::Obj(lf) => assert!(lf.iter().all(|(k, _)| k != "usd")),
                _ => panic!("expected an object"),
            }
        },
        _ => panic!("expected an object"),
    }
}
