use vstd::prelude::*;

use crate::digits::all_digits;
use crate::digits::canonical_dec;
use crate::digits::dec_val;
use crate::digits::parse_u64;
use crate::digits::u64_to_dec;
use crate::error::ClientError;
use crate::json::obj_get;
use crate::json::obj_get_x;
use crate::json::Json;
use crate::model::opt_view;
use crate::model::Liquidity;
use crate::model::Pair;
use crate::model::PairResponse;
use crate::model::PairResponseV;
use crate::model::PairV;
use crate::model::LiquidityV;
use crate::model::Timed;
use crate::model::TimedV;
use crate::model::Token;
use crate::model::TokenV;
use crate::model::Transactions;

verus! {

broadcast use vstd::string::group_string_axioms, crate::json::lemma_obj_get_push;

// What a member lookup must yield, per wire convention.
//
// A required field decodes only from the written JSON kind; an optional
// field also decodes, to the absent state, from a missing member or an
// explicit null. On the way out an optional field is written as null or
// omitted entirely, each per the convention its owner documents.
/// The member is a string with exactly these characters.
pub open spec fn str_member(fs: Seq<(String, Json)>, k: Seq<char>, v: Seq<char>) -> bool {
    obj_get(fs, k) matches Some(Json::Str(s)) && s@ == v
}

/// The member is a string when the value is present, and null when absent.
pub open spec fn nullable_str_member(
    fs: Seq<(String, Json)>,
    k: Seq<char>,
    v: Option<Seq<char>>,
) -> bool {
    match v {
        Some(x) => str_member(fs, k, x),
        None => obj_get(fs, k) matches Some(Json::Null),
    }
}

/// The member is a number with exactly this source text.
pub open spec fn num_member(fs: Seq<(String, Json)>, k: Seq<char>, v: Seq<char>) -> bool {
    obj_get(fs, k) matches Some(Json::Num(s)) && s@ == v
}

/// The member is a number when the value is present, and missing entirely
/// when absent.
pub open spec fn omitted_num_member(
    fs: Seq<(String, Json)>,
    k: Seq<char>,
    v: Option<Seq<char>>,
) -> bool {
    match v {
        Some(x) => num_member(fs, k, x),
        None => obj_get(fs, k) is None,
    }
}

/// The member is the canonical decimal notation of this integer.
pub open spec fn u64_member(fs: Seq<(String, Json)>, k: Seq<char>, v: u64) -> bool {
    obj_get(fs, k) matches Some(Json::Num(s)) && canonical_dec(s@) && dec_val(s@) == v
}

// What a looked-up member decodes to. Each function returns the decoded
// value, or nothing when the member does not fit its field's rule.
/// A required string field.
pub open spec fn spec_req_str(o: Option<Json>) -> Option<Seq<char>> {
    match o {
        Some(Json::Str(s)) => Some(s@),
        _ => None,
    }
}

/// An optional string field: a missing member or null is the absent state.
pub open spec fn spec_opt_str(o: Option<Json>) -> Option<Option<Seq<char>>> {
    match o {
        None => Some(None),
        Some(Json::Null) => Some(None),
        Some(Json::Str(s)) => Some(Some(s@)),
        Some(_) => None,
    }
}

/// A required numeric field, kept as its source text.
pub open spec fn spec_req_num(o: Option<Json>) -> Option<Seq<char>> {
    match o {
        Some(Json::Num(s)) => Some(s@),
        _ => None,
    }
}

/// An optional numeric field: a missing member or null is the absent state.
pub open spec fn spec_opt_num(o: Option<Json>) -> Option<Option<Seq<char>>> {
    match o {
        None => Some(None),
        Some(Json::Null) => Some(None),
        Some(Json::Num(s)) => Some(Some(s@)),
        Some(_) => None,
    }
}

/// A required non-negative integer field: a decimal number that fits.
pub open spec fn spec_req_u64(o: Option<Json>) -> Option<u64> {
    match o {
        Some(Json::Num(s)) => if all_digits(s@) && dec_val(s@) <= u64::MAX {
            Some(dec_val(s@) as u64)
        } else {
            None
        },
        _ => None,
    }
}

/// An optional non-negative integer field.
pub open spec fn spec_opt_u64(o: Option<Json>) -> Option<Option<u64>> {
    match o {
        None => Some(None),
        Some(Json::Null) => Some(None),
        Some(Json::Num(s)) => if all_digits(s@) && dec_val(s@) <= u64::MAX {
            Some(Some(dec_val(s@) as u64))
        } else {
            None
        },
        Some(_) => None,
    }
}

/// A decode failure naming the field that did not fit.
fn decode_err(k: &str) -> (r: ClientError)
    ensures
        r matches ClientError::Decode(_),
{
    ClientError::Decode(k.to_owned())
}

fn get_req_str(fs: &Vec<(String, Json)>, k: &str) -> (r: Result<String, ClientError>)
    ensures
        match r {
            Ok(s) => spec_req_str(obj_get(fs@, k@)) == Some(s@),
            Err(e) => spec_req_str(obj_get(fs@, k@)) is None && e matches ClientError::Decode(_),
        },
{
    match obj_get_x(fs, k) {
        Some(Json::Str(s)) => Ok(s.clone()),
        _ => Err(decode_err(k)),
    }
}

fn get_opt_str(fs: &Vec<(String, Json)>, k: &str) -> (r: Result<Option<String>, ClientError>)
    ensures
        match r {
            Ok(o) => spec_opt_str(obj_get(fs@, k@)) == Some(opt_view(o)),
            Err(e) => spec_opt_str(obj_get(fs@, k@)) is None && e matches ClientError::Decode(_),
        },
{
    match obj_get_x(fs, k) {
        None => Ok(None),
        Some(Json::Null) => Ok(None),
        Some(Json::Str(s)) => Ok(Some(s.clone())),
        Some(_) => Err(decode_err(k)),
    }
}

fn get_req_num(fs: &Vec<(String, Json)>, k: &str) -> (r: Result<String, ClientError>)
    ensures
        match r {
            Ok(s) => spec_req_num(obj_get(fs@, k@)) == Some(s@),
            Err(e) => spec_req_num(obj_get(fs@, k@)) is None && e matches ClientError::Decode(_),
        },
{
    match obj_get_x(fs, k) {
        Some(Json::Num(s)) => Ok(s.clone()),
        _ => Err(decode_err(k)),
    }
}

fn get_opt_num(fs: &Vec<(String, Json)>, k: &str) -> (r: Result<Option<String>, ClientError>)
    ensures
        match r {
            Ok(o) => spec_opt_num(obj_get(fs@, k@)) == Some(opt_view(o)),
            Err(e) => spec_opt_num(obj_get(fs@, k@)) is None && e matches ClientError::Decode(_),
        },
{
    match obj_get_x(fs, k) {
        None => Ok(None),
        Some(Json::Null) => Ok(None),
        Some(Json::Num(s)) => Ok(Some(s.clone())),
        Some(_) => Err(decode_err(k)),
    }
}

fn get_req_u64(fs: &Vec<(String, Json)>, k: &str) -> (r: Result<u64, ClientError>)
    ensures
        match r {
            Ok(v) => spec_req_u64(obj_get(fs@, k@)) == Some(v),
            Err(e) => spec_req_u64(obj_get(fs@, k@)) is None && e matches ClientError::Decode(_),
        },
{
    match obj_get_x(fs, k) {
        Some(Json::Num(s)) => match parse_u64(s.as_str()) {
            Some(v) => Ok(v),
            None => Err(decode_err(k)),
        },
        _ => Err(decode_err(k)),
    }
}

fn get_opt_u64(fs: &Vec<(String, Json)>, k: &str) -> (r: Result<Option<u64>, ClientError>)
    ensures
        match r {
            Ok(o) => spec_opt_u64(obj_get(fs@, k@)) == Some(o),
            Err(e) => spec_opt_u64(obj_get(fs@, k@)) is None && e matches ClientError::Decode(_),
        },
{
    match obj_get_x(fs, k) {
        None => Ok(None),
        Some(Json::Null) => Ok(None),
        Some(Json::Num(s)) => match parse_u64(s.as_str()) {
            Some(v) => Ok(Some(v)),
            None => Err(decode_err(k)),
        },
        Some(_) => Err(decode_err(k)),
    }
}

// Token
/// What a token object decodes to, if anything.
pub open spec fn spec_decode_token(j: Json) -> Option<TokenV> {
    match j {
        Json::Obj(fs) => match (spec_opt_str(obj_get(fs@, "address"@)), spec_opt_str(
            obj_get(fs@, "name"@),
        ), spec_req_str(obj_get(fs@, "symbol"@))) {
            (Some(address), Some(name), Some(symbol)) => Some(
                TokenV { address, name, symbol },
            ),
            _ => None,
        },
        _ => None,
    }
}

/// The wire form of a token: an object of exactly the three members, the
/// two optional ones written as null when absent.
pub open spec fn token_encoding(t: TokenV, j: Json) -> bool {
    &&& j matches Json::Obj(fs)
    &&& fs@.len() == 3
    &&& nullable_str_member(fs@, "address"@, t.address)
    &&& nullable_str_member(fs@, "name"@, t.name)
    &&& str_member(fs@, "symbol"@, t.symbol)
}

/// Decodes a token object: succeeds exactly when the object fits the token
/// shape, and then yields the token it denotes.
pub fn decode_token(j: &Json) -> (r: Result<Token, ClientError>)
    ensures
        match r {
            Ok(t) => spec_decode_token(*j) == Some(t@),
            Err(e) => spec_decode_token(*j) is None && e matches ClientError::Decode(_),
        },
{
    match j {
        Json::Obj(fs) => {
            let address = match get_opt_str(fs, "address") {
                Ok(a) => a,
                Err(e) => {
                    return Err(e);
                },
            };
            let name = match get_opt_str(fs, "name") {
                Ok(a) => a,
                Err(e) => {
                    return Err(e);
                },
            };
            let symbol = match get_req_str(fs, "symbol") {
                Ok(a) => a,
                Err(e) => {
                    return Err(e);
                },
            };
            Ok(Token { address, name, symbol })
        },
        _ => Err(decode_err("token")),
    }
}

fn nullable_str(o: &Option<String>) -> (r: Json)
    ensures
        match o {
            Some(x) => r matches Json::Str(s) && s@ == x@,
            None => r is Null,
        },
{
    match o {
        Some(x) => Json::Str(x.clone()),
        None => Json::Null,
    }
}

/// Encodes a token into its wire form.
pub fn encode_token(t: &Token) -> (r: Json)
    ensures
        token_encoding(t@, r),
{
    let mut fs: Vec<(String, Json)> = Vec::new();
    fs.push((String::from_str("address"), nullable_str(&t.address)));
    fs.push((String::from_str("name"), nullable_str(&t.name)));
    fs.push((String::from_str("symbol"), Json::Str(t.symbol.clone())));
    proof {
        reveal_strlit("address");
        reveal_strlit("name");
        reveal_strlit("symbol");
        assert("address"@.len() == 7);
        assert("name"@.len() == 4);
        assert("symbol"@.len() == 6);
        assert(obj_get(fs@, "address"@) == Some(fs@[0].1));
        assert(obj_get(fs@, "name"@) == Some(fs@[1].1));
        assert(obj_get(fs@, "symbol"@) == Some(fs@[2].1));
    }
    Json::Obj(fs)
}

/// A token's wire form decodes back to the token it came from.
pub proof fn lemma_token_round_trip(t: TokenV, j: Json)
    requires
        token_encoding(t, j),
    ensures
        spec_decode_token(j) == Some(t),
{
}

// Transactions
/// What a transaction-count object decodes to, if anything.
pub open spec fn spec_decode_txns(j: Json) -> Option<Transactions> {
    match j {
        Json::Obj(fs) => match (spec_req_u64(obj_get(fs@, "buys"@)), spec_req_u64(
            obj_get(fs@, "sells"@),
        )) {
            (Some(buys), Some(sells)) => Some(Transactions { buys, sells }),
            _ => None,
        },
        _ => None,
    }
}

/// The wire form of a transaction count: both counts written in decimal.
pub open spec fn txns_encoding(t: Transactions, j: Json) -> bool {
    &&& j matches Json::Obj(fs)
    &&& fs@.len() == 2
    &&& u64_member(fs@, "buys"@, t.buys)
    &&& u64_member(fs@, "sells"@, t.sells)
}

/// Decodes a transaction-count object.
pub fn decode_txns(j: &Json) -> (r: Result<Transactions, ClientError>)
    ensures
        match r {
            Ok(t) => spec_decode_txns(*j) == Some(t@),
            Err(e) => spec_decode_txns(*j) is None && e matches ClientError::Decode(_),
        },
{
    match j {
        Json::Obj(fs) => {
            let buys = match get_req_u64(fs, "buys") {
                Ok(v) => v,
                Err(e) => {
                    return Err(e);
                },
            };
            let sells = match get_req_u64(fs, "sells") {
                Ok(v) => v,
                Err(e) => {
                    return Err(e);
                },
            };
            Ok(Transactions { buys, sells })
        },
        _ => Err(decode_err("txns")),
    }
}

/// Encodes a transaction count into its wire form.
pub fn encode_txns(t: &Transactions) -> (r: Json)
    ensures
        txns_encoding(t@, r),
{
    let mut fs: Vec<(String, Json)> = Vec::new();
    fs.push((String::from_str("buys"), Json::Num(u64_to_dec(t.buys))));
    fs.push((String::from_str("sells"), Json::Num(u64_to_dec(t.sells))));
    proof {
        reveal_strlit("buys");
        reveal_strlit("sells");
        assert("buys"@.len() == 4);
        assert("sells"@.len() == 5);
        assert(obj_get(fs@, "buys"@) == Some(fs@[0].1));
        assert(obj_get(fs@, "sells"@) == Some(fs@[1].1));
    }
    Json::Obj(fs)
}

/// A transaction count's wire form decodes back to the count it came from.
pub proof fn lemma_txns_round_trip(t: Transactions, j: Json)
    requires
        txns_encoding(t, j),
    ensures
        spec_decode_txns(j) == Some(t),
{
}

// Timed<T>: the four fixed windows, each required.
/// What one window member holding a transaction count decodes to.
pub open spec fn spec_txns_window(o: Option<Json>) -> Option<Transactions> {
    match o {
        Some(x) => spec_decode_txns(x),
        None => None,
    }
}

/// What a four-window record of transaction counts decodes to, if anything.
/// A record missing any window does not decode.
pub open spec fn spec_decode_timed_txns(j: Json) -> Option<TimedV<Transactions>> {
    match j {
        Json::Obj(fs) => match (spec_txns_window(obj_get(fs@, "m5"@)), spec_txns_window(
            obj_get(fs@, "h1"@),
        ), spec_txns_window(obj_get(fs@, "h6"@)), spec_txns_window(obj_get(fs@, "h24"@))) {
            (Some(m5), Some(h1), Some(h6), Some(h24)) => Some(TimedV { m5, h1, h6, h24 }),
            _ => None,
        },
        _ => None,
    }
}

/// The wire form of a four-window record of transaction counts.
pub open spec fn timed_txns_encoding(t: TimedV<Transactions>, j: Json) -> bool {
    &&& j matches Json::Obj(fs)
    &&& fs@.len() == 4
    &&& obj_get(fs@, "m5"@) matches Some(x) && txns_encoding(t.m5, x)
    &&& obj_get(fs@, "h1"@) matches Some(x) && txns_encoding(t.h1, x)
    &&& obj_get(fs@, "h6"@) matches Some(x) && txns_encoding(t.h6, x)
    &&& obj_get(fs@, "h24"@) matches Some(x) && txns_encoding(t.h24, x)
}

fn get_txns(fs: &Vec<(String, Json)>, k: &str) -> (r: Result<Transactions, ClientError>)
    ensures
        match r {
            Ok(t) => spec_txns_window(obj_get(fs@, k@)) == Some(t@),
            Err(e) => spec_txns_window(obj_get(fs@, k@)) is None && e matches ClientError::Decode(
                _,
            ),
        },
{
    match obj_get_x(fs, k) {
        Some(x) => decode_txns(x),
        None => Err(decode_err(k)),
    }
}

/// Decodes a four-window record of transaction counts; fails if any of the
/// four windows is missing or malformed.
pub fn decode_timed_txns(j: &Json) -> (r: Result<Timed<Transactions>, ClientError>)
    ensures
        match r {
            Ok(t) => spec_decode_timed_txns(*j) == Some(t@),
            Err(e) => spec_decode_timed_txns(*j) is None && e matches ClientError::Decode(_),
        },
{
    match j {
        Json::Obj(fs) => {
            let m5 = match get_txns(fs, "m5") {
                Ok(v) => v,
                Err(e) => {
                    return Err(e);
                },
            };
            let h1 = match get_txns(fs, "h1") {
                Ok(v) => v,
                Err(e) => {
                    return Err(e);
                },
            };
            let h6 = match get_txns(fs, "h6") {
                Ok(v) => v,
                Err(e) => {
                    return Err(e);
                },
            };
            let h24 = match get_txns(fs, "h24") {
                Ok(v) => v,
                Err(e) => {
                    return Err(e);
                },
            };
            Ok(Timed { m5, h1, h6, h24 })
        },
        _ => Err(decode_err("txns")),
    }
}

/// Encodes a four-window record of transaction counts.
pub fn encode_timed_txns(t: &Timed<Transactions>) -> (r: Json)
    ensures
        timed_txns_encoding(t@, r),
{
    let mut fs: Vec<(String, Json)> = Vec::new();
    fs.push((String::from_str("m5"), encode_txns(&t.m5)));
    fs.push((String::from_str("h1"), encode_txns(&t.h1)));
    fs.push((String::from_str("h6"), encode_txns(&t.h6)));
    fs.push((String::from_str("h24"), encode_txns(&t.h24)));
    proof {
        reveal_strlit("m5");
        reveal_strlit("h1");
        reveal_strlit("h6");
        reveal_strlit("h24");
        assert("m5"@.len() == 2);
        assert("h1"@.len() == 2);
        assert("h6"@.len() == 2);
        assert("h24"@.len() == 3);
        assert("m5"@[0] == 'm' && "h1"@[0] == 'h');
        assert("h1"@[1] == '1' && "h6"@[1] == '6');
        assert(obj_get(fs@, "m5"@) == Some(fs@[0].1));
        assert(obj_get(fs@, "h1"@) == Some(fs@[1].1));
        assert(obj_get(fs@, "h6"@) == Some(fs@[2].1));
        assert(obj_get(fs@, "h24"@) == Some(fs@[3].1));
    }
    Json::Obj(fs)
}

/// A four-window transaction record's wire form decodes back to the record
/// it came from.
pub proof fn lemma_timed_txns_round_trip(t: TimedV<Transactions>, j: Json)
    requires
        timed_txns_encoding(t, j),
    ensures
        spec_decode_timed_txns(j) == Some(t),
{
    lemma_txns_round_trip(t.m5, member_of(j, "m5"@));
    lemma_txns_round_trip(t.h1, member_of(j, "h1"@));
    lemma_txns_round_trip(t.h6, member_of(j, "h6"@));
    lemma_txns_round_trip(t.h24, member_of(j, "h24"@));
}

/// The JSON value one member of an object holds.
pub open spec fn member_of(j: Json, k: Seq<char>) -> Json
    recommends
        j matches Json::Obj(fs) && obj_get(fs@, k) is Some,
{
    match j {
        Json::Obj(fs) => match obj_get(fs@, k) {
            Some(x) => x,
            None => Json::Null,
        },
        _ => Json::Null,
    }
}

// Timed over numeric readings kept as text.
/// What one window member holding a numeric reading decodes to.
pub open spec fn spec_num_window(o: Option<Json>) -> Option<Seq<char>> {
    spec_req_num(o)
}

/// What a four-window record of numeric readings decodes to, if anything.
pub open spec fn spec_decode_timed_num(j: Json) -> Option<TimedV<Seq<char>>> {
    match j {
        Json::Obj(fs) => match (spec_num_window(obj_get(fs@, "m5"@)), spec_num_window(
            obj_get(fs@, "h1"@),
        ), spec_num_window(obj_get(fs@, "h6"@)), spec_num_window(obj_get(fs@, "h24"@))) {
            (Some(m5), Some(h1), Some(h6), Some(h24)) => Some(TimedV { m5, h1, h6, h24 }),
            _ => None,
        },
        _ => None,
    }
}

/// The wire form of a four-window record of numeric readings.
pub open spec fn timed_num_encoding(t: TimedV<Seq<char>>, j: Json) -> bool {
    &&& j matches Json::Obj(fs)
    &&& fs@.len() == 4
    &&& num_member(fs@, "m5"@, t.m5)
    &&& num_member(fs@, "h1"@, t.h1)
    &&& num_member(fs@, "h6"@, t.h6)
    &&& num_member(fs@, "h24"@, t.h24)
}

/// Decodes a four-window record of numeric readings; fails if any of the
/// four windows is missing or malformed.
pub fn decode_timed_num(j: &Json) -> (r: Result<Timed<String>, ClientError>)
    ensures
        match r {
            Ok(t) => spec_decode_timed_num(*j) == Some(t@),
            Err(e) => spec_decode_timed_num(*j) is None && e matches ClientError::Decode(_),
        },
{
    match j {
        Json::Obj(fs) => {
            let m5 = match get_req_num(fs, "m5") {
                Ok(v) => v,
                Err(e) => {
                    return Err(e);
                },
            };
            let h1 = match get_req_num(fs, "h1") {
                Ok(v) => v,
                Err(e) => {
                    return Err(e);
                },
            };
            let h6 = match get_req_num(fs, "h6") {
                Ok(v) => v,
                Err(e) => {
                    return Err(e);
                },
            };
            let h24 = match get_req_num(fs, "h24") {
                Ok(v) => v,
                Err(e) => {
                    return Err(e);
                },
            };
            Ok(Timed { m5, h1, h6, h24 })
        },
        _ => Err(decode_err("timed")),
    }
}

/// Encodes a four-window record of numeric readings.
pub fn encode_timed_num(t: &Timed<String>) -> (r: Json)
    ensures
        timed_num_encoding(t@, r),
{
    let mut fs: Vec<(String, Json)> = Vec::new();
    fs.push((String::from_str("m5"), Json::Num(t.m5.clone())));
    fs.push((String::from_str("h1"), Json::Num(t.h1.clone())));
    fs.push((String::from_str("h6"), Json::Num(t.h6.clone())));
    fs.push((String::from_str("h24"), Json::Num(t.h24.clone())));
    proof {
        reveal_strlit("m5");
        reveal_strlit("h1");
        reveal_strlit("h6");
        reveal_strlit("h24");
        assert("m5"@.len() == 2);
        assert("h1"@.len() == 2);
        assert("h6"@.len() == 2);
        assert("h24"@.len() == 3);
        assert("m5"@[0] == 'm' && "h1"@[0] == 'h');
        assert("h1"@[1] == '1' && "h6"@[1] == '6');
        assert(obj_get(fs@, "m5"@) == Some(fs@[0].1));
        assert(obj_get(fs@, "h1"@) == Some(fs@[1].1));
        assert(obj_get(fs@, "h6"@) == Some(fs@[2].1));
        assert(obj_get(fs@, "h24"@) == Some(fs@[3].1));
    }
    Json::Obj(fs)
}

/// A four-window numeric record's wire form decodes back to the record it
/// came from.
pub proof fn lemma_timed_num_round_trip(t: TimedV<Seq<char>>, j: Json)
    requires
        timed_num_encoding(t, j),
    ensures
        spec_decode_timed_num(j) == Some(t),
{
}

// Liquidity
/// What a liquidity object decodes to, if anything.
pub open spec fn spec_decode_liquidity(j: Json) -> Option<LiquidityV> {
    match j {
        Json::Obj(fs) => match (spec_opt_num(obj_get(fs@, "usd"@)), spec_req_num(
            obj_get(fs@, "base"@),
        ), spec_req_num(obj_get(fs@, "quote"@))) {
            (Some(usd), Some(base), Some(quote)) => Some(LiquidityV { usd, base, quote }),
            _ => None,
        },
        _ => None,
    }
}

/// The wire form of a liquidity snapshot: the USD member is omitted
/// entirely when absent.
pub open spec fn liquidity_encoding(l: LiquidityV, j: Json) -> bool {
    &&& j matches Json::Obj(fs)
    &&& fs@.len() == (if l.usd is Some {
        3int
    } else {
        2int
    })
    &&& omitted_num_member(fs@, "usd"@, l.usd)
    &&& num_member(fs@, "base"@, l.base)
    &&& num_member(fs@, "quote"@, l.quote)
}

/// Decodes a liquidity object.
pub fn decode_liquidity(j: &Json) -> (r: Result<Liquidity, ClientError>)
    ensures
        match r {
            Ok(l) => spec_decode_liquidity(*j) == Some(l@),
            Err(e) => spec_decode_liquidity(*j) is None && e matches ClientError::Decode(_),
        },
{
    match j {
        Json::Obj(fs) => {
            let usd = match get_opt_num(fs, "usd") {
                Ok(v) => v,
                Err(e) => {
                    return Err(e);
                },
            };
            let base = match get_req_num(fs, "base") {
                Ok(v) => v,
                Err(e) => {
                    return Err(e);
                },
            };
            let quote = match get_req_num(fs, "quote") {
                Ok(v) => v,
                Err(e) => {
                    return Err(e);
                },
            };
            Ok(Liquidity { usd, base, quote })
        },
        _ => Err(decode_err("liquidity")),
    }
}

/// Encodes a liquidity snapshot into its wire form.
pub fn encode_liquidity(l: &Liquidity) -> (r: Json)
    ensures
        liquidity_encoding(l@, r),
{
    let mut fs: Vec<(String, Json)> = Vec::new();
    if let Some(u) = &l.usd {
        fs.push((String::from_str("usd"), Json::Num(u.clone())));
    }
    fs.push((String::from_str("base"), Json::Num(l.base.clone())));
    fs.push((String::from_str("quote"), Json::Num(l.quote.clone())));
    proof {
        reveal_strlit("usd");
        reveal_strlit("base");
        reveal_strlit("quote");
        assert("usd"@.len() == 3);
        assert("base"@.len() == 4);
        assert("quote"@.len() == 5);
        if l.usd is Some {
            assert(obj_get(fs@, "usd"@) == Some(fs@[0].1));
            assert(obj_get(fs@, "base"@) == Some(fs@[1].1));
            assert(obj_get(fs@, "quote"@) == Some(fs@[2].1));
        } else {
            assert(obj_get(fs@, "usd"@) is None);
            assert(obj_get(fs@, "base"@) == Some(fs@[0].1));
            assert(obj_get(fs@, "quote"@) == Some(fs@[1].1));
        }
    }
    Json::Obj(fs)
}

/// A liquidity snapshot's wire form decodes back to the snapshot it came
/// from, absent USD member and all.
pub proof fn lemma_liquidity_round_trip(l: LiquidityV, j: Json)
    requires
        liquidity_encoding(l, j),
    ensures
        spec_decode_liquidity(j) == Some(l),
{
}

// Labels: an ordered list of free-form strings.
/// What an array of labels decodes to: every element must be a string.
pub open spec fn spec_str_arr(elems: Seq<Json>) -> Option<Seq<Seq<char>>>
    decreases elems.len(),
{
    if elems.len() == 0 {
        Some(Seq::empty())
    } else {
        match (spec_str_arr(elems.drop_last()), elems.last()) {
            (Some(rest), Json::Str(s)) => Some(rest.push(s@)),
            _ => None,
        }
    }
}

/// What the labels member decodes to: a missing member is the empty list,
/// a present member must be an array of strings.
pub open spec fn spec_labels(o: Option<Json>) -> Option<Seq<Seq<char>>> {
    match o {
        None => Some(Seq::empty()),
        Some(Json::Arr(v)) => spec_str_arr(v@),
        Some(_) => None,
    }
}

/// The wire form of a label list: an array of the strings in order.
pub open spec fn labels_arr_encoding(ls: Seq<Seq<char>>, j: Json) -> bool {
    &&& j matches Json::Arr(v)
    &&& v@.len() == ls.len()
    &&& forall|i: int|
        0 <= i < ls.len() ==> ((#[trigger] v@[i]) matches Json::Str(s) && s@ == ls[i])
}

/// A string array in wire form decodes back to the strings it came from.
pub proof fn lemma_labels_round_trip(ls: Seq<Seq<char>>, elems: Seq<Json>)
    requires
        elems.len() == ls.len(),
        forall|i: int|
            0 <= i < ls.len() ==> ((#[trigger] elems[i]) matches Json::Str(s) && s@ == ls[i]),
    ensures
        spec_str_arr(elems) == Some(ls),
    decreases ls.len(),
{
    if ls.len() == 0 {
        assert(spec_str_arr(elems) == Some(Seq::<Seq<char>>::empty()));
        assert(Seq::<Seq<char>>::empty() =~= ls);
    } else {
        let pre = ls.drop_last();
        assert(forall|i: int|
            0 <= i < pre.len() ==> (#[trigger] elems.drop_last()[i]) == elems[i]);
        lemma_labels_round_trip(pre, elems.drop_last());
        assert(elems.last() matches Json::Str(s) && s@ == ls.last());
        assert(spec_str_arr(elems) == Some(pre.push(ls.last())));
        assert(pre.push(ls.last()) =~= ls);
    }
}

/// The elements of an array value.
pub open spec fn arr_elems(j: Json) -> Seq<Json> {
    match j {
        Json::Arr(v) => v@,
        _ => Seq::empty(),
    }
}

fn get_labels(fs: &Vec<(String, Json)>, k: &str) -> (r: Result<Vec<String>, ClientError>)
    ensures
        match r {
            Ok(v) => spec_labels(obj_get(fs@, k@)) == Some(v.deep_view()),
            Err(e) => spec_labels(obj_get(fs@, k@)) is None && e matches ClientError::Decode(_),
        },
{
    match obj_get_x(fs, k) {
        None => {
            let out: Vec<String> = Vec::new();
            proof {
                assert(out.deep_view() =~= Seq::<Seq<char>>::empty());
            }
            Ok(out)
        },
        Some(Json::Arr(v)) => {
            let mut out: Vec<String> = Vec::new();
            let n = v.len();
            let mut i: usize = 0;
            while i < n
                invariant
                    i <= n,
                    n == v@.len(),
                    spec_labels(obj_get(fs@, k@)) == spec_str_arr(v@),
                    spec_str_arr(v@.subrange(0, i as int)) == Some(out.deep_view()),
                decreases n - i,
            {
                let ghost pre = out.deep_view();
                match &v[i] {
                    Json::Str(s) => {
                        out.push(s.clone());
                    },
                    _ => {
                        proof {
                            lemma_str_arr_fail(v@, i as int);
                        }
                        return Err(decode_err(k));
                    },
                }
                proof {
                    let cur = v@.subrange(0, i as int + 1);
                    assert(cur.drop_last() =~= v@.subrange(0, i as int));
                    assert(cur.last() == v@[i as int]);
                    assert(out.deep_view() =~= pre.push(v@[i as int]->Str_0@));
                }
                i = i + 1;
            }
            proof {
                assert(v@.subrange(0, n as int) =~= v@);
            }
            Ok(out)
        },
        Some(_) => Err(decode_err(k)),
    }
}

/// An element that is not a string makes the whole label array fail to
/// decode.
proof fn lemma_str_arr_fail(elems: Seq<Json>, i: int)
    requires
        0 <= i < elems.len(),
        !(elems[i] matches Json::Str(s)),
    ensures
        spec_str_arr(elems) is None,
    decreases elems.len(),
{
    if elems.len() > 0 {
        if i < elems.len() - 1 {
            assert(elems.drop_last()[i] == elems[i]);
            lemma_str_arr_fail(elems.drop_last(), i);
        }
    }
}

/// Encodes a label list into its wire form.
pub fn encode_labels(ls: &Vec<String>) -> (r: Json)
    ensures
        labels_arr_encoding(ls.deep_view(), r),
{
    let mut out: Vec<Json> = Vec::new();
    let n = ls.len();
    let mut i: usize = 0;
    while i < n
        invariant
            i <= n,
            n == ls@.len(),
            out@.len() == i,
            forall|k: int|
                0 <= k < i ==> ((#[trigger] out@[k]) matches Json::Str(s) && s@
                    == ls.deep_view()[k]),
        decreases n - i,
    {
        out.push(Json::Str(ls[i].clone()));
        i = i + 1;
    }
    Json::Arr(out)
}

// Pair
/// What one member holding a token decodes to.
pub open spec fn spec_token_window(o: Option<Json>) -> Option<TokenV> {
    match o {
        Some(x) => spec_decode_token(x),
        None => None,
    }
}

/// What one member holding a four-window transaction record decodes to.
pub open spec fn spec_timed_txns_window(o: Option<Json>) -> Option<TimedV<Transactions>> {
    match o {
        Some(x) => spec_decode_timed_txns(x),
        None => None,
    }
}

/// What one member holding a four-window numeric record decodes to.
pub open spec fn spec_timed_num_window(o: Option<Json>) -> Option<TimedV<Seq<char>>> {
    match o {
        Some(x) => spec_decode_timed_num(x),
        None => None,
    }
}

/// What the optional liquidity member decodes to.
pub open spec fn spec_opt_liquidity(o: Option<Json>) -> Option<Option<LiquidityV>> {
    match o {
        None => Some(None),
        Some(Json::Null) => Some(None),
        Some(x) => match spec_decode_liquidity(x) {
            Some(l) => Some(Some(l)),
            None => None,
        },
    }
}

fn get_token(fs: &Vec<(String, Json)>, k: &str) -> (r: Result<Token, ClientError>)
    ensures
        match r {
            Ok(t) => spec_token_window(obj_get(fs@, k@)) == Some(t@),
            Err(e) => spec_token_window(obj_get(fs@, k@)) is None && e matches ClientError::Decode(
                _,
            ),
        },
{
    match obj_get_x(fs, k) {
        Some(x) => decode_token(x),
        None => Err(decode_err(k)),
    }
}

fn get_timed_txns(fs: &Vec<(String, Json)>, k: &str) -> (r: Result<Timed<Transactions>, ClientError>)
    ensures
        match r {
            Ok(t) => spec_timed_txns_window(obj_get(fs@, k@)) == Some(t@),
            Err(e) => spec_timed_txns_window(obj_get(fs@, k@)) is None && e matches
                ClientError::Decode(_),
        },
{
    match obj_get_x(fs, k) {
        Some(x) => decode_timed_txns(x),
        None => Err(decode_err(k)),
    }
}

fn get_timed_num(fs: &Vec<(String, Json)>, k: &str) -> (r: Result<Timed<String>, ClientError>)
    ensures
        match r {
            Ok(t) => spec_timed_num_window(obj_get(fs@, k@)) == Some(t@),
            Err(e) => spec_timed_num_window(obj_get(fs@, k@)) is None && e matches
                ClientError::Decode(_),
        },
{
    match obj_get_x(fs, k) {
        Some(x) => decode_timed_num(x),
        None => Err(decode_err(k)),
    }
}

fn get_opt_liquidity(fs: &Vec<(String, Json)>, k: &str) -> (r: Result<
    Option<Liquidity>,
    ClientError,
>)
    ensures
        match r {
            Ok(o) => spec_opt_liquidity(obj_get(fs@, k@)) == Some(
                match o {
                    Some(l) => Some(l@),
                    None => None,
                },
            ),
            Err(e) => spec_opt_liquidity(obj_get(fs@, k@)) is None && e matches
                ClientError::Decode(_),
        },
{
    match obj_get_x(fs, k) {
        None => Ok(None),
        Some(Json::Null) => Ok(None),
        Some(x) => match decode_liquidity(x) {
            Ok(l) => Ok(Some(l)),
            Err(e) => Err(e),
        },
    }
}

/// What the labels member of a pair decodes to.
pub open spec fn spec_labels_of(fs: Seq<(String, Json)>) -> Option<Seq<Seq<char>>> {
    spec_labels(obj_get(fs, "labels"@))
}

/// What a pair object decodes to, if anything: every required member must
/// fit its field, every optional member may be missing or null.
pub open spec fn spec_decode_pair(j: Json) -> Option<PairV> {
    match j {
        Json::Obj(fs) => match (spec_req_str(obj_get(fs@, "chainId"@)), spec_req_str(
            obj_get(fs@, "dexId"@),
        ), spec_req_str(obj_get(fs@, "url"@)), spec_labels_of(fs@), spec_req_str(
            obj_get(fs@, "pairAddress"@),
        )) {
            (Some(chain_id), Some(dex_id), Some(url), Some(labels), Some(pair_address)) => match (
                spec_token_window(obj_get(fs@, "baseToken"@)),
                spec_token_window(obj_get(fs@, "quoteToken"@)),
                spec_req_str(obj_get(fs@, "priceNative"@)),
                spec_opt_str(obj_get(fs@, "priceUsd"@)),
                spec_timed_txns_window(obj_get(fs@, "txns"@)),
            ) {
                (Some(base_token), Some(quote_token), Some(price_native), Some(price_usd), Some(
                    txns,
                )) => match (
                    spec_timed_num_window(obj_get(fs@, "volume"@)),
                    spec_timed_num_window(obj_get(fs@, "priceChange"@)),
                    spec_opt_liquidity(obj_get(fs@, "liquidity"@)),
                    spec_opt_num(obj_get(fs@, "fdv"@)),
                    spec_opt_u64(obj_get(fs@, "pairCreatedAt"@)),
                ) {
                    (Some(volume), Some(price_change), Some(liquidity), Some(fdv), Some(
                        pair_created_at,
                    )) => Some(
                        PairV {
                            chain_id,
                            dex_id,
                            url,
                            labels,
                            pair_address,
                            base_token,
                            quote_token,
                            price_native,
                            price_usd,
                            txns,
                            volume,
                            price_change,
                            liquidity,
                            fdv,
                            pair_created_at,
                        },
                    ),
                    _ => None,
                },
                _ => None,
            },
            _ => None,
        },
        _ => None,
    }
}

/// The member is a string when the value is present, and missing entirely
/// when absent.
pub open spec fn omitted_str_member(
    fs: Seq<(String, Json)>,
    k: Seq<char>,
    v: Option<Seq<char>>,
) -> bool {
    match v {
        Some(x) => str_member(fs, k, x),
        None => obj_get(fs, k) is None,
    }
}

/// The wire form of a pair: the four optional members at the tail are
/// omitted entirely when absent, the labels are always written.
pub open spec fn pair_encoding(p: PairV, j: Json) -> bool {
    &&& j matches Json::Obj(fs)
    &&& fs@.len() == 11 + (if p.price_usd is Some {
        1int
    } else {
        0int
    }) + (if p.liquidity is Some {
        1int
    } else {
        0int
    }) + (if p.fdv is Some {
        1int
    } else {
        0int
    }) + (if p.pair_created_at is Some {
        1int
    } else {
        0int
    })
    &&& str_member(fs@, "chainId"@, p.chain_id)
    &&& str_member(fs@, "dexId"@, p.dex_id)
    &&& str_member(fs@, "url"@, p.url)
    &&& obj_get(fs@, "labels"@) matches Some(x) && labels_arr_encoding(p.labels, x)
    &&& str_member(fs@, "pairAddress"@, p.pair_address)
    &&& obj_get(fs@, "baseToken"@) matches Some(x) && token_encoding(p.base_token, x)
    &&& obj_get(fs@, "quoteToken"@) matches Some(x) && token_encoding(p.quote_token, x)
    &&& str_member(fs@, "priceNative"@, p.price_native)
    &&& omitted_str_member(fs@, "priceUsd"@, p.price_usd)
    &&& obj_get(fs@, "txns"@) matches Some(x) && timed_txns_encoding(p.txns, x)
    &&& obj_get(fs@, "volume"@) matches Some(x) && timed_num_encoding(p.volume, x)
    &&& obj_get(fs@, "priceChange"@) matches Some(x) && timed_num_encoding(p.price_change, x)
    &&& (match p.liquidity {
        Some(l) => obj_get(fs@, "liquidity"@) matches Some(x) && liquidity_encoding(l, x),
        None => obj_get(fs@, "liquidity"@) is None,
    })
    &&& omitted_num_member(fs@, "fdv"@, p.fdv)
    &&& (match p.pair_created_at {
        Some(v) => u64_member(fs@, "pairCreatedAt"@, v),
        None => obj_get(fs@, "pairCreatedAt"@) is None,
    })
}

/// Decodes a pair object: succeeds exactly when every member fits the
/// field it names, and then yields the pair they denote.
pub fn decode_pair(j: &Json) -> (r: Result<Pair, ClientError>)
    ensures
        match r {
            Ok(p) => spec_decode_pair(*j) == Some(p@),
            Err(e) => spec_decode_pair(*j) is None && e matches ClientError::Decode(_),
        },
{
    match j {
        Json::Obj(fs) => {
            let chain_id = match get_req_str(fs, "chainId") {
                Ok(v) => v,
                Err(e) => {
                    return Err(e);
                },
            };
            let dex_id = match get_req_str(fs, "dexId") {
                Ok(v) => v,
                Err(e) => {
                    return Err(e);
                },
            };
            let url = match get_req_str(fs, "url") {
                Ok(v) => v,
                Err(e) => {
                    return Err(e);
                },
            };
            let labels = match get_labels(fs, "labels") {
                Ok(v) => v,
                Err(e) => {
                    return Err(e);
                },
            };
            let pair_address = match get_req_str(fs, "pairAddress") {
                Ok(v) => v,
                Err(e) => {
                    return Err(e);
                },
            };
            let base_token = match get_token(fs, "baseToken") {
                Ok(v) => v,
                Err(e) => {
                    return Err(e);
                },
            };
            let quote_token = match get_token(fs, "quoteToken") {
                Ok(v) => v,
                Err(e) => {
                    return Err(e);
                },
            };
            let price_native = match get_req_str(fs, "priceNative") {
                Ok(v) => v,
                Err(e) => {
                    return Err(e);
                },
            };
            let price_usd = match get_opt_str(fs, "priceUsd") {
                Ok(v) => v,
                Err(e) => {
                    return Err(e);
                },
            };
            let txns = match get_timed_txns(fs, "txns") {
                Ok(v) => v,
                Err(e) => {
                    return Err(e);
                },
            };
            let volume = match get_timed_num(fs, "volume") {
                Ok(v) => v,
                Err(e) => {
                    return Err(e);
                },
            };
            let price_change = match get_timed_num(fs, "priceChange") {
                Ok(v) => v,
                Err(e) => {
                    return Err(e);
                },
            };
            let liquidity = match get_opt_liquidity(fs, "liquidity") {
                Ok(v) => v,
                Err(e) => {
                    return Err(e);
                },
            };
            let fdv = match get_opt_num(fs, "fdv") {
                Ok(v) => v,
                Err(e) => {
                    return Err(e);
                },
            };
            let pair_created_at = match get_opt_u64(fs, "pairCreatedAt") {
                Ok(v) => v,
                Err(e) => {
                    return Err(e);
                },
            };
            Ok(
                Pair {
                    chain_id,
                    dex_id,
                    url,
                    labels,
                    pair_address,
                    base_token,
                    quote_token,
                    price_native,
                    price_usd,
                    txns,
                    volume,
                    price_change,
                    liquidity,
                    fdv,
                    pair_created_at,
                },
            )
        },
        _ => Err(decode_err("pair")),
    }
}

/// Encodes a pair into its wire form, omitting the absent optional
/// members.
pub fn encode_pair(p: &Pair) -> (r: Json)
    ensures
        pair_encoding(p@, r),
{
    let mut fs: Vec<(String, Json)> = Vec::new();
    fs.push((String::from_str("chainId"), Json::Str(p.chain_id.clone())));
    fs.push((String::from_str("dexId"), Json::Str(p.dex_id.clone())));
    fs.push((String::from_str("url"), Json::Str(p.url.clone())));
    fs.push((String::from_str("labels"), encode_labels(&p.labels)));
    fs.push((String::from_str("pairAddress"), Json::Str(p.pair_address.clone())));
    fs.push((String::from_str("baseToken"), encode_token(&p.base_token)));
    fs.push((String::from_str("quoteToken"), encode_token(&p.quote_token)));
    fs.push((String::from_str("priceNative"), Json::Str(p.price_native.clone())));
    if let Some(u) = &p.price_usd {
        fs.push((String::from_str("priceUsd"), Json::Str(u.clone())));
    }
    fs.push((String::from_str("txns"), encode_timed_txns(&p.txns)));
    fs.push((String::from_str("volume"), encode_timed_num(&p.volume)));
    fs.push((String::from_str("priceChange"), encode_timed_num(&p.price_change)));
    if let Some(l) = &p.liquidity {
        fs.push((String::from_str("liquidity"), encode_liquidity(l)));
    }
    if let Some(f) = &p.fdv {
        fs.push((String::from_str("fdv"), Json::Num(f.clone())));
    }
    if let Some(c) = &p.pair_created_at {
        fs.push((String::from_str("pairCreatedAt"), Json::Num(u64_to_dec(*c))));
    }
    proof {
        reveal_strlit("chainId");
        reveal_strlit("dexId");
        reveal_strlit("url");
        reveal_strlit("labels");
        reveal_strlit("pairAddress");
        reveal_strlit("baseToken");
        reveal_strlit("quoteToken");
        reveal_strlit("priceNative");
        reveal_strlit("priceUsd");
        reveal_strlit("txns");
        reveal_strlit("volume");
        reveal_strlit("priceChange");
        reveal_strlit("liquidity");
        reveal_strlit("fdv");
        reveal_strlit("pairCreatedAt");
        assert("chainId"@.len() == 7);
        assert("dexId"@.len() == 5);
        assert("url"@.len() == 3);
        assert("labels"@.len() == 6);
        assert("pairAddress"@.len() == 11);
        assert("baseToken"@.len() == 9);
        assert("quoteToken"@.len() == 10);
        assert("priceNative"@.len() == 11);
        assert("priceUsd"@.len() == 8);
        assert("txns"@.len() == 4);
        assert("volume"@.len() == 6);
        assert("priceChange"@.len() == 11);
        assert("liquidity"@.len() == 9);
        assert("fdv"@.len() == 3);
        assert("pairCreatedAt"@.len() == 13);
        assert("url"@[0] == 'u' && "fdv"@[0] == 'f');
        assert("labels"@[0] == 'l' && "volume"@[0] == 'v');
        assert("baseToken"@[0] == 'b' && "liquidity"@[0] == 'l');
        assert("pairAddress"@[1] == 'a' && "priceNative"@[1] == 'r' && "priceChange"@[1] == 'r');
        assert("priceNative"@[5] == 'N' && "priceChange"@[5] == 'C');
        assert(str_member(fs@, "chainId"@, p.chain_id@));
        assert(str_member(fs@, "dexId"@, p.dex_id@));
        assert(str_member(fs@, "url"@, p.url@));
        assert(obj_get(fs@, "labels"@) matches Some(x) && labels_arr_encoding(
            p.labels.deep_view(),
            x,
        ));
        assert(str_member(fs@, "pairAddress"@, p.pair_address@));
        assert(obj_get(fs@, "baseToken"@) matches Some(x) && token_encoding(p.base_token@, x));
        assert(obj_get(fs@, "quoteToken"@) matches Some(x) && token_encoding(p.quote_token@, x));
        assert(str_member(fs@, "priceNative"@, p.price_native@));
        assert(omitted_str_member(fs@, "priceUsd"@, opt_view(p.price_usd)));
        assert(obj_get(fs@, "txns"@) matches Some(x) && timed_txns_encoding(p.txns@, x));
        assert(obj_get(fs@, "volume"@) matches Some(x) && timed_num_encoding(p.volume@, x));
        assert(obj_get(fs@, "priceChange"@) matches Some(x) && timed_num_encoding(
            p.price_change@,
            x,
        ));
        assert(match p@.liquidity {
            Some(l) => obj_get(fs@, "liquidity"@) matches Some(x) && liquidity_encoding(l, x),
            None => obj_get(fs@, "liquidity"@) is None,
        });
        assert(omitted_num_member(fs@, "fdv"@, opt_view(p.fdv)));
        assert(match p@.pair_created_at {
            Some(v) => u64_member(fs@, "pairCreatedAt"@, v),
            None => obj_get(fs@, "pairCreatedAt"@) is None,
        });
    }
    Json::Obj(fs)
}

/// A pair's wire form decodes back to the pair it came from.
pub proof fn lemma_pair_round_trip(p: PairV, j: Json)
    requires
        pair_encoding(p, j),
    ensures
        spec_decode_pair(j) == Some(p),
{
    let fs = pair_members(j);
    lemma_labels_round_trip(p.labels, arr_elems(member_of(j, "labels"@)));
    lemma_token_round_trip(p.base_token, member_of(j, "baseToken"@));
    lemma_token_round_trip(p.quote_token, member_of(j, "quoteToken"@));
    lemma_timed_txns_round_trip(p.txns, member_of(j, "txns"@));
    lemma_timed_num_round_trip(p.volume, member_of(j, "volume"@));
    lemma_timed_num_round_trip(p.price_change, member_of(j, "priceChange"@));
    if p.liquidity is Some {
        lemma_liquidity_round_trip(p.liquidity.unwrap(), member_of(j, "liquidity"@));
    }
}

/// The member list of an object value.
pub open spec fn pair_members(j: Json) -> Seq<(String, Json)> {
    match j {
        Json::Obj(fs) => fs@,
        _ => Seq::empty(),
    }
}

// PairResponse
/// What an array of pairs decodes to: every element must decode.
pub open spec fn spec_decode_pairs(elems: Seq<Json>) -> Option<Seq<PairV>>
    decreases elems.len(),
{
    if elems.len() == 0 {
        Some(Seq::empty())
    } else {
        match (spec_decode_pairs(elems.drop_last()), spec_decode_pair(elems.last())) {
            (Some(rest), Some(p)) => Some(rest.push(p)),
            _ => None,
        }
    }
}

/// An element that does not decode makes the whole pair array fail.
proof fn lemma_pairs_fail(elems: Seq<Json>, i: int)
    requires
        0 <= i < elems.len(),
        spec_decode_pair(elems[i]) is None,
    ensures
        spec_decode_pairs(elems) is None,
    decreases elems.len(),
{
    if i < elems.len() - 1 {
        assert(elems.drop_last()[i] == elems[i]);
        lemma_pairs_fail(elems.drop_last(), i);
    }
}

/// What a response envelope decodes to, if anything: a missing or null
/// pairs member is the absent state, distinct from an empty array.
pub open spec fn spec_decode_pair_response(j: Json) -> Option<PairResponseV> {
    match j {
        Json::Obj(fs) => match obj_get(fs@, "pairs"@) {
            None => Some(PairResponseV { pairs: None }),
            Some(Json::Null) => Some(PairResponseV { pairs: None }),
            Some(Json::Arr(v)) => match spec_decode_pairs(v@) {
                Some(ps) => Some(PairResponseV { pairs: Some(ps) }),
                None => None,
            },
            Some(_) => None,
        },
        _ => None,
    }
}

/// The wire form of a response envelope: the pairs member is omitted
/// entirely when absent, and otherwise an array of encoded pairs in order.
pub open spec fn pair_response_encoding(pv: PairResponseV, j: Json) -> bool {
    &&& j matches Json::Obj(fs)
    &&& match pv.pairs {
        None => fs@.len() == 0,
        Some(ps) => {
            &&& fs@.len() == 1
            &&& obj_get(fs@, "pairs"@) matches Some(Json::Arr(v)) && v@.len() == ps.len() && (
            forall|i: int| 0 <= i < ps.len() ==> pair_encoding(ps[i], #[trigger] v@[i]))
        },
    }
}

/// What a response whose pairs member holds these elements decodes to.
pub open spec fn spec_arr_response(elems: Seq<Json>) -> Option<PairResponseV> {
    match spec_decode_pairs(elems) {
        Some(ps) => Some(PairResponseV { pairs: Some(ps) }),
        None => None,
    }
}

/// Decodes a response envelope.
pub fn decode_pair_response(j: &Json) -> (r: Result<PairResponse, ClientError>)
    ensures
        match r {
            Ok(t) => spec_decode_pair_response(*j) == Some(t@),
            Err(e) => spec_decode_pair_response(*j) is None && e matches ClientError::Decode(_),
        },
{
    match j {
        Json::Obj(fs) => match obj_get_x(fs, "pairs") {
            None => Ok(PairResponse { pairs: None }),
            Some(Json::Null) => Ok(PairResponse { pairs: None }),
            Some(Json::Arr(v)) => {
                let n = v.len();
                let mut out: Vec<Pair> = Vec::new();
                let mut i: usize = 0;
                proof {
                    assert(v@.subrange(0, 0) =~= Seq::<Json>::empty());
                    assert(out@.map_values(|p: Pair| p@) =~= Seq::<PairV>::empty());
                }
                while i < n
                    invariant
                        i <= n,
                        n == v@.len(),
                        spec_decode_pair_response(*j) == spec_arr_response(v@),
                        spec_decode_pairs(v@.subrange(0, i as int)) == Some(
                            out@.map_values(|p: Pair| p@),
                        ),
                    decreases n - i,
                {
                    match decode_pair(&v[i]) {
                        Ok(p) => {
                            let ghost pre = out@.map_values(|q: Pair| q@);
                            out.push(p);
                            proof {
                                let cur = v@.subrange(0, i as int + 1);
                                assert(cur.drop_last() =~= v@.subrange(0, i as int));
                                assert(cur.last() == v@[i as int]);
                                assert(out@.map_values(|q: Pair| q@) =~= pre.push(p@));
                            }
                        },
                        Err(e) => {
                            proof {
                                lemma_pairs_fail(v@, i as int);
                            }
                            return Err(e);
                        },
                    }
                    i = i + 1;
                }
                proof {
                    assert(v@.subrange(0, n as int) =~= v@);
                }
                Ok(PairResponse { pairs: Some(out) })
            },
            Some(_) => Err(decode_err("pairs")),
        },
        _ => Err(decode_err("response")),
    }
}

/// Encodes a response envelope into its wire form.
pub fn encode_pair_response(p: &PairResponse) -> (r: Json)
    ensures
        pair_response_encoding(p@, r),
{
    match &p.pairs {
        None => {
            let fs: Vec<(String, Json)> = Vec::new();
            Json::Obj(fs)
        },
        Some(ps) => {
            let mut arr: Vec<Json> = Vec::new();
            let n = ps.len();
            let mut i: usize = 0;
            while i < n
                invariant
                    i <= n,
                    n == ps@.len(),
                    arr@.len() == i,
                    forall|k: int|
                        0 <= k < i ==> pair_encoding(ps@.map_values(|q: Pair| q@)[k], #[trigger] arr@[k]),
                decreases n - i,
            {
                let ghost before = arr@;
                let e = encode_pair(&ps[i]);
                arr.push(e);
                proof {
                    assert(ps@.map_values(|q: Pair| q@)[i as int] == ps@[i as int]@);
                }
                i = i + 1;
            }
            let mut fs: Vec<(String, Json)> = Vec::new();
            fs.push((String::from_str("pairs"), Json::Arr(arr)));
            proof {
                reveal_strlit("pairs");
                assert("pairs"@.len() == 5);
                assert(obj_get(fs@, "pairs"@) == Some(fs@[0].1));
            }
            Json::Obj(fs)
        },
    }
}

/// An encoded pair array decodes back to the pairs it came from.
proof fn lemma_pairs_round_trip(ps: Seq<PairV>, elems: Seq<Json>)
    requires
        elems.len() == ps.len(),
        forall|i: int| 0 <= i < ps.len() ==> pair_encoding(ps[i], #[trigger] elems[i]),
    ensures
        spec_decode_pairs(elems) == Some(ps),
    decreases ps.len(),
{
    if ps.len() == 0 {
        assert(spec_decode_pairs(elems) == Some(Seq::<PairV>::empty()));
        assert(Seq::<PairV>::empty() =~= ps);
    } else {
        assert(forall|i: int|
            0 <= i < ps.len() - 1 ==> pair_encoding(ps.drop_last()[i], #[trigger] elems.drop_last()[i]));
        lemma_pairs_round_trip(ps.drop_last(), elems.drop_last());
        lemma_pair_round_trip(ps.last(), elems.last());
        assert(spec_decode_pairs(elems) == Some(ps.drop_last().push(ps.last())));
        assert(ps.drop_last().push(ps.last()) =~= ps);
    }
}

/// A response envelope's wire form decodes back to the envelope it came
/// from: encoding and then decoding is the identity, and the absent pairs
/// state survives the trip distinct from an empty array.
pub proof fn lemma_pair_response_round_trip(pv: PairResponseV, j: Json)
    requires
        pair_response_encoding(pv, j),
    ensures
        spec_decode_pair_response(j) == Some(pv),
{
    match pv.pairs {
        None => {
            let fs = pair_members(j);
            assert(obj_get(fs, "pairs"@) is None);
        },
        Some(ps) => {
            let fs = pair_members(j);
            assert(obj_get(fs, "pairs"@) matches Some(Json::Arr(v)));
            lemma_pairs_round_trip(ps, arr_elems(member_of(j, "pairs"@)));
        },
    }
}

} // verus!
