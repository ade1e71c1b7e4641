use vstd::prelude::*;

pub mod address;
pub mod codec;
pub mod digits;
pub mod error;
pub mod json;
pub mod model;

pub use address::format_address;
pub use address::format_addresses;
pub use codec::decode_liquidity;
pub use codec::decode_pair;
pub use codec::decode_pair_response;
pub use codec::decode_timed_num;
pub use codec::decode_timed_txns;
pub use codec::decode_token;
pub use codec::decode_txns;
pub use codec::encode_liquidity;
pub use codec::encode_pair;
pub use codec::encode_pair_response;
pub use codec::encode_timed_num;
pub use codec::encode_timed_txns;
pub use codec::encode_token;
pub use codec::encode_txns;
pub use digits::parse_u64;
pub use digits::u64_to_dec;
pub use error::ClientError;
pub use json::Json;
pub use model::Liquidity;
pub use model::Pair;
pub use model::PairResponse;
pub use model::Timed;
pub use model::Token;
pub use model::Transactions;

verus! {

/// The production API root that clients default to.
pub const BASE_URL: &'static str = "https://api.dexscreener.com/latest/";

} // verus!
