use vstd::prelude::*;

verus! {

/// One token of a pair: the address and display name may be absent (a
/// native asset has no contract address), the symbol is always present.
#[derive(Debug, Clone, PartialEq, Eq)]
pub struct Token {
    pub address: Option<String>,
    pub name: Option<String>,
    pub symbol: String,
}

/// Buy and sell counts over one time window.
#[derive(Debug, Clone, Copy, PartialEq, Eq)]
pub struct Transactions {
    pub buys: u64,
    pub sells: u64,
}

/// One value per fixed aggregation window: 5 minutes, 1 hour, 6 hours and
/// 24 hours. All four windows are always present; a record missing one is
/// not a valid domain state.
#[derive(Debug, Clone, PartialEq, Eq)]
pub struct Timed<T> {
    pub m5: T,
    pub h1: T,
    pub h6: T,
    pub h24: T,
}

/// Pooled value backing a pair. Numeric amounts keep the exact decimal text
/// the source reported; the USD value may be absent.
#[derive(Debug, Clone, PartialEq, Eq)]
pub struct Liquidity {
    pub usd: Option<String>,
    pub base: String,
    pub quote: String,
}

/// One trading-pair snapshot. Prices, volumes and other numeric readings
/// keep the exact decimal text the source reported.
#[derive(Debug, Clone, PartialEq, Eq)]
pub struct Pair {
    pub chain_id: String,
    pub dex_id: String,
    pub url: String,
    pub labels: Vec<String>,
    pub pair_address: String,
    pub base_token: Token,
    pub quote_token: Token,
    pub price_native: String,
    pub price_usd: Option<String>,
    pub txns: Timed<Transactions>,
    pub volume: Timed<String>,
    pub price_change: Timed<String>,
    pub liquidity: Option<Liquidity>,
    pub fdv: Option<String>,
    pub pair_created_at: Option<u64>,
}

/// The top-level envelope: the matches, or nothing at all when the source
/// reported no match (which is distinct from an empty list of matches).
#[derive(Debug, Clone, PartialEq, Eq)]
pub struct PairResponse {
    pub pairs: Option<Vec<Pair>>,
}

/// The mathematical value of a `Token`.
pub ghost struct TokenV {
    pub address: Option<Seq<char>>,
    pub name: Option<Seq<char>>,
    pub symbol: Seq<char>,
}

/// The mathematical value of a `Timed<T>`.
pub ghost struct TimedV<T> {
    pub m5: T,
    pub h1: T,
    pub h6: T,
    pub h24: T,
}

/// The mathematical value of a `Liquidity`.
pub ghost struct LiquidityV {
    pub usd: Option<Seq<char>>,
    pub base: Seq<char>,
    pub quote: Seq<char>,
}

/// The mathematical value of a `Pair`.
pub ghost struct PairV {
    pub chain_id: Seq<char>,
    pub dex_id: Seq<char>,
    pub url: Seq<char>,
    pub labels: Seq<Seq<char>>,
    pub pair_address: Seq<char>,
    pub base_token: TokenV,
    pub quote_token: TokenV,
    pub price_native: Seq<char>,
    pub price_usd: Option<Seq<char>>,
    pub txns: TimedV<Transactions>,
    pub volume: TimedV<Seq<char>>,
    pub price_change: TimedV<Seq<char>>,
    pub liquidity: Option<LiquidityV>,
    pub fdv: Option<Seq<char>>,
    pub pair_created_at: Option<u64>,
}

/// The mathematical value of a `PairResponse`.
pub ghost struct PairResponseV {
    pub pairs: Option<Seq<PairV>>,
}

/// The view of an optional string: the character sequence when present.
pub open spec fn opt_view(o: Option<String>) -> Option<Seq<char>> {
    match o {
        Some(s) => Some(s@),
        None => None,
    }
}

impl View for Token {
    type V = TokenV;

    open spec fn view(&self) -> TokenV {
        TokenV {
            address: opt_view(self.address),
            name: opt_view(self.name),
            symbol: self.symbol@,
        }
    }
}

impl View for Transactions {
    type V = Transactions;

    open spec fn view(&self) -> Transactions {
        *self
    }
}

impl<T: View> View for Timed<T> {
    type V = TimedV<T::V>;

    open spec fn view(&self) -> TimedV<T::V> {
        TimedV { m5: self.m5@, h1: self.h1@, h6: self.h6@, h24: self.h24@ }
    }
}

impl View for Liquidity {
    type V = LiquidityV;

    open spec fn view(&self) -> LiquidityV {
        LiquidityV { usd: opt_view(self.usd), base: self.base@, quote: self.quote@ }
    }
}

impl View for Pair {
    type V = PairV;

    open spec fn view(&self) -> PairV {
        PairV {
            chain_id: self.chain_id@,
            dex_id: self.dex_id@,
            url: self.url@,
            labels: self.labels.deep_view(),
            pair_address: self.pair_address@,
            base_token: self.base_token@,
            quote_token: self.quote_token@,
            price_native: self.price_native@,
            price_usd: opt_view(self.price_usd),
            txns: self.txns@,
            volume: self.volume@,
            price_change: self.price_change@,
            liquidity: match self.liquidity {
                Some(l) => Some(l@),
                None => None,
            },
            fdv: opt_view(self.fdv),
            pair_created_at: self.pair_created_at,
        }
    }
}

impl View for PairResponse {
    type V = PairResponseV;

    open spec fn view(&self) -> PairResponseV {
        PairResponseV {
            pairs: match self.pairs {
                Some(v) => Some(v@.map_values(|p: Pair| p@)),
                None => None,
            },
        }
    }
}

} // verus!
