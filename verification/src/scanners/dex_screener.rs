//! Discovery of tokens through DEX Screener: which listings to keep, how to
//! go through the endpoints, and the records made of a listing.

use crate::decimal::Dec;
use crate::models::{Token, TokenMetrics};
use crate::text::same_text;
use vstd::prelude::*;
use vstd::string::*;

verus! {

/// At most this many listings are taken from one scan.
pub const MAX_TOKENS_PER_SCAN: usize = 10;

/// How often one endpoint is tried.
pub const ATTEMPTS_PER_ENDPOINT: u32 = 2;

/// The number of endpoints.
pub const ENDPOINT_COUNT: usize = 8;

/// Whether listings on `chain` are followed.
pub open spec fn spec_supported_chain(chain: Seq<char>) -> bool {
    ||| chain == "solana"@
    ||| chain == "ethereum"@
    ||| chain == "bsc"@
    ||| chain == "polygon"@
    ||| chain == "arbitrum"@
    ||| chain == "avalanche"@
    ||| chain == "pulsechain"@
}

/// Whether listings on `chain` are followed.
pub fn is_supported_chain(chain: &str) -> (supported: bool)
    ensures
        supported == spec_supported_chain(chain@),
{
    same_text(chain, "solana") || same_text(chain, "ethereum") || same_text(chain, "bsc")
        || same_text(chain, "polygon") || same_text(chain, "arbitrum") || same_text(
        chain,
        "avalanche",
    ) || same_text(chain, "pulsechain")
}

/// What a listing's figures say against it. Each is `true` where the figure
/// is known and out of bounds.
#[derive(Debug, Clone, Copy, PartialEq, Eq, Structural)]
pub struct ListingWarnings {
    /// The price moved by more than 1000% within a day, up or down.
    pub extreme_price_change: bool,
    /// The liquidity is under 100 USD.
    pub negligible_liquidity: bool,
    /// The day's volume is under 10 USD.
    pub negligible_volume: bool,
}

/// Whether a listing is worth following: it is on a supported chain, its
/// symbol takes at most 20 bytes and its name at most 50, and none of the
/// warnings holds.
pub open spec fn spec_should_track(
    chain: &str,
    symbol: &str,
    name: &str,
    warnings: ListingWarnings,
) -> bool {
    &&& spec_supported_chain(chain@)
    &&& symbol.len() <= 20
    &&& name.len() <= 50
    &&& !warnings.extreme_price_change
    &&& !warnings.negligible_liquidity
    &&& !warnings.negligible_volume
}

/// Whether a listing is worth following.
pub fn should_track_token(
    chain: &str,
    symbol: &str,
    name: &str,
    warnings: ListingWarnings,
) -> (track: bool)
    ensures
        track == spec_should_track(chain, symbol, name, warnings),
{
    if !is_supported_chain(chain) {
        return false;
    }
    if symbol.len() > 20 || name.len() > 50 {
        return false;
    }
    if warnings.extreme_price_change {
        return false;
    }
    if warnings.negligible_liquidity {
        return false;
    }
    if warnings.negligible_volume {
        return false;
    }
    true
}

/// What a status other than success means.
pub open spec fn spec_status_explanation(status: u16) -> Seq<char> {
    if status == 429 {
        "Rate limited - too many requests"@
    } else if status == 403 {
        "Forbidden - possible geographic restriction"@
    } else if status == 404 {
        "Endpoint not found"@
    } else if 500 <= status <= 599 {
        "Server error"@
    } else {
        "Unknown error"@
    }
}

/// What a status other than success means.
pub fn status_explanation(status: u16) -> (explanation: &'static str)
    ensures
        explanation@ == spec_status_explanation(status),
{
    if status == 429 {
        "Rate limited - too many requests"
    } else if status == 403 {
        "Forbidden - possible geographic restriction"
    } else if status == 404 {
        "Endpoint not found"
    } else if 500 <= status && status <= 599 {
        "Server error"
    } else {
        "Unknown error"
    }
}

/// The name of the endpoint at `index`.
pub open spec fn spec_endpoint_name(index: int) -> Seq<char> {
    if index == 0 {
        "trending"@
    } else if index == 1 {
        "search_sol"@
    } else if index == 2 {
        "search_eth"@
    } else if index == 3 {
        "search_bnb"@
    } else if index == 4 {
        "search_usdc"@
    } else if index == 5 {
        "search_wbtc"@
    } else if index == 6 {
        "search_solana"@
    } else {
        "search_ethereum"@
    }
}

/// The address of the endpoint at `index`.
pub open spec fn spec_endpoint_url(index: int) -> Seq<char> {
    if index == 0 {
        "https://api.dexscreener.com/latest/dex/tokens/trending"@
    } else if index == 1 {
        "https://api.dexscreener.com/latest/dex/search?q=SOL"@
    } else if index == 2 {
        "https://api.dexscreener.com/latest/dex/search?q=ETH"@
    } else if index == 3 {
        "https://api.dexscreener.com/latest/dex/search?q=BNB"@
    } else if index == 4 {
        "https://api.dexscreener.com/latest/dex/search?q=USDC"@
    } else if index == 5 {
        "https://api.dexscreener.com/latest/dex/search?q=WBTC"@
    } else if index == 6 {
        "https://api.dexscreener.com/latest/dex/search?q=solana"@
    } else {
        "https://api.dexscreener.com/latest/dex/search?q=ethereum"@
    }
}

/// The name and the address of the endpoint at `index`, in the order in
/// which the endpoints are tried.
pub fn endpoint(index: usize) -> (entry: (&'static str, &'static str))
    requires
        index < ENDPOINT_COUNT,
    ensures
        entry.0@ == spec_endpoint_name(index as int),
        entry.1@ == spec_endpoint_url(index as int),
{
    if index == 0 {
        ("trending", "https://api.dexscreener.com/latest/dex/tokens/trending")
    } else if index == 1 {
        ("search_sol", "https://api.dexscreener.com/latest/dex/search?q=SOL")
    } else if index == 2 {
        ("search_eth", "https://api.dexscreener.com/latest/dex/search?q=ETH")
    } else if index == 3 {
        ("search_bnb", "https://api.dexscreener.com/latest/dex/search?q=BNB")
    } else if index == 4 {
        ("search_usdc", "https://api.dexscreener.com/latest/dex/search?q=USDC")
    } else if index == 5 {
        ("search_wbtc", "https://api.dexscreener.com/latest/dex/search?q=WBTC")
    } else if index == 6 {
        ("search_solana", "https://api.dexscreener.com/latest/dex/search?q=solana")
    } else {
        ("search_ethereum", "https://api.dexscreener.com/latest/dex/search?q=ethereum")
    }
}

/// How one attempt at an endpoint ended.
#[derive(Debug, Clone, Copy, PartialEq, Eq, Structural)]
pub enum AttemptOutcome {
    /// The endpoint answered with this many listings worth following.
    Listings(usize),
    /// The attempt failed.
    Failed,
}

/// What to do after an attempt at an endpoint.
#[derive(Debug, Clone, Copy, PartialEq, Eq, Structural)]
pub enum FetchStep {
    /// Take the first `count` listings of the answer and stop.
    Take { count: usize },
    /// Wait, then try the same endpoint again; this will be attempt
    /// number `attempt`.
    Retry { attempt: u32 },
    /// Go on to the endpoint at `index`, starting with its first attempt.
    NextEndpoint { index: usize },
    /// No endpoint is left: the scan has found nothing.
    GiveUp,
}

/// The step after attempt number `attempt` (counted from 1) at the endpoint
/// at `index`.
///
/// An answer with listings ends the scan with at most ten of them. An empty
/// answer moves on to the next endpoint at once. A failure is retried while
/// attempts are left, and moves on after the last. After the last endpoint
/// the scan gives up.
pub open spec fn spec_next_step(index: usize, attempt: u32, outcome: AttemptOutcome) -> FetchStep {
    match outcome {
        AttemptOutcome::Listings(count) if count > 0 => FetchStep::Take {
            count: if count <= MAX_TOKENS_PER_SCAN {
                count
            } else {
                MAX_TOKENS_PER_SCAN
            },
        },
        AttemptOutcome::Failed if attempt < ATTEMPTS_PER_ENDPOINT => FetchStep::Retry {
            attempt: (attempt + 1) as u32,
        },
        _ => if index + 1 < ENDPOINT_COUNT {
            FetchStep::NextEndpoint { index: (index + 1) as usize }
        } else {
            FetchStep::GiveUp
        },
    }
}

/// The step after attempt number `attempt` at the endpoint at `index`.
pub fn next_step(index: usize, attempt: u32, outcome: AttemptOutcome) -> (step: FetchStep)
    ensures
        step == spec_next_step(index, attempt, outcome),
        step matches FetchStep::Take { count } ==> 0 < count <= MAX_TOKENS_PER_SCAN,
        step matches FetchStep::NextEndpoint { index: next } ==> next < ENDPOINT_COUNT,
{
    match outcome {
        AttemptOutcome::Listings(count) => {
            if count > 0 {
                let taken = if count <= MAX_TOKENS_PER_SCAN {
                    count
                } else {
                    MAX_TOKENS_PER_SCAN
                };
                return FetchStep::Take { count: taken };
            }
        },
        AttemptOutcome::Failed => {
            if attempt < ATTEMPTS_PER_ENDPOINT {
                return FetchStep::Retry { attempt: attempt + 1 };
            }
        },
    }
    if index < ENDPOINT_COUNT - 1 {
        FetchStep::NextEndpoint { index: index + 1 }
    } else {
        FetchStep::GiveUp
    }
}

/// The record of a token that was found in a listing at the time `now`.
pub fn token_from_listing(
    address: &str,
    symbol: &str,
    name: &str,
    chain: &str,
    now: i64,
) -> (token: Token)
    ensures
        token.id is None,
        token.address@ == address@,
        token.symbol@ == symbol@,
        token.name@ == name@,
        token.chain@ == chain@,
        token.source@ == "dex_screener"@,
        token.created_at == now,
        token.first_seen == now,
        token.is_active,
{
    Token {
        id: None,
        address: String::from_str(address),
        symbol: String::from_str(symbol),
        name: String::from_str(name),
        chain: String::from_str(chain),
        source: String::from_str("dex_screener"),
        created_at: now,
        first_seen: now,
        is_active: true,
    }
}

/// The metrics that a listing gives at the time `now`: price, market
/// capitalisation, liquidity and a day's volume. Everything else is
/// unknown.
pub fn convert_to_metrics(
    address: &str,
    now: i64,
    price_usd: Option<Dec>,
    market_cap_usd: Option<Dec>,
    liquidity_usd: Option<Dec>,
    volume_24h_usd: Option<Dec>,
) -> (metrics: TokenMetrics)
    ensures
        metrics.id is None,
        metrics.token_address@ == address@,
        metrics.timestamp == now,
        metrics.price_usd == price_usd,
        metrics.market_cap_usd == market_cap_usd,
        metrics.liquidity_usd == liquidity_usd,
        metrics.volume_24h_usd == volume_24h_usd,
        metrics.total_supply is None,
        metrics.circulating_supply is None,
        metrics.holder_count is None,
        metrics.top_10_holders_percentage is None,
        metrics.is_honeypot is None,
        metrics.is_mintable is None,
        metrics.has_proxy is None,
        metrics.contract_verified is None,
{
    TokenMetrics {
        id: None,
        token_address: String::from_str(address),
        timestamp: now,
        price_usd,
        market_cap_usd,
        liquidity_usd,
        volume_24h_usd,
        total_supply: None,
        circulating_supply: None,
        holder_count: None,
        top_10_holders_percentage: None,
        is_honeypot: None,
        is_mintable: None,
        has_proxy: None,
        contract_verified: None,
    }
}

} // verus!
