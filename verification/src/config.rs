//! Settings of the engine.

use crate::decimal::Dec;
use vstd::prelude::*;

verus! {

/// The whole configuration.
#[derive(Debug, Clone)]
pub struct Config {
    pub database_url: String,
    pub telegram_token: String,
    pub telegram_chat_id: i64,
    pub dex_screener_api_key: Option<String>,
    pub birdeye_api_key: Option<String>,
    pub twitter_bearer_token: Option<String>,
    pub trading: TradingConfig,
    pub scan_intervals: ScanIntervals,
}

/// Thresholds of the scoring model and of the trade rules. An amount that is
/// `None` was configured as a number that has no decimal form; each consumer
/// then falls back on its own default.
#[derive(Debug, Clone)]
pub struct TradingConfig {
    /// Minimum liquidity required, in USD.
    pub min_liquidity_usd: Option<Dec>,
    /// Maximum percentage of the supply held by the top holders.
    pub max_top_holder_percentage: Option<Dec>,
    /// Minimum number of holders.
    pub min_holders: u32,
    /// Profit targets, as multiples of the entry price, ascending.
    pub profit_targets: Vec<Option<Dec>>,
    /// Loss, as a fraction of the entry price, at which a position is closed.
    pub stop_loss: Option<Dec>,
    /// Maximum investment per token, in USD.
    pub max_investment_usd: Option<Dec>,
}

/// Seconds between two scans of each source.
#[derive(Debug, Clone)]
pub struct ScanIntervals {
    pub dex_screener: u64,
    pub pump_fun: u64,
    pub whale_tracking: u64,
    pub twitter_monitoring: u64,
}

} // verus!
