//! Sources of newly listed tokens.

pub mod dex_screener;
pub mod pump_fun;
pub mod whale_tracker;
