//! Risk scoring of freshly listed tokens and the lifecycle of simulated
//! trades: an additive point model over point-in-time market metrics, the
//! signal built from a score, and the rules that close an open position.

pub mod analyzers;
pub mod clock;
pub mod config;
pub mod decimal;
pub mod models;
pub mod scanners;
pub mod strategies;
pub mod telegram;
pub mod text;
pub mod utils;
