//! The rules that close open positions.

pub mod position;
pub mod profit_taking;
pub mod risk_management;
