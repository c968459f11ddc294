//! Analysis of a single token.

pub mod flag_tags;
pub mod honeypot_checker;
pub mod scoring_proofs;
pub mod token_analyzer;
pub mod whale_analyzer;
