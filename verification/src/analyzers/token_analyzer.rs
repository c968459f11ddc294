//! The scoring model: six factors add points to a neutral base of 50 and
//! raise flags; risk level, safety, recommendation and the expected multiple
//! follow from the total and the flags.

use crate::analyzers::flag_tags::{
    lemma_few_holders_flag_tags, lemma_insufficient_data_flag_tags, lemma_liquidity_tags,
    lemma_low_volume_flag_tags, lemma_security_tags, lemma_tags_of_concat,
    lemma_tags_of_flag_if, lemma_tags_of_one, lemma_very_new_flag_tags,
    lemma_whale_dominated_flag_tags, tags, Tags,
};
use crate::config::TradingConfig;
use crate::decimal::{whole, Dec};
use crate::models::{
    AnalysisResult, AnalysisResultView, Recommendation, RiskLevel, SignalType, SimulatedTrade,
    SimulatedTradeView, Token, TokenMetrics, TradingSignal, TradingSignalView,
};
use crate::text::{
    any_contains, append_digits, decimal_digits, join, push_owned, push_text, spec_any_contains,
    spec_join,
};
use vstd::prelude::*;
use vstd::string::*;

verus! {

/// Nanoseconds in an hour.
pub const HOUR: i64 = 3_600_000_000_000;

/// Nanoseconds in a day.
pub const DAY: i64 = 86_400_000_000_000;

/// Nanoseconds in a week.
pub const WEEK: i64 = 604_800_000_000_000;

/// Why an analysis could not be completed.
#[derive(Debug, Clone, Copy, PartialEq, Eq, Structural)]
pub enum AnalysisError {
    /// Volume and liquidity are both known, but their ratio is not a
    /// decimal: the liquidity is zero, or the quotient is out of range.
    UndefinedVolumeRatio,
    /// The score divided by 100 is not a decimal.
    UndefinedConfidence,
}

/// The flag raised when liquidity is below the configured minimum.
pub open spec fn low_liquidity_flag() -> Seq<char> {
    "🚨 LOW_LIQUIDITY: May be hard to sell"@
}

/// The flag raised when liquidity is unknown.
pub open spec fn unknown_liquidity_flag() -> Seq<char> {
    "❓ UNKNOWN_LIQUIDITY: Could not determine liquidity"@
}

/// The flag raised when there are fewer holders than the configured minimum.
pub open spec fn few_holders_flag(holders: u32) -> Seq<char> {
    "👥 FEW_HOLDERS: Only "@ + decimal_digits(holders as nat) + " holders (risky)"@
}

/// The flag raised when the ten largest holders own more than 60%.
pub open spec fn whale_dominated_flag(top: Dec) -> Seq<char> {
    "🐋 WHALE_DOMINATED: Top 10 holders own "@ + top.spec_text() + "%"@
}

/// The flag raised when a day's volume is under a tenth of the liquidity.
pub open spec fn low_volume_flag() -> Seq<char> {
    "📈 LOW_VOLUME: Very little trading activity"@
}

/// The flag raised when the contract's code is not verified.
pub open spec fn unverified_contract_flag() -> Seq<char> {
    "🔒 UNVERIFIED_CONTRACT: Cannot audit contract code"@
}

/// The flag raised when the token cannot be sold.
pub open spec fn honeypot_flag() -> Seq<char> {
    "🍯 HONEYPOT_DETECTED: Cannot sell tokens!"@
}

/// The flag raised when new tokens can be minted.
pub open spec fn mintable_flag() -> Seq<char> {
    "🏭 MINTABLE_TOKEN: Supply can be increased"@
}

/// The flag raised when the contract sits behind a proxy.
pub open spec fn proxy_flag() -> Seq<char> {
    "🔄 PROXY_CONTRACT: Contract can be upgraded/changed"@
}

/// The flag raised when the token was first seen less than an hour ago.
pub open spec fn very_new_flag() -> Seq<char> {
    "🆕 VERY_NEW: Less than 1 hour old"@
}

/// The flag raised when there are no metrics to score.
pub open spec fn insufficient_data_flag() -> Seq<char> {
    "❓ INSUFFICIENT_DATA: Cannot analyze properly"@
}

/// `flag` where `raised` holds, nothing otherwise.
pub open spec fn flag_if(raised: bool, flag: Seq<char>) -> Seq<Seq<char>> {
    if raised {
        seq![flag]
    } else {
        Seq::empty()
    }
}

/// Points for the count of holders.
pub open spec fn holder_count_points(min_holders: u32, holders: Option<u32>) -> int {
    match holders {
        Some(h) => if h >= 10000 {
            10
        } else if h >= 5000 {
            8
        } else if h >= 1000 {
            6
        } else if h >= min_holders {
            4
        } else {
            -5
        },
        None => 0,
    }
}

/// Whether the count of holders is known and too low.
pub open spec fn few_holders(min_holders: u32, holders: Option<u32>) -> bool {
    holders matches Some(h) && h < 1000 && h < min_holders
}

/// Points for the share of the ten largest holders, in percent.
pub open spec fn concentration_points(top: Option<Dec>) -> int {
    match top {
        Some(t) => if t.spec_le(whole(20)) {
            10
        } else if t.spec_le(whole(40)) {
            7
        } else if t.spec_le(whole(60)) {
            4
        } else {
            -10
        },
        None => 0,
    }
}

/// Whether the share of the ten largest holders is known and above 60%.
pub open spec fn whale_dominated(top: Option<Dec>) -> bool {
    top matches Some(t) && !t.spec_le(whole(20)) && !t.spec_le(whole(40)) && !t.spec_le(whole(60))
}

/// Points for the ratio of a day's volume to the liquidity.
pub open spec fn volume_points(ratio: Option<Dec>) -> int {
    match ratio {
        Some(r) => if r.spec_ge(whole(2)) {
            15
        } else if r.spec_ge(whole(1)) {
            12
        } else if r.spec_ge(Dec::spec_new(5, 1)) {
            8
        } else if r.spec_ge(Dec::spec_new(1, 1)) {
            5
        } else {
            -5
        },
        None => 0,
    }
}

/// Whether the ratio of volume to liquidity is known and under a tenth.
pub open spec fn low_volume(ratio: Option<Dec>) -> bool {
    ratio matches Some(r) && !r.spec_ge(whole(2)) && !r.spec_ge(whole(1)) && !r.spec_ge(
        Dec::spec_new(5, 1),
    ) && !r.spec_ge(Dec::spec_new(1, 1))
}

/// The ratio of a day's volume to the liquidity: none where one of the two
/// is unknown, an error where both are known and the quotient is not a
/// decimal.
pub open spec fn spec_volume_ratio(metrics: TokenMetrics) -> Result<Option<Dec>, AnalysisError> {
    match (metrics.volume_24h_usd, metrics.liquidity_usd) {
        (Some(volume), Some(liquidity)) => match volume.spec_checked_div(liquidity) {
            Some(ratio) => Ok(Some(ratio)),
            None => Err(AnalysisError::UndefinedVolumeRatio),
        },
        _ => Ok(None),
    }
}

/// Points of one yes-or-no fact about the contract: `good` where it is
/// known to be as wished, `bad` where it is known not to be.
pub open spec fn fact_points(fact: Option<bool>, wished: bool, good: int, bad: int) -> int {
    match fact {
        Some(value) => if value == wished {
            good
        } else {
            bad
        },
        None => 0,
    }
}

/// Points for the security of the contract.
pub open spec fn security_points(metrics: TokenMetrics) -> int {
    fact_points(metrics.contract_verified, true, 8, -10) + fact_points(
        metrics.is_honeypot,
        false,
        5,
        -50,
    ) + fact_points(metrics.is_mintable, false, 2, -5) + fact_points(
        metrics.has_proxy,
        false,
        2,
        -3,
    )
}

/// Flags for the security of the contract, in the order of the checks.
pub open spec fn security_flags(metrics: TokenMetrics) -> Seq<Seq<char>> {
    flag_if(metrics.contract_verified == Some(false), unverified_contract_flag()) + flag_if(
        metrics.is_honeypot == Some(true),
        honeypot_flag(),
    ) + flag_if(metrics.is_mintable == Some(true), mintable_flag()) + flag_if(
        metrics.has_proxy == Some(true),
        proxy_flag(),
    )
}

/// Points for the age of the token, in nanoseconds since it was first seen.
pub open spec fn timing_points(age: int) -> int {
    if age < HOUR {
        8
    } else if age < DAY {
        10
    } else if age < WEEK {
        6
    } else {
        3
    }
}

/// A flag in the list forces the risk level to `Extreme`.
pub open spec fn risk_critical(flags: Seq<Seq<char>>) -> bool {
    ||| spec_any_contains(flags, "HONEYPOT"@)
    ||| spec_any_contains(flags, "WHALE_DOMINATED"@)
    ||| spec_any_contains(flags, "LOW_LIQUIDITY"@)
}

/// A flag in the list rules out that the token is safe. This set differs
/// from that of [`risk_critical`].
pub open spec fn safety_critical(flags: Seq<Seq<char>>) -> bool {
    ||| spec_any_contains(flags, "HONEYPOT"@)
    ||| spec_any_contains(flags, "UNVERIFIED_CONTRACT"@)
    ||| spec_any_contains(flags, "LOW_LIQUIDITY"@)
}

/// The risk level for a score and its flags.
pub open spec fn spec_risk_level(score: Dec, flags: Seq<Seq<char>>) -> RiskLevel {
    if risk_critical(flags) || score.spec_lt(whole(30)) {
        RiskLevel::Extreme
    } else if score.spec_lt(whole(50)) {
        RiskLevel::High
    } else if score.spec_lt(whole(70)) {
        RiskLevel::Medium
    } else {
        RiskLevel::Low
    }
}

/// Whether a score with its flags counts as safe to trade.
pub open spec fn spec_is_safe(score: Dec, flags: Seq<Seq<char>>) -> bool {
    score.spec_ge(whole(70)) && !safety_critical(flags)
}

/// The recommendation for a score, its risk level and its safety.
pub open spec fn spec_recommendation(score: Dec, risk_level: RiskLevel, is_safe: bool) -> Recommendation {
    if !is_safe || risk_level == RiskLevel::Extreme {
        Recommendation::Avoid
    } else if score.spec_ge(whole(75)) && (risk_level == RiskLevel::Low || risk_level
        == RiskLevel::Medium) {
        Recommendation::Buy
    } else {
        Recommendation::Watch
    }
}

/// The multiple expected of a score before any adjustment.
pub open spec fn base_multiplier(score: Dec) -> int {
    if score.spec_ge(whole(90)) {
        100
    } else if score.spec_ge(whole(85)) {
        50
    } else if score.spec_ge(whole(80)) {
        20
    } else if score.spec_ge(whole(75)) {
        10
    } else if score.spec_ge(whole(70)) {
        5
    } else {
        2
    }
}

/// Whether the liquidity is known and under 50,000.
pub open spec fn thin_liquidity(liquidity: Option<Dec>) -> bool {
    liquidity matches Some(l) && l.spec_lt(whole(50000))
}

/// A base multiple after its adjustments: times 1.5 for thin liquidity,
/// then times 2 for a very new token.
pub open spec fn adjusted_multiplier(base: int, thin: bool, very_new: bool) -> Dec {
    if thin {
        if very_new {
            Dec::spec_new(base * 15 * 2, 1)
        } else {
            Dec::spec_new(base * 15, 1)
        }
    } else {
        if very_new {
            Dec::spec_new(base * 2, 0)
        } else {
            Dec::spec_new(base, 0)
        }
    }
}

/// The multiple expected of a token: none below a score of 60.
pub open spec fn spec_potential_multiplier(
    score: Dec,
    liquidity: Option<Dec>,
    flags: Seq<Seq<char>>,
) -> Option<Dec> {
    if score.spec_lt(whole(60)) {
        None
    } else {
        Some(
            adjusted_multiplier(
                base_multiplier(score),
                thin_liquidity(liquidity),
                spec_any_contains(flags, "VERY_NEW"@),
            ),
        )
    }
}

/// The result for a token without metrics.
pub open spec fn insufficient_data_result(token_address: Seq<char>) -> AnalysisResultView {
    AnalysisResultView {
        token_address,
        score: whole(20),
        is_safe: false,
        risk_level: RiskLevel::High,
        flags: seq![insufficient_data_flag()],
        potential_multiplier: None,
        recommendation: Recommendation::Avoid,
    }
}

/// Scores tokens against configured minimums.
#[derive(Debug, Clone, Copy)]
pub struct TokenAnalyzer {
    pub min_liquidity: Dec,
    pub max_top_holder_pct: Dec,
    pub min_holders: u32,
}

impl TokenAnalyzer {
    /// Points for the liquidity.
    pub open spec fn liquidity_points(self, liquidity: Option<Dec>) -> int {
        match liquidity {
            Some(l) => if l.spec_ge(whole(100000)) {
                25
            } else if l.spec_ge(whole(50000)) {
                20
            } else if l.spec_ge(whole(20000)) {
                15
            } else if l.spec_ge(self.min_liquidity) {
                10
            } else {
                -10
            },
            None => 0,
        }
    }

    /// Whether the liquidity is known and below every threshold.
    pub open spec fn low_liquidity(self, liquidity: Option<Dec>) -> bool {
        liquidity matches Some(l) && !l.spec_ge(whole(100000)) && !l.spec_ge(whole(50000))
            && !l.spec_ge(whole(20000)) && !l.spec_ge(self.min_liquidity)
    }

    /// Flags for the liquidity.
    pub open spec fn liquidity_flags(self, liquidity: Option<Dec>) -> Seq<Seq<char>> {
        flag_if(self.low_liquidity(liquidity), low_liquidity_flag()) + flag_if(
            liquidity is None,
            unknown_liquidity_flag(),
        )
    }

    /// Points for the distribution of holders.
    pub open spec fn holder_points(self, metrics: TokenMetrics) -> int {
        holder_count_points(self.min_holders, metrics.holder_count) + concentration_points(
            metrics.top_10_holders_percentage,
        )
    }

    /// Flags for the distribution of holders.
    pub open spec fn holder_flags(self, metrics: TokenMetrics) -> Seq<Seq<char>> {
        flag_if(
            few_holders(self.min_holders, metrics.holder_count),
            few_holders_flag(metrics.holder_count.unwrap_or(0)),
        ) + flag_if(
            whale_dominated(metrics.top_10_holders_percentage),
            whale_dominated_flag(metrics.top_10_holders_percentage.unwrap_or(whole(0))),
        )
    }

    /// The tags that the flags of a token's metrics carry: each tag where
    /// the factor that owns it raises its flag.
    pub open spec fn spec_tags(self, metrics: TokenMetrics, age: int) -> Tags {
        Tags {
            honeypot: metrics.is_honeypot == Some(true),
            whale_dominated: whale_dominated(metrics.top_10_holders_percentage),
            low_liquidity: self.low_liquidity(metrics.liquidity_usd),
            unknown_liquidity: metrics.liquidity_usd is None,
            unverified_contract: metrics.contract_verified == Some(false),
            very_new: age < HOUR,
        }
    }

    /// The total of the base and the six factors.
    pub open spec fn spec_points(self, metrics: TokenMetrics, ratio: Option<Dec>, age: int) -> int {
        50 + self.liquidity_points(metrics.liquidity_usd) + self.holder_points(metrics)
            + volume_points(ratio) + 7 + security_points(metrics) + timing_points(age)
    }

    /// The flags of the six factors, in the order of evaluation.
    pub open spec fn spec_flags(self, metrics: TokenMetrics, ratio: Option<Dec>, age: int) -> Seq<
        Seq<char>,
    > {
        self.liquidity_flags(metrics.liquidity_usd) + self.holder_flags(metrics) + flag_if(
            low_volume(ratio),
            low_volume_flag(),
        ) + security_flags(metrics) + flag_if(age < HOUR, very_new_flag())
    }

    /// The result of scoring `metrics` for a token of the given age, where
    /// `ratio` is the ratio of volume to liquidity.
    pub open spec fn spec_result(
        self,
        token_address: Seq<char>,
        metrics: TokenMetrics,
        ratio: Option<Dec>,
        age: int,
    ) -> AnalysisResultView {
        let score = whole(self.spec_points(metrics, ratio, age));
        let flags = self.spec_flags(metrics, ratio, age);
        let risk_level = spec_risk_level(score, flags);
        let is_safe = spec_is_safe(score, flags);
        AnalysisResultView {
            token_address,
            score,
            is_safe,
            risk_level,
            flags,
            potential_multiplier: spec_potential_multiplier(score, metrics.liquidity_usd, flags),
            recommendation: spec_recommendation(score, risk_level, is_safe),
        }
    }

    /// An analyzer with the configured minimums; 10,000 for the liquidity
    /// and 30 for the top holders' percentage where the configuration has
    /// none.
    pub fn new(config: &TradingConfig) -> (analyzer: TokenAnalyzer)
        ensures
            analyzer == spec_analyzer(*config),
    {
        let min_liquidity = match config.min_liquidity_usd {
            Some(amount) => amount,
            None => Dec::from_i64(10000),
        };
        let max_top_holder_pct = match config.max_top_holder_percentage {
            Some(amount) => amount,
            None => Dec::from_i64(30),
        };
        TokenAnalyzer { min_liquidity, max_top_holder_pct, min_holders: config.min_holders }
    }

    /// The liquidity factor: up to 25 points, or a penalty of 10 and a flag
    /// below the configured minimum; a flag and no points where the
    /// liquidity is unknown.
    pub fn analyze_liquidity(
        &self,
        metrics: &TokenMetrics,
        flags: &mut Vec<String>,
    ) -> (points: i64)
        ensures
            points == self.liquidity_points(metrics.liquidity_usd),
            final(flags).deep_view() == old(flags).deep_view() + self.liquidity_flags(
                metrics.liquidity_usd,
            ),
            metrics.liquidity_usd matches Some(l) && l.spec_ge(whole(100000)) ==> points == 25
                && final(flags).deep_view() == old(flags).deep_view(),
    {
        let ghost before = flags.deep_view();
        let mut points: i64 = 0;
        match metrics.liquidity_usd {
            Some(liquidity) => {
                if liquidity.ge(&Dec::from_i64(100000)) {
                    points = 25;
                } else if liquidity.ge(&Dec::from_i64(50000)) {
                    points = 20;
                } else if liquidity.ge(&Dec::from_i64(20000)) {
                    points = 15;
                } else if liquidity.ge(&self.min_liquidity) {
                    points = 10;
                } else {
                    push_text(flags, "🚨 LOW_LIQUIDITY: May be hard to sell");
                    points = -10;
                }
            },
            None => {
                push_text(flags, "❓ UNKNOWN_LIQUIDITY: Could not determine liquidity");
            },
        }
        assert(flags.deep_view() =~= before + self.liquidity_flags(metrics.liquidity_usd));
        assert(before + Seq::<Seq<char>>::empty() =~= before);
        points
    }

    /// The holder factor: the count of holders and the share of the ten
    /// largest, each scored on its own.
    pub fn analyze_holder_distribution(
        &self,
        metrics: &TokenMetrics,
        flags: &mut Vec<String>,
    ) -> (points: i64)
        ensures
            points == self.holder_points(*metrics),
            final(flags).deep_view() == old(flags).deep_view() + self.holder_flags(*metrics),
            tags(final(flags).deep_view()) == tags(old(flags).deep_view()).or(
                Tags {
                    whale_dominated: whale_dominated(metrics.top_10_holders_percentage),
                    ..Tags::none()
                },
            ),
    {
        let ghost before = flags.deep_view();
        let mut points: i64 = 0;
        match metrics.holder_count {
            Some(holders) => {
                if holders >= 10000 {
                    points = 10;
                } else if holders >= 5000 {
                    points = 8;
                } else if holders >= 1000 {
                    points = 6;
                } else if holders >= self.min_holders {
                    points = 4;
                } else {
                    let mut flag = String::from_str("👥 FEW_HOLDERS: Only ");
                    append_digits(&mut flag, holders as u64);
                    flag.append(" holders (risky)");
                    push_owned(flags, flag);
                    points = -5;
                }
            },
            None => {},
        }
        let ghost middle = flags.deep_view();
        assert(middle =~= before + flag_if(
            few_holders(self.min_holders, metrics.holder_count),
            few_holders_flag(metrics.holder_count.unwrap_or(0)),
        ));
        proof {
            let raised = few_holders(self.min_holders, metrics.holder_count);
            let flag = few_holders_flag(metrics.holder_count.unwrap_or(0));
            lemma_few_holders_flag_tags(metrics.holder_count.unwrap_or(0));
            lemma_tags_of_flag_if(raised, flag);
            lemma_tags_of_concat(before, flag_if(raised, flag));
            assert(tags(middle) == tags(before));
        }
        let ghost mut share: Seq<char> = Seq::empty();
        match metrics.top_10_holders_percentage {
            Some(top) => {
                if top.le(&Dec::from_i64(20)) {
                    points = points + 10;
                } else if top.le(&Dec::from_i64(40)) {
                    points = points + 7;
                } else if top.le(&Dec::from_i64(60)) {
                    points = points + 4;
                } else {
                    let mut flag = String::from_str("🐋 WHALE_DOMINATED: Top 10 holders own ");
                    let text = top.to_text();
                    flag.append(text.as_str());
                    flag.append("%");
                    proof {
                        share = text@;
                        lemma_whale_dominated_flag_tags(share);
                        lemma_tags_of_one(flag@);
                        lemma_tags_of_concat(middle, seq![flag@]);
                    }
                    push_owned(flags, flag);
                    assert(flags.deep_view() =~= middle + seq![flag@]);
                    points = points - 10;
                }
            },
            None => {},
        }
        assert(flags.deep_view() =~= middle + flag_if(
            whale_dominated(metrics.top_10_holders_percentage),
            whale_dominated_flag(metrics.top_10_holders_percentage.unwrap_or(whole(0))),
        ));
        assert(flags.deep_view() =~= before + self.holder_flags(*metrics));
        proof {
            if !whale_dominated(metrics.top_10_holders_percentage) {
                assert(flags.deep_view() =~= middle);
            }
        }
        points
    }

    /// The ratio of a day's volume to the liquidity, where both are known.
    pub fn volume_ratio(metrics: &TokenMetrics) -> (ratio: Result<Option<Dec>, AnalysisError>)
        ensures
            ratio == spec_volume_ratio(*metrics),
    {
        match metrics.volume_24h_usd {
            Some(volume) => match metrics.liquidity_usd {
                Some(liquidity) => match volume.checked_div(&liquidity) {
                    Some(ratio) => Ok(Some(ratio)),
                    None => Err(AnalysisError::UndefinedVolumeRatio),
                },
                None => Ok(None),
            },
            None => Ok(None),
        }
    }

    /// The volume factor, for a known ratio of volume to liquidity: up to 15
    /// points, or a penalty of 5 and a flag under a tenth. No points where
    /// there is no ratio.
    pub fn analyze_volume(&self, ratio: &Option<Dec>, flags: &mut Vec<String>) -> (points: i64)
        ensures
            points == volume_points(*ratio),
            final(flags).deep_view() == old(flags).deep_view() + flag_if(
                low_volume(*ratio),
                low_volume_flag(),
            ),
    {
        let ghost before = flags.deep_view();
        let mut points: i64 = 0;
        match ratio {
            Some(volume_ratio) => {
                if volume_ratio.ge(&Dec::from_i64(2)) {
                    points = 15;
                } else if volume_ratio.ge(&Dec::from_i64(1)) {
                    points = 12;
                } else if volume_ratio.ge(&Dec::new(5, 1)) {
                    points = 8;
                } else if volume_ratio.ge(&Dec::new(1, 1)) {
                    points = 5;
                } else {
                    push_text(flags, "📈 LOW_VOLUME: Very little trading activity");
                    points = -5;
                }
            },
            None => {},
        }
        assert(flags.deep_view() =~= before + flag_if(low_volume(*ratio), low_volume_flag()));
        points
    }

    /// The price-stability factor: a fixed 7 points, whatever the token.
    pub fn analyze_price_stability(
        &self,
        token_address: &str,
        flags: &mut Vec<String>,
    ) -> (points: i64)
        ensures
            points == 7,
            final(flags).deep_view() == old(flags).deep_view(),
    {
        7
    }

    /// The security factor: four facts about the contract, each scored only
    /// where it is known.
    pub fn analyze_contract_security(
        &self,
        metrics: &TokenMetrics,
        flags: &mut Vec<String>,
    ) -> (points: i64)
        ensures
            points == security_points(*metrics),
            final(flags).deep_view() == old(flags).deep_view() + security_flags(*metrics),
    {
        let ghost before = flags.deep_view();
        let mut points: i64 = 0;
        match metrics.contract_verified {
            Some(verified) => {
                if verified {
                    points = points + 8;
                } else {
                    push_text(flags, "🔒 UNVERIFIED_CONTRACT: Cannot audit contract code");
                    points = points - 10;
                }
            },
            None => {},
        }
        let ghost first = flag_if(metrics.contract_verified == Some(false), unverified_contract_flag());
        assert(flags.deep_view() =~= before + first);
        match metrics.is_honeypot {
            Some(is_honeypot) => {
                if is_honeypot {
                    push_text(flags, "🍯 HONEYPOT_DETECTED: Cannot sell tokens!");
                    points = points - 50;
                } else {
                    points = points + 5;
                }
            },
            None => {},
        }
        let ghost second = first + flag_if(metrics.is_honeypot == Some(true), honeypot_flag());
        assert(flags.deep_view() =~= before + second);
        match metrics.is_mintable {
            Some(is_mintable) => {
                if is_mintable {
                    push_text(flags, "🏭 MINTABLE_TOKEN: Supply can be increased");
                    points = points - 5;
                } else {
                    points = points + 2;
                }
            },
            None => {},
        }
        let ghost third = second + flag_if(metrics.is_mintable == Some(true), mintable_flag());
        assert(flags.deep_view() =~= before + third);
        match metrics.has_proxy {
            Some(has_proxy) => {
                if has_proxy {
                    push_text(flags, "🔄 PROXY_CONTRACT: Contract can be upgraded/changed");
                    points = points - 3;
                } else {
                    points = points + 2;
                }
            },
            None => {},
        }
        assert(flags.deep_view() =~= before + security_flags(*metrics));
        points
    }

    /// The timing factor, by the time since the token was first seen: 8
    /// points and a flag under an hour, 10 under a day, 6 under a week, 3
    /// after that.
    pub fn analyze_market_timing(
        &self,
        token: &Token,
        now: i64,
        flags: &mut Vec<String>,
    ) -> (points: i64)
        ensures
            points == timing_points(now - token.first_seen),
            final(flags).deep_view() == old(flags).deep_view() + flag_if(
                now - token.first_seen < HOUR,
                very_new_flag(),
            ),
    {
        let ghost before = flags.deep_view();
        let age: i128 = now as i128 - token.first_seen as i128;
        let points: i64 = if age < HOUR as i128 {
            push_text(flags, "🆕 VERY_NEW: Less than 1 hour old");
            8
        } else if age < DAY as i128 {
            10
        } else if age < WEEK as i128 {
            6
        } else {
            3
        };
        assert(flags.deep_view() =~= before + flag_if(
            now - token.first_seen < HOUR,
            very_new_flag(),
        ));
        points
    }
}

/// The flags of a result as one text: `None` for an empty list, else the
/// flags separated by a comma and a space.
pub open spec fn flags_text(flags: Seq<Seq<char>>) -> Seq<char> {
    if flags.len() == 0 {
        "None"@
    } else {
        spec_join(flags, ", "@)
    }
}

/// The reason given with a buy signal: symbol, name, score, risk level,
/// flags and the target multiple (2 where the result has none).
pub open spec fn signal_reason(symbol: Seq<char>, name: Seq<char>, result: AnalysisResultView) -> Seq<
    char,
> {
    "🚀 "@ + symbol + " ("@ + name + ") - Score: "@ + result.score.spec_text() + "/100, Risk: "@
        + result.risk_level.spec_name() + "\n📊 Flags: "@ + flags_text(result.flags)
        + "\n🎯 Target: "@ + result.potential_multiplier.unwrap_or(whole(2)).spec_text() + "x"@
}

/// The buy signal for a result, with the given confidence.
pub open spec fn spec_signal(
    token: Token,
    result: AnalysisResultView,
    confidence: Dec,
    now: i64,
) -> TradingSignalView {
    TradingSignalView {
        id: None,
        token_address: token.address@,
        signal_type: SignalType::Buy,
        confidence,
        reason: signal_reason(token.symbol@, token.name@, result),
        target_multiplier: result.potential_multiplier,
        created_at: now,
        is_sent: false,
    }
}

/// The signal that goes with a result: a buy signal where the result is
/// safe with a score of at least 75, none otherwise; an error where the
/// signal is due and the confidence, the score over 100, is not a decimal.
pub open spec fn spec_generated_signal(token: Token, result: AnalysisResultView, now: i64) -> Result<
    Option<TradingSignalView>,
    AnalysisError,
> {
    if result.is_safe && result.score.spec_ge(whole(75)) {
        match result.score.spec_checked_div(whole(100)) {
            Some(confidence) => Ok(Some(spec_signal(token, result, confidence, now))),
            None => Err(AnalysisError::UndefinedConfidence),
        }
    } else {
        Ok(None)
    }
}

/// The position opened on a token: at the price of the given metrics, for
/// the configured investment (100 where there is none); no position where
/// the metrics or the price are unknown.
pub open spec fn spec_opened_trade(
    token: Token,
    metrics: Option<TokenMetrics>,
    max_investment_usd: Option<Dec>,
    now: i64,
) -> Option<SimulatedTradeView> {
    match metrics {
        Some(m) => match m.price_usd {
            Some(price) => Some(
                SimulatedTradeView::opened(
                    token.address@,
                    price,
                    now,
                    max_investment_usd.unwrap_or(whole(100)),
                ),
            ),
            None => None,
        },
        None => None,
    }
}

/// The view of an optional signal.
pub open spec fn signal_view(signal: Option<TradingSignal>) -> Option<TradingSignalView> {
    match signal {
        Some(s) => Some(s@),
        None => None,
    }
}

/// The view of an optional position.
pub open spec fn trade_view(trade: Option<SimulatedTrade>) -> Option<SimulatedTradeView> {
    match trade {
        Some(t) => Some(t@),
        None => None,
    }
}

/// The view of what [`TokenAnalyzer::analyze_token`] returns.
pub open spec fn analysis_view(
    analysis: Result<(AnalysisResult, Option<TradingSignal>), AnalysisError>,
) -> Result<(AnalysisResultView, Option<TradingSignalView>), AnalysisError> {
    match analysis {
        Ok((result, signal)) => Ok((result@, signal_view(signal))),
        Err(e) => Err(e),
    }
}

/// The view of what [`analyze_token`] returns.
pub open spec fn outcome_view(outcome: Result<AnalysisOutcome, AnalysisError>) -> Result<
    AnalysisOutcomeView,
    AnalysisError,
> {
    match outcome {
        Ok(o) => Ok(o@),
        Err(e) => Err(e),
    }
}

/// What the analysis of one token yields.
#[derive(Debug, Clone, PartialEq, Eq)]
pub struct AnalysisOutcome {
    /// The score and what follows from it.
    pub result: AnalysisResult,
    /// The signal to store, if the result calls for one.
    pub signal: Option<TradingSignal>,
    /// The position to open, if the result calls for one.
    pub trade: Option<SimulatedTrade>,
}

/// An [`AnalysisOutcome`] with its texts as sequences of characters.
pub ghost struct AnalysisOutcomeView {
    pub result: AnalysisResultView,
    pub signal: Option<TradingSignalView>,
    pub trade: Option<SimulatedTradeView>,
}

impl View for AnalysisOutcome {
    type V = AnalysisOutcomeView;

    open spec fn view(&self) -> AnalysisOutcomeView {
        AnalysisOutcomeView {
            result: self.result@,
            signal: signal_view(self.signal),
            trade: trade_view(self.trade),
        }
    }
}

impl TokenAnalyzer {
    /// What [`TokenAnalyzer::analyze_token`] yields: the canned result and
    /// no signal for a token without metrics; else the scored result with
    /// its signal, or the error that stopped the analysis.
    pub open spec fn spec_analysis(self, token: Token, metrics: Option<TokenMetrics>, now: i64) -> Result<
        (AnalysisResultView, Option<TradingSignalView>),
        AnalysisError,
    > {
        match metrics {
            None => Ok((insufficient_data_result(token.address@), None)),
            Some(m) => match spec_volume_ratio(m) {
                Err(e) => Err(e),
                Ok(ratio) => {
                    let result = self.spec_result(token.address@, m, ratio, now - token.first_seen);
                    match spec_generated_signal(token, result, now) {
                        Err(e) => Err(e),
                        Ok(signal) => Ok((result, signal)),
                    }
                },
            },
        }
    }

    /// The risk level: `Extreme` below 30 or with a critical flag, `High`
    /// below 50, `Medium` below 70, else `Low`.
    pub fn calculate_risk_level(&self, score: &Dec, flags: &Vec<String>) -> (level: RiskLevel)
        ensures
            level == spec_risk_level(*score, flags.deep_view()),
    {
        let critical = any_contains(flags, "HONEYPOT") || any_contains(flags, "WHALE_DOMINATED")
            || any_contains(flags, "LOW_LIQUIDITY");
        if critical || score.lt(&Dec::from_i64(30)) {
            RiskLevel::Extreme
        } else if score.lt(&Dec::from_i64(50)) {
            RiskLevel::High
        } else if score.lt(&Dec::from_i64(70)) {
            RiskLevel::Medium
        } else {
            RiskLevel::Low
        }
    }

    /// Whether a flag rules out that the token is safe.
    pub fn has_critical_flags(&self, flags: &Vec<String>) -> (critical: bool)
        ensures
            critical == safety_critical(flags.deep_view()),
    {
        any_contains(flags, "HONEYPOT") || any_contains(flags, "UNVERIFIED_CONTRACT")
            || any_contains(flags, "LOW_LIQUIDITY")
    }

    /// The multiple expected of the token: none below a score of 60; else
    /// stepped by the score from 2 to 100, times 1.5 for a liquidity under
    /// 50,000, times 2 for a token flagged as very new.
    pub fn calculate_potential_multiplier(
        &self,
        score: &Dec,
        metrics: &TokenMetrics,
        flags: &Vec<String>,
    ) -> (multiplier: Option<Dec>)
        ensures
            multiplier == spec_potential_multiplier(
                *score,
                metrics.liquidity_usd,
                flags.deep_view(),
            ),
            score.spec_lt(whole(60)) ==> multiplier is None,
    {
        if score.lt(&Dec::from_i64(60)) {
            return None;
        }
        let base: i64 = if score.ge(&Dec::from_i64(90)) {
            100
        } else if score.ge(&Dec::from_i64(85)) {
            50
        } else if score.ge(&Dec::from_i64(80)) {
            20
        } else if score.ge(&Dec::from_i64(75)) {
            10
        } else if score.ge(&Dec::from_i64(70)) {
            5
        } else {
            2
        };
        let mut multiplier = Dec::from_i64(base);
        let thin = match metrics.liquidity_usd {
            Some(liquidity) => liquidity.lt(&Dec::from_i64(50000)),
            None => false,
        };
        if thin {
            let scaled = multiplier.checked_mul(&Dec::new(15, 1));
            multiplier = scaled.unwrap();
        }
        proof {
            Dec::lemma_spec_new_parts(base * 15, 1);
        }
        if any_contains(flags, "VERY_NEW") {
            let doubled = multiplier.checked_mul(&Dec::from_i64(2));
            multiplier = doubled.unwrap();
        }
        Some(multiplier)
    }

    /// The recommendation: `Avoid` for what is unsafe or of extreme risk,
    /// `Buy` from a score of 75 at low or medium risk, else `Watch`.
    pub fn make_recommendation(
        &self,
        score: &Dec,
        risk_level: &RiskLevel,
        is_safe: bool,
    ) -> (recommendation: Recommendation)
        ensures
            recommendation == spec_recommendation(*score, *risk_level, is_safe),
    {
        let extreme = match risk_level {
            RiskLevel::Extreme => true,
            _ => false,
        };
        let moderate = match risk_level {
            RiskLevel::Low => true,
            RiskLevel::Medium => true,
            _ => false,
        };
        if !is_safe || extreme {
            Recommendation::Avoid
        } else if score.ge(&Dec::from_i64(75)) && moderate {
            Recommendation::Buy
        } else {
            Recommendation::Watch
        }
    }

    /// The result for a token without metrics: a score of 20 at high risk,
    /// to be avoided.
    pub fn create_insufficient_data_result(&self, token_address: &str) -> (result: AnalysisResult)
        ensures
            result@ == insufficient_data_result(token_address@),
            tags(result.flags.deep_view()) == Tags::none(),
    {
        let mut flags: Vec<String> = Vec::new();
        push_text(&mut flags, "❓ INSUFFICIENT_DATA: Cannot analyze properly");
        assert(flags.deep_view() =~= seq![insufficient_data_flag()]);
        proof {
            lemma_insufficient_data_flag_tags();
            lemma_tags_of_one(insufficient_data_flag());
        }
        AnalysisResult {
            token_address: String::from_str(token_address),
            score: Dec::from_i64(20),
            is_safe: false,
            risk_level: RiskLevel::High,
            flags,
            potential_multiplier: None,
            recommendation: Recommendation::Avoid,
        }
    }

    /// Scores `metrics` for `token` at the time `now`, where `ratio` is the
    /// ratio of volume to liquidity.
    pub fn score(
        &self,
        token: &Token,
        metrics: &TokenMetrics,
        ratio: &Option<Dec>,
        now: i64,
    ) -> (result: AnalysisResult)
        ensures
            result@ == self.spec_result(token.address@, *metrics, *ratio, now - token.first_seen),
            tags(result.flags.deep_view()) == self.spec_tags(*metrics, now - token.first_seen),
            metrics.liquidity_usd matches Some(l) && l.spec_ge(whole(100000)) ==> !tags(
                result.flags.deep_view(),
            ).low_liquidity && !tags(result.flags.deep_view()).unknown_liquidity,
    {
        let mut flags: Vec<String> = Vec::new();
        let ghost age = now - token.first_seen;
        assert(flags.deep_view() =~= Seq::<Seq<char>>::empty());
        let liquidity = self.analyze_liquidity(metrics, &mut flags);
        let ghost f1 = flags.deep_view();
        proof {
            assert(f1 =~= self.liquidity_flags(metrics.liquidity_usd));
            lemma_liquidity_tags(*self, metrics.liquidity_usd);
        }
        let holders = self.analyze_holder_distribution(metrics, &mut flags);
        let ghost f2 = flags.deep_view();
        let volume = self.analyze_volume(ratio, &mut flags);
        let ghost f3 = flags.deep_view();
        proof {
            lemma_low_volume_flag_tags();
            lemma_tags_of_flag_if(low_volume(*ratio), low_volume_flag());
            lemma_tags_of_concat(f2, flag_if(low_volume(*ratio), low_volume_flag()));
        }
        let stability = self.analyze_price_stability(token.address.as_str(), &mut flags);
        let security = self.analyze_contract_security(metrics, &mut flags);
        let ghost f4 = flags.deep_view();
        proof {
            lemma_security_tags(*metrics);
            lemma_tags_of_concat(f3, security_flags(*metrics));
        }
        let timing = self.analyze_market_timing(token, now, &mut flags);
        proof {
            lemma_very_new_flag_tags();
            lemma_tags_of_flag_if(age < HOUR, very_new_flag());
            lemma_tags_of_concat(f4, flag_if(age < HOUR, very_new_flag()));
        }
        assert(flags.deep_view() =~= self.spec_flags(*metrics, *ratio, age));
        let points: i64 = 50 + liquidity + holders + volume + stability + security + timing;
        let score = Dec::from_i64(points);
        let risk_level = self.calculate_risk_level(&score, &flags);
        let is_safe = score.ge(&Dec::from_i64(70)) && !self.has_critical_flags(&flags);
        let potential_multiplier = self.calculate_potential_multiplier(&score, metrics, &flags);
        let recommendation = self.make_recommendation(&score, &risk_level, is_safe);
        AnalysisResult {
            token_address: token.address.clone(),
            score,
            is_safe,
            risk_level,
            flags,
            potential_multiplier,
            recommendation,
        }
    }

    /// The buy signal for `result`, with the given confidence.
    pub fn build_signal(
        &self,
        token: &Token,
        result: &AnalysisResult,
        confidence: Dec,
        now: i64,
    ) -> (signal: TradingSignal)
        ensures
            signal@ == spec_signal(*token, result@, confidence, now),
    {
        let target = match result.potential_multiplier {
            Some(multiplier) => multiplier,
            None => Dec::from_i64(2),
        };
        let mut reason = String::from_str("🚀 ");
        reason.append(token.symbol.as_str());
        reason.append(" (");
        reason.append(token.name.as_str());
        reason.append(") - Score: ");
        reason.append(result.score.to_text().as_str());
        reason.append("/100, Risk: ");
        reason.append(result.risk_level.name());
        reason.append("\n📊 Flags: ");
        if result.flags.len() == 0 {
            reason.append("None");
        } else {
            reason.append(join(&result.flags, ", ").as_str());
        }
        reason.append("\n🎯 Target: ");
        reason.append(target.to_text().as_str());
        reason.append("x");
        TradingSignal {
            id: None,
            token_address: token.address.clone(),
            signal_type: SignalType::Buy,
            confidence,
            reason,
            target_multiplier: result.potential_multiplier,
            created_at: now,
            is_sent: false,
        }
    }

    /// The buy signal for `result`, with the score over 100 as its
    /// confidence; an error where that quotient is not a decimal.
    pub fn generate_trading_signal(
        &self,
        token: &Token,
        result: &AnalysisResult,
        now: i64,
    ) -> (signal: Result<TradingSignal, AnalysisError>)
        ensures
            match result.score.spec_checked_div(whole(100)) {
                Some(confidence) => signal matches Ok(s) && s@ == spec_signal(
                    *token,
                    result@,
                    confidence,
                    now,
                ),
                None => signal matches Err(e) && e == AnalysisError::UndefinedConfidence,
            },
    {
        match result.score.checked_div(&Dec::from_i64(100)) {
            Some(confidence) => Ok(self.build_signal(token, result, confidence, now)),
            None => Err(AnalysisError::UndefinedConfidence),
        }
    }

    /// Analyses one token at the time `now` from its latest metrics.
    ///
    /// A token without metrics gets the canned result for insufficient
    /// data and no signal. Otherwise the metrics are scored, and a result
    /// that is safe with a score of at least 75 comes with a buy signal. The
    /// analysis fails only where a quotient it needs is not a decimal.
    pub fn analyze_token(
        &self,
        token: &Token,
        metrics: &Option<TokenMetrics>,
        now: i64,
    ) -> (analysis: Result<(AnalysisResult, Option<TradingSignal>), AnalysisError>)
        ensures
            analysis_view(analysis) == self.spec_analysis(*token, *metrics, now),
            analysis matches Ok((result, _)) ==> (*metrics matches Some(m) ==> tags(
                result.flags.deep_view(),
            ) == self.spec_tags(m, now - token.first_seen)),
    {
        match metrics {
            None => Ok((self.create_insufficient_data_result(token.address.as_str()), None)),
            Some(known) => {
                let ratio = match TokenAnalyzer::volume_ratio(known) {
                    Ok(ratio) => ratio,
                    Err(e) => {
                        return Err(e);
                    },
                };
                let result = self.score(token, known, &ratio, now);
                if result.is_safe && result.score.ge(&Dec::from_i64(75)) {
                    match self.generate_trading_signal(token, &result, now) {
                        Ok(signal) => Ok((result, Some(signal))),
                        Err(e) => Err(e),
                    }
                } else {
                    Ok((result, None))
                }
            },
        }
    }
}

/// The analyzer that a configuration makes: 10,000 for the liquidity and 30
/// for the top holders' percentage where the configuration has none.
pub open spec fn spec_analyzer(config: TradingConfig) -> TokenAnalyzer {
    TokenAnalyzer {
        min_liquidity: config.min_liquidity_usd.unwrap_or(whole(10000)),
        max_top_holder_pct: config.max_top_holder_percentage.unwrap_or(whole(30)),
        min_holders: config.min_holders,
    }
}

/// What [`analyze_token`] yields: the analysis of the token, and with a
/// recommendation to buy at a score of at least 80 the position to open.
pub open spec fn spec_outcome(
    config: TradingConfig,
    token: Token,
    metrics: Option<TokenMetrics>,
    now: i64,
) -> Result<AnalysisOutcomeView, AnalysisError> {
    match spec_analyzer(config).spec_analysis(token, metrics, now) {
        Err(e) => Err(e),
        Ok((result, signal)) => Ok(
            AnalysisOutcomeView {
                result,
                signal,
                trade: if result.recommendation == Recommendation::Buy && result.score.spec_ge(
                    whole(80),
                ) {
                    spec_opened_trade(token, metrics, config.max_investment_usd, now)
                } else {
                    None
                },
            },
        ),
    }
}

/// Analyses one token under the given configuration, and opens a simulated
/// position where the recommendation is to buy and the score is at least 80.
pub fn analyze_token(
    config: &TradingConfig,
    token: &Token,
    metrics: &Option<TokenMetrics>,
    now: i64,
) -> (outcome: Result<AnalysisOutcome, AnalysisError>)
    ensures
        outcome_view(outcome) == spec_outcome(*config, *token, *metrics, now),
        outcome matches Ok(o) ==> (*metrics matches Some(m) ==> tags(o.result.flags.deep_view())
            == spec_analyzer(*config).spec_tags(m, now - token.first_seen)),
{
    let analyzer = TokenAnalyzer::new(config);
    match analyzer.analyze_token(token, metrics, now) {
        Ok((result, signal)) => {
            let buy = match result.recommendation {
                Recommendation::Buy => true,
                _ => false,
            };
            let trade = if buy && result.score.ge(&Dec::from_i64(80)) {
                start_simulated_trade(token, metrics, &config.max_investment_usd, now)
            } else {
                None
            };
            Ok(AnalysisOutcome { result, signal, trade })
        },
        Err(e) => Err(e),
    }
}

/// Opens a simulated position on `token` at the price of its latest
/// metrics. No position is opened where the price is unknown.
pub fn start_simulated_trade(
    token: &Token,
    metrics: &Option<TokenMetrics>,
    max_investment_usd: &Option<Dec>,
    now: i64,
) -> (trade: Option<SimulatedTrade>)
    ensures
        trade_view(trade) == spec_opened_trade(*token, *metrics, *max_investment_usd, now),
        trade matches Some(t) ==> t@.wf(),
{
    match metrics {
        Some(known) => match known.price_usd {
            Some(price) => {
                let investment = match max_investment_usd {
                    Some(amount) => *amount,
                    None => Dec::from_i64(100),
                };
                Some(SimulatedTrade::open(token.address.clone(), price, now, investment))
            },
            None => None,
        },
        None => None,
    }
}

} // verus!
