//! What holds of every score: statements about the scoring model as a
//! whole, each proved from the definitions in `token_analyzer`.

use crate::analyzers::token_analyzer::{
    adjusted_multiplier, analysis_view, base_multiplier, flag_if, honeypot_flag, low_volume,
    low_volume_flag, mintable_flag, proxy_flag, security_flags, spec_potential_multiplier,
    spec_volume_ratio, thin_liquidity, unverified_contract_flag, very_new_flag, whale_dominated,
    AnalysisError, TokenAnalyzer, HOUR,
};
use crate::decimal::{lemma_pow10_positive, pow10, whole, Dec, MAX_MANTISSA};
use crate::models::{
    AnalysisResult, AnalysisResultView, Recommendation, RiskLevel, Token, TokenMetrics,
    TradingSignal, TradingSignalView,
};
use crate::analyzers::flag_tags::tags;
use crate::text::{lemma_any_contains_concat, spec_any_contains, spec_contains};
use vstd::prelude::*;

verus! {

/// The honeypot flag names the honeypot.
pub proof fn lemma_honeypot_flag_is_critical()
    ensures
        spec_contains(honeypot_flag(), "HONEYPOT"@),
{
    reveal_strlit("🍯 HONEYPOT_DETECTED: Cannot sell tokens!");
    reveal_strlit("HONEYPOT");
    let start: int = 2;
    assert(honeypot_flag().subrange(start, start + "HONEYPOT"@.len()) =~= "HONEYPOT"@);
}

/// A token whose metrics say that it is a honeypot is of extreme risk, not
/// safe, and to be avoided, whatever else the metrics say and whatever its
/// age.
pub proof fn lemma_honeypot_is_avoided(
    analyzer: TokenAnalyzer,
    token_address: Seq<char>,
    metrics: TokenMetrics,
    ratio: Option<Dec>,
    age: int,
)
    requires
        metrics.is_honeypot == Some(true),
    ensures
        analyzer.spec_result(token_address, metrics, ratio, age).risk_level == RiskLevel::Extreme,
        !analyzer.spec_result(token_address, metrics, ratio, age).is_safe,
        analyzer.spec_result(token_address, metrics, ratio, age).recommendation
            == Recommendation::Avoid,
{
    let pattern = "HONEYPOT"@;
    lemma_honeypot_flag_is_critical();
    let raised = flag_if(true, honeypot_flag());
    assert(raised[0] == honeypot_flag());
    assert(spec_any_contains(raised, pattern));
    let s1 = flag_if(metrics.contract_verified == Some(false), unverified_contract_flag());
    let s3 = flag_if(metrics.is_mintable == Some(true), mintable_flag());
    let s4 = flag_if(metrics.has_proxy == Some(true), proxy_flag());
    lemma_any_contains_concat(s1, raised, pattern);
    lemma_any_contains_concat(s1 + raised, s3, pattern);
    lemma_any_contains_concat(s1 + raised + s3, s4, pattern);
    assert(spec_any_contains(security_flags(metrics), pattern));
    let f1 = analyzer.liquidity_flags(metrics.liquidity_usd);
    let f2 = analyzer.holder_flags(metrics);
    let f3 = flag_if(low_volume(ratio), low_volume_flag());
    let f5 = flag_if(age < HOUR, very_new_flag());
    lemma_any_contains_concat(f1 + f2 + f3, security_flags(metrics), pattern);
    lemma_any_contains_concat(f1 + f2 + f3 + security_flags(metrics), f5, pattern);
    assert(spec_any_contains(analyzer.spec_flags(metrics, ratio, age), pattern));
}

/// An analysis of a token whose metrics say that it is a honeypot, where it
/// succeeds, recommends to avoid the token and yields no signal.
pub proof fn lemma_honeypot_analysis(
    analyzer: TokenAnalyzer,
    token: Token,
    metrics: TokenMetrics,
    now: i64,
    result: AnalysisResultView,
    signal: Option<TradingSignalView>,
)
    requires
        metrics.is_honeypot == Some(true),
        analyzer.spec_analysis(token, Some(metrics), now) == Ok::<
            (AnalysisResultView, Option<TradingSignalView>),
            AnalysisError,
        >((result, signal)),
    ensures
        result.recommendation == Recommendation::Avoid,
        result.risk_level == RiskLevel::Extreme,
        signal is None,
{
    let ratio = spec_volume_ratio(metrics);
    lemma_honeypot_is_avoided(
        analyzer,
        token.address@,
        metrics,
        ratio->Ok_0,
        now - token.first_seen,
    );
}

/// The numeric order carries a whole-number threshold upwards: what is at
/// least `threshold` stays so for every greater decimal.
pub proof fn lemma_threshold_carries(lower: Dec, higher: Dec, threshold: int)
    requires
        lower.spec_le(higher),
        lower.spec_ge(whole(threshold)),
        -MAX_MANTISSA <= threshold <= MAX_MANTISSA,
    ensures
        higher.spec_ge(whole(threshold)),
{
    Dec::lemma_spec_new_parts(threshold, 0);
    let pl = pow10(lower.scale() as nat);
    let ph = pow10(higher.scale() as nat);
    lemma_pow10_positive(lower.scale() as nat);
    lemma_pow10_positive(higher.scale() as nat);
    assert(pow10(0) == 1);
    let lm = lower.mantissa() as int;
    let hm = higher.mantissa() as int;
    assert(hm * pl >= lm * ph);
    assert(lm * 1 >= threshold * pl);
    assert(hm * 1 >= threshold * ph) by (nonlinear_arith)
        requires
            hm * pl >= lm * ph,
            lm * 1 >= threshold * pl,
            pl > 0,
            ph > 0,
    ;
}

/// The base multiple does not fall as the score rises.
pub proof fn lemma_base_multiplier_monotonic(lower: Dec, higher: Dec)
    requires
        lower.spec_le(higher),
    ensures
        base_multiplier(lower) <= base_multiplier(higher),
{
    if lower.spec_ge(whole(90)) {
        lemma_threshold_carries(lower, higher, 90);
    }
    if lower.spec_ge(whole(85)) {
        lemma_threshold_carries(lower, higher, 85);
    }
    if lower.spec_ge(whole(80)) {
        lemma_threshold_carries(lower, higher, 80);
    }
    if lower.spec_ge(whole(75)) {
        lemma_threshold_carries(lower, higher, 75);
    }
    if lower.spec_ge(whole(70)) {
        lemma_threshold_carries(lower, higher, 70);
    }
}

/// With the same adjustments, a greater base gives a multiple that is at
/// least as great.
pub proof fn lemma_adjusted_multiplier_monotonic(low: int, high: int, thin: bool, very_new: bool)
    requires
        0 < low <= high <= 100,
    ensures
        adjusted_multiplier(low, thin, very_new).spec_le(
            adjusted_multiplier(high, thin, very_new),
        ),
{
    let a = adjusted_multiplier(low, thin, very_new);
    let b = adjusted_multiplier(high, thin, very_new);
    let factor: int = if thin {
        if very_new {
            30
        } else {
            15
        }
    } else {
        if very_new {
            2
        } else {
            1
        }
    };
    let scale: nat = if thin {
        1
    } else {
        0
    };
    assert(low * 15 * 2 == low * 30 && high * 15 * 2 == high * 30);
    Dec::lemma_spec_new_parts(low * factor, scale);
    Dec::lemma_spec_new_parts(high * factor, scale);
    lemma_pow10_positive(scale);
    let p = pow10(scale);
    assert(a.mantissa() == low * factor && b.mantissa() == high * factor);
    assert((high * factor) * p >= (low * factor) * p) by (nonlinear_arith)
        requires
            low <= high,
            factor > 0,
            p > 0,
    ;
}

/// No multiple is expected of a score under 60, and for a fixed liquidity
/// and fixed flags the expected multiple does not fall as the score rises:
/// where the lower score has a multiple, the higher score has one that is
/// at least as great.
pub proof fn lemma_potential_multiplier_monotonic(
    lower: Dec,
    higher: Dec,
    liquidity: Option<Dec>,
    flags: Seq<Seq<char>>,
)
    requires
        lower.spec_le(higher),
    ensures
        lower.spec_lt(whole(60)) ==> spec_potential_multiplier(lower, liquidity, flags) is None,
        spec_potential_multiplier(lower, liquidity, flags) matches Some(low)
            ==> spec_potential_multiplier(higher, liquidity, flags) matches Some(high)
            && low.spec_le(high),
{
    if !lower.spec_lt(whole(60)) {
        lemma_threshold_carries(lower, higher, 60);
        lemma_base_multiplier_monotonic(lower, higher);
        lemma_adjusted_multiplier_monotonic(
            base_multiplier(lower),
            base_multiplier(higher),
            thin_liquidity(liquidity),
            spec_any_contains(flags, "VERY_NEW"@),
        );
    }
}

/// Scoring has no hidden state: two analyses of the same token with the
/// same metrics at the same time end alike, in the same error or in results
/// and signals that agree in every field.
pub proof fn lemma_analysis_is_deterministic(
    analyzer: TokenAnalyzer,
    token: Token,
    metrics: Option<TokenMetrics>,
    now: i64,
    first: Result<(AnalysisResult, Option<TradingSignal>), AnalysisError>,
    second: Result<(AnalysisResult, Option<TradingSignal>), AnalysisError>,
)
    requires
        analysis_view(first) == analyzer.spec_analysis(token, metrics, now),
        analysis_view(second) == analyzer.spec_analysis(token, metrics, now),
    ensures
        analysis_view(first) == analysis_view(second),
        first matches Ok((a, _)) ==> second matches Ok((b, _)) && a@ == b@,
{
}

/// Where the flags of a result carry exactly the tags of their factors, as
/// the flags that `score` returns do, the searches for tags come down to
/// plain facts about the metrics: the result is safe exactly where the
/// score is at least 70 and the token is no known honeypot, its contract is
/// not known to be unverified and its liquidity is not low; and the risk is
/// extreme exactly where the score is under 30 or the token is a known
/// honeypot, dominated by whales or low in liquidity.
pub proof fn lemma_verdict_by_metrics(
    analyzer: TokenAnalyzer,
    token_address: Seq<char>,
    metrics: TokenMetrics,
    ratio: Option<Dec>,
    age: int,
)
    requires
        tags(analyzer.spec_flags(metrics, ratio, age)) == analyzer.spec_tags(metrics, age),
    ensures
        ({
            let result = analyzer.spec_result(token_address, metrics, ratio, age);
            let low = analyzer.low_liquidity(metrics.liquidity_usd);
            let honeypot = metrics.is_honeypot == Some(true);
            let unverified = metrics.contract_verified == Some(false);
            let whales = whale_dominated(metrics.top_10_holders_percentage);
            &&& result.is_safe == (result.score.spec_ge(whole(70)) && !honeypot && !unverified
                && !low)
            &&& (result.risk_level == RiskLevel::Extreme) == (result.score.spec_lt(whole(30))
                || honeypot || whales || low)
            &&& result.potential_multiplier == (if result.score.spec_lt(whole(60)) {
                None
            } else {
                Some(
                    adjusted_multiplier(
                        base_multiplier(result.score),
                        thin_liquidity(metrics.liquidity_usd),
                        age < HOUR,
                    ),
                )
            })
        }),
{
}

} // verus!
