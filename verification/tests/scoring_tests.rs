use crypto_sniper::analyzers::token_analyzer::{
    analyze_token, start_simulated_trade, AnalysisError, TokenAnalyzer,
};
use crypto_sniper::config::TradingConfig;
use crypto_sniper::decimal::Dec;
use crypto_sniper::models::{
    AnalysisResult, Recommendation, RiskLevel, SignalType, Token, TokenMetrics,
};

const HOUR: i64 = 3_600_000_000_000;
const DAY: i64 = 24 * HOUR;

fn trading_config() -> TradingConfig {
    TradingConfig {
        min_liquidity_usd: Some(Dec::from_i64(10000)),
        max_top_holder_percentage: Some(Dec::from_i64(30)),
        min_holders: 100,
        profit_targets: vec![Some(Dec::from_i64(2)), Some(Dec::from_i64(5))],
        stop_loss: Some(Dec::new(5, 1)),
        max_investment_usd: Some(Dec::from_i64(250)),
    }
}

fn analyzer() -> TokenAnalyzer {
    TokenAnalyzer::new(&trading_config())
}

fn token_x() -> Token {
    Token {
        id: None,
        address: "addr-x".to_string(),
        symbol: "X".to_string(),
        name: "Token X".to_string(),
        chain: "solana".to_string(),
        source: "dex_screener".to_string(),
        created_at: 0,
        first_seen: 0,
        is_active: true,
    }
}

fn empty_metrics() -> TokenMetrics {
    TokenMetrics {
        id: None,
        token_address: "addr-x".to_string(),
        timestamp: 0,
        price_usd: None,
        market_cap_usd: None,
        liquidity_usd: None,
        volume_24h_usd: None,
        total_supply: None,
        circulating_supply: None,
        holder_count: None,
        top_10_holders_percentage: None,
        is_honeypot: None,
        is_mintable: None,
        has_proxy: None,
        contract_verified: None,
    }
}

fn strong_metrics() -> TokenMetrics {
    TokenMetrics {
        price_usd: Some(Dec::new(15, 1)),
        liquidity_usd: Some(Dec::from_i64(150000)),
        volume_24h_usd: Some(Dec::from_i64(300000)),
        holder_count: Some(12000),
        top_10_holders_percentage: Some(Dec::from_i64(15)),
        is_honeypot: Some(false),
        is_mintable: Some(false),
        has_proxy: Some(false),
        contract_verified: Some(true),
        ..empty_metrics()
    }
}

fn with_liquidity(amount: Dec) -> TokenMetrics {
    TokenMetrics { liquidity_usd: Some(amount), ..empty_metrics() }
}

fn result_with(score: i64, flags: Vec<String>) -> AnalysisResult {
    AnalysisResult {
        token_address: "addr-x".to_string(),
        score: Dec::from_i64(score),
        is_safe: true,
        risk_level: RiskLevel::Low,
        flags,
        potential_multiplier: None,
        recommendation: Recommendation::Buy,
    }
}

#[test]
fn new_takes_the_configured_minimums() {
    let a = analyzer();
    assert_eq!(a.min_liquidity, Dec::from_i64(10000));
    assert_eq!(a.max_top_holder_pct, Dec::from_i64(30));
    assert_eq!(a.min_holders, 100);
}

#[test]
fn new_falls_back_on_its_defaults() {
    let config = TradingConfig {
        min_liquidity_usd: None,
        max_top_holder_percentage: None,
        ..trading_config()
    };
    let a = TokenAnalyzer::new(&config);
    assert_eq!(a.min_liquidity, Dec::from_i64(10000));
    assert_eq!(a.max_top_holder_pct, Dec::from_i64(30));
}

#[test]
fn liquidity_steps() {
    let a = analyzer();
    let cases: Vec<(Dec, i64)> = vec![
        (Dec::from_i64(1_000_000), 25),
        (Dec::from_i64(100000), 25),
        (Dec::new(9999999, 2), 20),
        (Dec::from_i64(50000), 20),
        (Dec::new(4999999, 2), 15),
        (Dec::from_i64(20000), 15),
        (Dec::new(1999999, 2), 10),
        (Dec::from_i64(10000), 10),
    ];
    for (amount, expected) in cases {
        let mut flags = Vec::new();
        assert_eq!(a.analyze_liquidity(&with_liquidity(amount), &mut flags), expected);
        assert!(flags.is_empty());
    }
}

#[test]
fn liquidity_of_at_least_100000_gives_25_points_and_no_flag() {
    let a = analyzer();
    for amount in [100000_i64, 100001, 150000, 5_000_000_000] {
        let mut flags = vec!["kept".to_string()];
        let points = a.analyze_liquidity(&with_liquidity(Dec::from_i64(amount)), &mut flags);
        assert_eq!(points, 25);
        assert_eq!(flags, vec!["kept".to_string()]);
    }
}

#[test]
fn low_liquidity_is_flagged_and_penalised() {
    let a = analyzer();
    let mut flags = Vec::new();
    let points = a.analyze_liquidity(&with_liquidity(Dec::new(999999, 2)), &mut flags);
    assert_eq!(points, -10);
    assert_eq!(flags, vec!["🚨 LOW_LIQUIDITY: May be hard to sell".to_string()]);
}

#[test]
fn unknown_liquidity_is_flagged_without_points() {
    let a = analyzer();
    let mut flags = Vec::new();
    let points = a.analyze_liquidity(&empty_metrics(), &mut flags);
    assert_eq!(points, 0);
    assert_eq!(
        flags,
        vec!["❓ UNKNOWN_LIQUIDITY: Could not determine liquidity".to_string()]
    );
}

#[test]
fn a_configured_minimum_above_20000_never_applies() {
    let config = TradingConfig { min_liquidity_usd: Some(Dec::from_i64(30000)), ..trading_config() };
    let a = TokenAnalyzer::new(&config);
    let mut flags = Vec::new();
    assert_eq!(a.analyze_liquidity(&with_liquidity(Dec::from_i64(25000)), &mut flags), 15);
    assert_eq!(a.analyze_liquidity(&with_liquidity(Dec::from_i64(15000)), &mut flags), -10);
}

#[test]
fn holder_count_steps() {
    let a = analyzer();
    let cases: Vec<(u32, i64)> =
        vec![(10000, 10), (9999, 8), (5000, 8), (4999, 6), (1000, 6), (999, 4), (100, 4)];
    for (holders, expected) in cases {
        let metrics = TokenMetrics { holder_count: Some(holders), ..empty_metrics() };
        let mut flags = Vec::new();
        assert_eq!(a.analyze_holder_distribution(&metrics, &mut flags), expected);
        assert!(flags.is_empty());
    }
}

#[test]
fn few_holders_are_flagged_with_their_count() {
    let a = analyzer();
    let metrics = TokenMetrics { holder_count: Some(99), ..empty_metrics() };
    let mut flags = Vec::new();
    assert_eq!(a.analyze_holder_distribution(&metrics, &mut flags), -5);
    assert_eq!(flags, vec!["👥 FEW_HOLDERS: Only 99 holders (risky)".to_string()]);
}

#[test]
fn concentration_steps() {
    let a = analyzer();
    let cases: Vec<(Dec, i64)> = vec![
        (Dec::from_i64(0), 10),
        (Dec::from_i64(20), 10),
        (Dec::new(2001, 2), 7),
        (Dec::from_i64(40), 7),
        (Dec::new(401, 1), 4),
        (Dec::from_i64(60), 4),
    ];
    for (top, expected) in cases {
        let metrics = TokenMetrics { top_10_holders_percentage: Some(top), ..empty_metrics() };
        let mut flags = Vec::new();
        assert_eq!(a.analyze_holder_distribution(&metrics, &mut flags), expected);
        assert!(flags.is_empty());
    }
}

#[test]
fn whale_domination_is_flagged_with_the_share() {
    let a = analyzer();
    let metrics = TokenMetrics {
        holder_count: Some(50),
        top_10_holders_percentage: Some(Dec::new(755, 1)),
        ..empty_metrics()
    };
    let mut flags = Vec::new();
    assert_eq!(a.analyze_holder_distribution(&metrics, &mut flags), -15);
    assert_eq!(
        flags,
        vec![
            "👥 FEW_HOLDERS: Only 50 holders (risky)".to_string(),
            "🐋 WHALE_DOMINATED: Top 10 holders own 75.5%".to_string(),
        ]
    );
}

#[test]
fn holder_checks_add_up() {
    let a = analyzer();
    let metrics = TokenMetrics {
        holder_count: Some(12000),
        top_10_holders_percentage: Some(Dec::from_i64(15)),
        ..empty_metrics()
    };
    let mut flags = Vec::new();
    assert_eq!(a.analyze_holder_distribution(&metrics, &mut flags), 20);
    assert_eq!(a.analyze_holder_distribution(&empty_metrics(), &mut flags), 0);
    assert!(flags.is_empty());
}

#[test]
fn volume_ratio_needs_both_figures() {
    assert_eq!(TokenAnalyzer::volume_ratio(&empty_metrics()), Ok(None));
    let only_volume = TokenMetrics { volume_24h_usd: Some(Dec::from_i64(5)), ..empty_metrics() };
    assert_eq!(TokenAnalyzer::volume_ratio(&only_volume), Ok(None));
    assert_eq!(TokenAnalyzer::volume_ratio(&with_liquidity(Dec::from_i64(5))), Ok(None));
    let both = TokenMetrics {
        volume_24h_usd: Some(Dec::from_i64(300000)),
        ..with_liquidity(Dec::from_i64(150000))
    };
    assert_eq!(TokenAnalyzer::volume_ratio(&both), Ok(Some(Dec::from_i64(2))));
}

#[test]
fn volume_ratio_over_no_liquidity_is_an_error() {
    let metrics = TokenMetrics {
        volume_24h_usd: Some(Dec::from_i64(300000)),
        ..with_liquidity(Dec::from_i64(0))
    };
    assert_eq!(TokenAnalyzer::volume_ratio(&metrics), Err(AnalysisError::UndefinedVolumeRatio));
    assert_eq!(
        analyzer().analyze_token(&token_x(), &Some(metrics), 5 * HOUR),
        Err(AnalysisError::UndefinedVolumeRatio)
    );
}

#[test]
fn volume_steps() {
    let a = analyzer();
    let cases: Vec<(Dec, i64)> = vec![
        (Dec::from_i64(3), 15),
        (Dec::from_i64(2), 15),
        (Dec::new(199, 2), 12),
        (Dec::from_i64(1), 12),
        (Dec::new(99, 2), 8),
        (Dec::new(5, 1), 8),
        (Dec::new(49, 2), 5),
        (Dec::new(1, 1), 5),
    ];
    for (ratio, expected) in cases {
        let mut flags = Vec::new();
        assert_eq!(a.analyze_volume(&Some(ratio), &mut flags), expected);
        assert!(flags.is_empty());
    }
    let mut flags = Vec::new();
    assert_eq!(a.analyze_volume(&None, &mut flags), 0);
    assert!(flags.is_empty());
}

#[test]
fn low_volume_is_flagged_and_penalised() {
    let a = analyzer();
    let mut flags = Vec::new();
    assert_eq!(a.analyze_volume(&Some(Dec::new(9, 2)), &mut flags), -5);
    assert_eq!(flags, vec!["📈 LOW_VOLUME: Very little trading activity".to_string()]);
}

#[test]
fn price_stability_is_a_fixed_seven() {
    let mut flags = Vec::new();
    assert_eq!(analyzer().analyze_price_stability("addr-x", &mut flags), 7);
    assert!(flags.is_empty());
}

#[test]
fn contract_security_at_its_best() {
    let mut flags = Vec::new();
    assert_eq!(analyzer().analyze_contract_security(&strong_metrics(), &mut flags), 17);
    assert!(flags.is_empty());
}

#[test]
fn contract_security_at_its_worst() {
    let metrics = TokenMetrics {
        is_honeypot: Some(true),
        is_mintable: Some(true),
        has_proxy: Some(true),
        contract_verified: Some(false),
        ..empty_metrics()
    };
    let mut flags = Vec::new();
    assert_eq!(analyzer().analyze_contract_security(&metrics, &mut flags), -68);
    assert_eq!(
        flags,
        vec![
            "🔒 UNVERIFIED_CONTRACT: Cannot audit contract code".to_string(),
            "🍯 HONEYPOT_DETECTED: Cannot sell tokens!".to_string(),
            "🏭 MINTABLE_TOKEN: Supply can be increased".to_string(),
            "🔄 PROXY_CONTRACT: Contract can be upgraded/changed".to_string(),
        ]
    );
}

#[test]
fn contract_security_skips_what_is_unknown() {
    let mut flags = Vec::new();
    assert_eq!(analyzer().analyze_contract_security(&empty_metrics(), &mut flags), 0);
    let metrics = TokenMetrics { is_mintable: Some(true), ..empty_metrics() };
    assert_eq!(analyzer().analyze_contract_security(&metrics, &mut flags), -5);
    assert_eq!(flags, vec!["🏭 MINTABLE_TOKEN: Supply can be increased".to_string()]);
}

#[test]
fn market_timing_steps() {
    let a = analyzer();
    let token = Token { first_seen: 1000, ..token_x() };
    let cases: Vec<(i64, i64, bool)> = vec![
        (1000, 8, true),
        (1000 + HOUR - 1, 8, true),
        (1000 + HOUR, 10, false),
        (1000 + DAY - 1, 10, false),
        (1000 + DAY, 6, false),
        (1000 + 7 * DAY - 1, 6, false),
        (1000 + 7 * DAY, 3, false),
        (0, 8, true),
    ];
    for (now, expected, very_new) in cases {
        let mut flags = Vec::new();
        assert_eq!(a.analyze_market_timing(&token, now, &mut flags), expected);
        if very_new {
            assert_eq!(flags, vec!["🆕 VERY_NEW: Less than 1 hour old".to_string()]);
        } else {
            assert!(flags.is_empty());
        }
    }
}

#[test]
fn market_timing_spans_the_whole_range_of_times() {
    let a = analyzer();
    let token = Token { first_seen: i64::MIN, ..token_x() };
    let mut flags = Vec::new();
    assert_eq!(a.analyze_market_timing(&token, i64::MAX, &mut flags), 3);
    let token = Token { first_seen: i64::MAX, ..token_x() };
    assert_eq!(a.analyze_market_timing(&token, i64::MIN, &mut flags), 8);
}

#[test]
fn risk_level_by_score() {
    let a = analyzer();
    let none: Vec<String> = Vec::new();
    assert_eq!(a.calculate_risk_level(&Dec::new(2999, 2), &none), RiskLevel::Extreme);
    assert_eq!(a.calculate_risk_level(&Dec::from_i64(30), &none), RiskLevel::High);
    assert_eq!(a.calculate_risk_level(&Dec::new(4999, 2), &none), RiskLevel::High);
    assert_eq!(a.calculate_risk_level(&Dec::from_i64(50), &none), RiskLevel::Medium);
    assert_eq!(a.calculate_risk_level(&Dec::new(6999, 2), &none), RiskLevel::Medium);
    assert_eq!(a.calculate_risk_level(&Dec::from_i64(70), &none), RiskLevel::Low);
    assert_eq!(a.calculate_risk_level(&Dec::from_i64(144), &none), RiskLevel::Low);
}

#[test]
fn risk_level_is_extreme_with_a_critical_flag() {
    let a = analyzer();
    let score = Dec::from_i64(100);
    for flag in ["x HONEYPOT y", "WHALE_DOMINATED", "a LOW_LIQUIDITY"] {
        let flags = vec!["harmless".to_string(), flag.to_string()];
        assert_eq!(a.calculate_risk_level(&score, &flags), RiskLevel::Extreme);
    }
    let flags = vec!["UNVERIFIED_CONTRACT".to_string(), "VERY_NEW".to_string()];
    assert_eq!(a.calculate_risk_level(&score, &flags), RiskLevel::Low);
}

#[test]
fn safety_has_its_own_critical_flags() {
    let a = analyzer();
    for flag in ["x HONEYPOT y", "UNVERIFIED_CONTRACT", "a LOW_LIQUIDITY"] {
        assert!(a.has_critical_flags(&vec![flag.to_string()]));
    }
    assert!(!a.has_critical_flags(&vec!["WHALE_DOMINATED".to_string()]));
    assert!(!a.has_critical_flags(&Vec::new()));
}

#[test]
fn recommendation_rules() {
    let a = analyzer();
    let eighty = Dec::from_i64(80);
    assert_eq!(a.make_recommendation(&eighty, &RiskLevel::Low, false), Recommendation::Avoid);
    assert_eq!(a.make_recommendation(&eighty, &RiskLevel::Extreme, true), Recommendation::Avoid);
    assert_eq!(a.make_recommendation(&eighty, &RiskLevel::Low, true), Recommendation::Buy);
    assert_eq!(a.make_recommendation(&eighty, &RiskLevel::Medium, true), Recommendation::Buy);
    assert_eq!(a.make_recommendation(&eighty, &RiskLevel::High, true), Recommendation::Watch);
    assert_eq!(
        a.make_recommendation(&Dec::from_i64(75), &RiskLevel::Low, true),
        Recommendation::Buy
    );
    assert_eq!(
        a.make_recommendation(&Dec::new(7499, 2), &RiskLevel::Low, true),
        Recommendation::Watch
    );
}

#[test]
fn potential_multiplier_steps() {
    let a = analyzer();
    let metrics = with_liquidity(Dec::from_i64(50000));
    let none: Vec<String> = Vec::new();
    let cases: Vec<(Dec, Option<Dec>)> = vec![
        (Dec::from_i64(0), None),
        (Dec::new(5999, 2), None),
        (Dec::from_i64(60), Some(Dec::from_i64(2))),
        (Dec::new(6999, 2), Some(Dec::from_i64(2))),
        (Dec::from_i64(70), Some(Dec::from_i64(5))),
        (Dec::from_i64(74), Some(Dec::from_i64(5))),
        (Dec::from_i64(75), Some(Dec::from_i64(10))),
        (Dec::from_i64(79), Some(Dec::from_i64(10))),
        (Dec::from_i64(80), Some(Dec::from_i64(20))),
        (Dec::from_i64(84), Some(Dec::from_i64(20))),
        (Dec::from_i64(85), Some(Dec::from_i64(50))),
        (Dec::from_i64(89), Some(Dec::from_i64(50))),
        (Dec::from_i64(90), Some(Dec::from_i64(100))),
        (Dec::from_i64(144), Some(Dec::from_i64(100))),
    ];
    for (score, expected) in cases {
        assert_eq!(a.calculate_potential_multiplier(&score, &metrics, &none), expected);
    }
}

#[test]
fn potential_multiplier_adjustments_compose() {
    let a = analyzer();
    let score = Dec::from_i64(72);
    let thin = with_liquidity(Dec::new(4999999, 2));
    let very_new = vec!["🆕 VERY_NEW: Less than 1 hour old".to_string()];
    let none: Vec<String> = Vec::new();
    assert_eq!(a.calculate_potential_multiplier(&score, &thin, &none), Some(Dec::new(75, 1)));
    assert_eq!(
        a.calculate_potential_multiplier(&score, &empty_metrics(), &very_new),
        Some(Dec::from_i64(10))
    );
    assert_eq!(
        a.calculate_potential_multiplier(&score, &thin, &very_new),
        Some(Dec::new(150, 1))
    );
    assert_eq!(
        a.calculate_potential_multiplier(&Dec::from_i64(95), &thin, &very_new),
        Some(Dec::new(3000, 1))
    );
    assert_eq!(a.calculate_potential_multiplier(&Dec::from_i64(59), &thin, &very_new), None);
}

#[test]
fn potential_multiplier_does_not_fall_as_the_score_rises() {
    let a = analyzer();
    let thin = with_liquidity(Dec::from_i64(100));
    let very_new = vec!["VERY_NEW".to_string()];
    let mut last: Option<Dec> = None;
    for score in 55..100 {
        let next = a.calculate_potential_multiplier(&Dec::from_i64(score), &thin, &very_new);
        if score < 60 {
            assert_eq!(next, None);
        }
        if let Some(before) = last {
            assert!(next.unwrap().ge(&before));
        }
        last = next;
    }
}

#[test]
fn insufficient_data_result_is_canned() {
    let result = analyzer().create_insufficient_data_result("addr-x");
    assert_eq!(result.token_address, "addr-x");
    assert_eq!(result.score, Dec::from_i64(20));
    assert!(!result.is_safe);
    assert_eq!(result.risk_level, RiskLevel::High);
    assert_eq!(result.flags, vec!["❓ INSUFFICIENT_DATA: Cannot analyze properly".to_string()]);
    assert_eq!(result.potential_multiplier, None);
    assert_eq!(result.recommendation, Recommendation::Avoid);
}

#[test]
fn a_token_without_metrics_gets_the_canned_result_and_no_signal() {
    let (result, signal) = analyzer().analyze_token(&token_x(), &None, 5 * HOUR).unwrap();
    assert_eq!(result, analyzer().create_insufficient_data_result("addr-x"));
    assert!(signal.is_none());
    let outcome = analyze_token(&trading_config(), &token_x(), &None, 5 * HOUR).unwrap();
    assert!(outcome.signal.is_none());
    assert!(outcome.trade.is_none());
}

#[test]
fn end_to_end_strong_token() {
    let now = 5 * HOUR;
    let (result, signal) =
        analyzer().analyze_token(&token_x(), &Some(strong_metrics()), now).unwrap();
    assert_eq!(result.token_address, "addr-x");
    assert_eq!(result.score, Dec::from_i64(50 + 25 + 10 + 10 + 15 + 7 + 8 + 5 + 2 + 2 + 10));
    assert_eq!(result.score, Dec::from_i64(144));
    assert!(result.flags.is_empty());
    assert_eq!(result.risk_level, RiskLevel::Low);
    assert!(result.is_safe);
    assert_eq!(result.recommendation, Recommendation::Buy);
    assert_eq!(result.potential_multiplier, Some(Dec::from_i64(100)));
    let signal = signal.unwrap();
    assert_eq!(signal.id, None);
    assert_eq!(signal.token_address, "addr-x");
    assert_eq!(signal.signal_type, SignalType::Buy);
    assert_eq!(signal.confidence.to_text(), "1.44");
    assert_eq!(
        signal.reason,
        "🚀 X (Token X) - Score: 144/100, Risk: Low\n📊 Flags: None\n🎯 Target: 100x"
    );
    assert_eq!(signal.target_multiplier, Some(Dec::from_i64(100)));
    assert_eq!(signal.created_at, now);
    assert!(!signal.is_sent);
}

#[test]
fn end_to_end_without_the_honeypot_verdict() {
    let metrics = TokenMetrics { is_honeypot: None, ..strong_metrics() };
    let (result, _) = analyzer().analyze_token(&token_x(), &Some(metrics), 5 * HOUR).unwrap();
    assert_eq!(result.score, Dec::from_i64(139));
    assert_eq!(result.risk_level, RiskLevel::Low);
    assert!(result.is_safe);
    assert_eq!(result.recommendation, Recommendation::Buy);
    assert_eq!(result.potential_multiplier, Some(Dec::from_i64(100)));
}

#[test]
fn a_honeypot_is_always_avoided() {
    let metrics = TokenMetrics { is_honeypot: Some(true), ..strong_metrics() };
    for now in [0, 5 * HOUR, 3 * DAY, 30 * DAY] {
        let (result, signal) =
            analyzer().analyze_token(&token_x(), &Some(metrics.clone()), now).unwrap();
        assert_eq!(result.recommendation, Recommendation::Avoid);
        assert_eq!(result.risk_level, RiskLevel::Extreme);
        assert!(!result.is_safe);
        assert!(signal.is_none());
        assert!(result
            .flags
            .contains(&"🍯 HONEYPOT_DETECTED: Cannot sell tokens!".to_string()));
    }
    let (result, _) = analyzer().analyze_token(&token_x(), &Some(metrics), 5 * HOUR).unwrap();
    assert_eq!(result.score, Dec::from_i64(144 - 55));
}

#[test]
fn flags_come_in_the_order_of_evaluation() {
    let metrics = TokenMetrics {
        liquidity_usd: Some(Dec::from_i64(500)),
        volume_24h_usd: Some(Dec::from_i64(10)),
        holder_count: Some(3),
        top_10_holders_percentage: Some(Dec::from_i64(90)),
        is_honeypot: Some(true),
        is_mintable: Some(true),
        has_proxy: Some(true),
        contract_verified: Some(false),
        ..empty_metrics()
    };
    let (result, signal) = analyzer().analyze_token(&token_x(), &Some(metrics), 60).unwrap();
    assert_eq!(
        result.flags,
        vec![
            "🚨 LOW_LIQUIDITY: May be hard to sell".to_string(),
            "👥 FEW_HOLDERS: Only 3 holders (risky)".to_string(),
            "🐋 WHALE_DOMINATED: Top 10 holders own 90%".to_string(),
            "📈 LOW_VOLUME: Very little trading activity".to_string(),
            "🔒 UNVERIFIED_CONTRACT: Cannot audit contract code".to_string(),
            "🍯 HONEYPOT_DETECTED: Cannot sell tokens!".to_string(),
            "🏭 MINTABLE_TOKEN: Supply can be increased".to_string(),
            "🔄 PROXY_CONTRACT: Contract can be upgraded/changed".to_string(),
            "🆕 VERY_NEW: Less than 1 hour old".to_string(),
        ]
    );
    assert_eq!(result.score, Dec::from_i64(50 - 10 - 5 - 10 - 5 + 7 - 68 + 8));
    assert_eq!(result.risk_level, RiskLevel::Extreme);
    assert!(!result.is_safe);
    assert_eq!(result.recommendation, Recommendation::Avoid);
    assert_eq!(result.potential_multiplier, None);
    assert!(signal.is_none());
}

#[test]
fn an_unverified_contract_is_unsafe_but_not_of_extreme_risk() {
    let metrics = TokenMetrics { contract_verified: Some(false), ..strong_metrics() };
    let (result, signal) =
        analyzer().analyze_token(&token_x(), &Some(metrics), 5 * HOUR).unwrap();
    assert_eq!(result.score, Dec::from_i64(126));
    assert_eq!(result.risk_level, RiskLevel::Low);
    assert!(!result.is_safe);
    assert_eq!(result.recommendation, Recommendation::Avoid);
    assert!(signal.is_none());
}

#[test]
fn whale_domination_is_of_extreme_risk_though_safe() {
    let metrics =
        TokenMetrics { top_10_holders_percentage: Some(Dec::from_i64(61)), ..strong_metrics() };
    let (result, signal) =
        analyzer().analyze_token(&token_x(), &Some(metrics), 5 * HOUR).unwrap();
    assert_eq!(result.score, Dec::from_i64(124));
    assert_eq!(result.risk_level, RiskLevel::Extreme);
    assert!(result.is_safe);
    assert_eq!(result.recommendation, Recommendation::Avoid);
    assert!(signal.is_some());
}

#[test]
fn scoring_twice_gives_the_same_result() {
    let metrics = Some(TokenMetrics { is_mintable: Some(true), ..strong_metrics() });
    let first = analyzer().analyze_token(&token_x(), &metrics, 30 * 60_000_000_000);
    let second = analyzer().analyze_token(&token_x(), &metrics, 30 * 60_000_000_000);
    assert_eq!(first, second);
    assert!(first.is_ok());
    let first = analyze_token(&trading_config(), &token_x(), &metrics, 30 * 60_000_000_000);
    let second = analyze_token(&trading_config(), &token_x(), &metrics, 30 * 60_000_000_000);
    assert_eq!(first, second);
}

#[test]
fn score_takes_the_ratio_as_given() {
    let a = analyzer();
    let result = a.score(&token_x(), &strong_metrics(), &Some(Dec::new(5, 2)), 5 * HOUR);
    assert_eq!(result.score, Dec::from_i64(144 - 15 - 5));
    assert_eq!(result.flags, vec!["📈 LOW_VOLUME: Very little trading activity".to_string()]);
    let result = a.score(&token_x(), &strong_metrics(), &None, 5 * HOUR);
    assert_eq!(result.score, Dec::from_i64(144 - 15));
}

#[test]
fn signal_reason_lists_the_flags_and_defaults_the_target() {
    let a = analyzer();
    let result = result_with(76, vec!["one".to_string(), "two".to_string()]);
    let signal = a.generate_trading_signal(&token_x(), &result, 7).unwrap();
    assert_eq!(
        signal.reason,
        "🚀 X (Token X) - Score: 76/100, Risk: Low\n📊 Flags: one, two\n🎯 Target: 2x"
    );
    assert_eq!(signal.confidence.to_text(), "0.76");
    assert_eq!(signal.target_multiplier, None);
    assert_eq!(signal.created_at, 7);
}

#[test]
fn build_signal_takes_the_confidence_as_given() {
    let a = analyzer();
    let result = AnalysisResult {
        potential_multiplier: Some(Dec::new(75, 1)),
        risk_level: RiskLevel::Medium,
        ..result_with(80, Vec::new())
    };
    let signal = a.build_signal(&token_x(), &result, Dec::new(8, 1), 9);
    assert_eq!(signal.confidence, Dec::new(8, 1));
    assert_eq!(
        signal.reason,
        "🚀 X (Token X) - Score: 80/100, Risk: Medium\n📊 Flags: None\n🎯 Target: 7.5x"
    );
    assert_eq!(signal.target_multiplier, Some(Dec::new(75, 1)));
    assert_eq!(signal.signal_type, SignalType::Buy);
}

#[test]
fn a_signal_needs_safety_and_a_score_of_75() {
    let a = analyzer();
    let weak = TokenMetrics {
        liquidity_usd: Some(Dec::from_i64(10000)),
        volume_24h_usd: None,
        holder_count: None,
        top_10_holders_percentage: None,
        is_honeypot: None,
        is_mintable: None,
        has_proxy: None,
        contract_verified: None,
        ..strong_metrics()
    };
    let (result, signal) = a.analyze_token(&token_x(), &Some(weak.clone()), 5 * HOUR).unwrap();
    assert_eq!(result.score, Dec::from_i64(77));
    assert!(result.is_safe);
    assert!(signal.is_some());
    let (result, signal) = a.analyze_token(&token_x(), &Some(weak), 2 * DAY).unwrap();
    assert_eq!(result.score, Dec::from_i64(73));
    assert!(result.is_safe);
    assert_eq!(result.recommendation, Recommendation::Watch);
    assert!(signal.is_none());
}

#[test]
fn a_trade_is_opened_from_a_score_of_80() {
    let now = 5 * HOUR;
    let outcome = analyze_token(&trading_config(), &token_x(), &Some(strong_metrics()), now).unwrap();
    assert_eq!(outcome.result.score, Dec::from_i64(144));
    assert!(outcome.signal.is_some());
    let trade = outcome.trade.unwrap();
    assert_eq!(trade.id, None);
    assert_eq!(trade.token_address, "addr-x");
    assert_eq!(trade.entry_price, Dec::new(15, 1));
    assert_eq!(trade.entry_time, now);
    assert_eq!(trade.investment_usd, Dec::from_i64(250));
    assert!(trade.is_active);
    assert_eq!(trade.exit_price, None);
    assert_eq!(trade.exit_time, None);
    assert_eq!(trade.profit_loss, None);
    assert_eq!(trade.multiplier, None);
    assert_eq!(trade.exit_reason, None);
}

#[test]
fn no_trade_is_opened_below_80() {
    let weak = TokenMetrics {
        liquidity_usd: Some(Dec::from_i64(20000)),
        volume_24h_usd: None,
        holder_count: None,
        top_10_holders_percentage: None,
        is_honeypot: None,
        is_mintable: None,
        has_proxy: None,
        contract_verified: None,
        ..strong_metrics()
    };
    let outcome = analyze_token(&trading_config(), &token_x(), &Some(weak.clone()), 2 * DAY).unwrap();
    assert_eq!(outcome.result.score, Dec::from_i64(78));
    assert_eq!(outcome.result.recommendation, Recommendation::Buy);
    assert!(outcome.signal.is_some());
    assert!(outcome.trade.is_none());
    let outcome = analyze_token(&trading_config(), &token_x(), &Some(weak), 5 * HOUR).unwrap();
    assert_eq!(outcome.result.score, Dec::from_i64(82));
    assert!(outcome.trade.is_some());
}

#[test]
fn no_trade_is_opened_without_a_price() {
    let metrics = TokenMetrics { price_usd: None, ..strong_metrics() };
    let outcome = analyze_token(&trading_config(), &token_x(), &Some(metrics), 5 * HOUR).unwrap();
    assert_eq!(outcome.result.recommendation, Recommendation::Buy);
    assert!(outcome.signal.is_some());
    assert!(outcome.trade.is_none());
}

#[test]
fn start_simulated_trade_defaults_the_investment() {
    let trade = start_simulated_trade(&token_x(), &Some(strong_metrics()), &None, 11).unwrap();
    assert_eq!(trade.investment_usd, Dec::from_i64(100));
    assert_eq!(trade.entry_price, Dec::new(15, 1));
    assert_eq!(trade.entry_time, 11);
    assert!(start_simulated_trade(&token_x(), &None, &None, 11).is_none());
    assert!(start_simulated_trade(&token_x(), &Some(empty_metrics()), &None, 11).is_none());
}

#[test]
fn ample_liquidity_leaves_no_liquidity_flag_in_the_result() {
    let metrics = TokenMetrics {
        liquidity_usd: Some(Dec::from_i64(100000)),
        volume_24h_usd: Some(Dec::from_i64(1)),
        holder_count: Some(3),
        top_10_holders_percentage: Some(Dec::new(999, 1)),
        is_honeypot: Some(true),
        is_mintable: Some(true),
        has_proxy: Some(true),
        contract_verified: Some(false),
        ..empty_metrics()
    };
    let (result, _) = analyzer().analyze_token(&token_x(), &Some(metrics), 1).unwrap();
    assert_eq!(result.flags.len(), 8);
    for flag in result.flags.iter() {
        assert!(!flag.contains("LOW_LIQUIDITY"));
        assert!(!flag.contains("UNKNOWN_LIQUIDITY"));
    }
    assert_eq!(result.score, Dec::from_i64(50 + 25 - 5 - 10 - 5 + 7 - 68 + 8));
}

#[test]
fn each_flag_carries_only_its_own_tag() {
    let metrics = TokenMetrics {
        liquidity_usd: Some(Dec::from_i64(1)),
        volume_24h_usd: Some(Dec::new(1, 3)),
        holder_count: Some(0),
        top_10_holders_percentage: Some(Dec::new(-615, 1)),
        is_honeypot: Some(true),
        is_mintable: Some(true),
        has_proxy: Some(true),
        contract_verified: Some(false),
        ..empty_metrics()
    };
    let a = analyzer();
    let mut flags = Vec::new();
    a.analyze_liquidity(&empty_metrics(), &mut flags);
    a.analyze_liquidity(&metrics, &mut flags);
    a.analyze_holder_distribution(&metrics, &mut flags);
    a.analyze_holder_distribution(
        &TokenMetrics { top_10_holders_percentage: Some(Dec::new(615, 1)), ..empty_metrics() },
        &mut flags,
    );
    a.analyze_volume(&Some(Dec::new(1, 3)), &mut flags);
    a.analyze_contract_security(&metrics, &mut flags);
    a.analyze_market_timing(&token_x(), 0, &mut flags);
    let tags =
        ["HONEYPOT", "WHALE_DOMINATED", "LOW_LIQUIDITY", "UNKNOWN_LIQUIDITY", "UNVERIFIED_CONTRACT", "VERY_NEW"];
    let owners = [
        Some("UNKNOWN_LIQUIDITY"),
        Some("LOW_LIQUIDITY"),
        None,
        Some("WHALE_DOMINATED"),
        None,
        Some("UNVERIFIED_CONTRACT"),
        Some("HONEYPOT"),
        None,
        None,
        Some("VERY_NEW"),
    ];
    assert_eq!(flags.len(), owners.len());
    for (flag, owner) in flags.iter().zip(owners) {
        for tag in tags {
            assert_eq!(flag.contains(tag), owner == Some(tag), "{flag} / {tag}");
        }
    }
}
