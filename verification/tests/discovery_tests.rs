use crypto_sniper::analyzers::honeypot_checker::{FailurePolicy, HoneypotChecker, OracleReply};
use crypto_sniper::analyzers::whale_analyzer::WhaleAnalyzer;
use crypto_sniper::config::ScanIntervals;
use crypto_sniper::decimal::Dec;
use crypto_sniper::scanners::dex_screener::{
    convert_to_metrics, endpoint, is_supported_chain, next_step, should_track_token,
    status_explanation, token_from_listing, AttemptOutcome, FetchStep, ListingWarnings,
};
use crypto_sniper::scanners::pump_fun::PumpFunScanner;
use crypto_sniper::scanners::whale_tracker::WhaleTracker;

fn no_warnings() -> ListingWarnings {
    ListingWarnings {
        extreme_price_change: false,
        negligible_liquidity: false,
        negligible_volume: false,
    }
}

#[test]
fn chain_ids_ignore_the_case_of_the_name() {
    let checker = HoneypotChecker::new();
    assert_eq!(checker.get_chain_id("ethereum"), 1);
    assert_eq!(checker.get_chain_id("Ethereum"), 1);
    assert_eq!(checker.get_chain_id("BSC"), 56);
    assert_eq!(checker.get_chain_id("Polygon"), 137);
    assert_eq!(checker.get_chain_id("SOLANA"), 101);
    assert_eq!(checker.get_chain_id("avalanche"), 1);
    assert_eq!(checker.get_chain_id(""), 1);
}

#[test]
fn chain_id_of_takes_the_name_as_given() {
    assert_eq!(HoneypotChecker::chain_id_of("bsc"), 56);
    assert_eq!(HoneypotChecker::chain_id_of("BSC"), 1);
    assert_eq!(HoneypotChecker::chain_id_of("solana"), 101);
    assert_eq!(HoneypotChecker::chain_id_of("polygon"), 137);
}

#[test]
fn request_url_names_the_token_and_the_chain() {
    let checker = HoneypotChecker::new();
    assert_eq!(
        checker.request_url("BSC", "0xabc"),
        "https://api.honeypot.is/v2/IsHoneypot?address=0xabc&chainID=56"
    );
    assert_eq!(
        checker.request_url("nowhere", "T"),
        "https://api.honeypot.is/v2/IsHoneypot?address=T&chainID=1"
    );
}

#[test]
fn a_verdict_is_taken_as_it_is() {
    for checker in [HoneypotChecker::new(), HoneypotChecker::with_policy(FailurePolicy::Unknown)] {
        assert_eq!(checker.check_honeypot(OracleReply::Verdict(true)), Some(true));
        assert_eq!(checker.check_honeypot(OracleReply::Verdict(false)), Some(false));
    }
}

#[test]
fn a_failure_is_decided_by_the_policy() {
    let trusting = HoneypotChecker::new();
    assert_eq!(trusting.policy, FailurePolicy::AssumeSafe);
    assert_eq!(trusting.check_honeypot(OracleReply::Rejected), Some(false));
    assert_eq!(trusting.check_honeypot(OracleReply::Unreachable), Some(false));
    let careful = HoneypotChecker::with_policy(FailurePolicy::Unknown);
    assert_eq!(careful.check_honeypot(OracleReply::Rejected), None);
    assert_eq!(careful.check_honeypot(OracleReply::Unreachable), None);
}

#[test]
fn supported_chains() {
    for chain in ["solana", "ethereum", "bsc", "polygon", "arbitrum", "avalanche", "pulsechain"] {
        assert!(is_supported_chain(chain));
    }
    assert!(!is_supported_chain("Solana"));
    assert!(!is_supported_chain("base"));
    assert!(!is_supported_chain(""));
}

#[test]
fn listings_are_filtered() {
    assert!(should_track_token("solana", "SOL", "Wrapped SOL", no_warnings()));
    assert!(!should_track_token("base", "SOL", "Wrapped SOL", no_warnings()));
    assert!(should_track_token("solana", "12345678901234567890", "n", no_warnings()));
    assert!(!should_track_token("solana", "123456789012345678901", "n", no_warnings()));
    assert!(!should_track_token("solana", "ééééééééééé", "n", no_warnings()));
    let fifty = "x".repeat(50);
    let fifty_one = "x".repeat(51);
    assert!(should_track_token("solana", "S", &fifty, no_warnings()));
    assert!(!should_track_token("solana", "S", &fifty_one, no_warnings()));
    assert!(!should_track_token(
        "solana",
        "S",
        "n",
        ListingWarnings { extreme_price_change: true, ..no_warnings() }
    ));
    assert!(!should_track_token(
        "solana",
        "S",
        "n",
        ListingWarnings { negligible_liquidity: true, ..no_warnings() }
    ));
    assert!(!should_track_token(
        "solana",
        "S",
        "n",
        ListingWarnings { negligible_volume: true, ..no_warnings() }
    ));
}

#[test]
fn statuses_are_explained() {
    assert_eq!(status_explanation(429), "Rate limited - too many requests");
    assert_eq!(status_explanation(403), "Forbidden - possible geographic restriction");
    assert_eq!(status_explanation(404), "Endpoint not found");
    assert_eq!(status_explanation(500), "Server error");
    assert_eq!(status_explanation(599), "Server error");
    assert_eq!(status_explanation(600), "Unknown error");
    assert_eq!(status_explanation(499), "Unknown error");
    assert_eq!(status_explanation(0), "Unknown error");
}

#[test]
fn endpoints_come_in_a_fixed_order() {
    assert_eq!(
        endpoint(0),
        ("trending", "https://api.dexscreener.com/latest/dex/tokens/trending")
    );
    assert_eq!(endpoint(1), ("search_sol", "https://api.dexscreener.com/latest/dex/search?q=SOL"));
    assert_eq!(endpoint(2), ("search_eth", "https://api.dexscreener.com/latest/dex/search?q=ETH"));
    assert_eq!(endpoint(3), ("search_bnb", "https://api.dexscreener.com/latest/dex/search?q=BNB"));
    assert_eq!(
        endpoint(4),
        ("search_usdc", "https://api.dexscreener.com/latest/dex/search?q=USDC")
    );
    assert_eq!(
        endpoint(5),
        ("search_wbtc", "https://api.dexscreener.com/latest/dex/search?q=WBTC")
    );
    assert_eq!(
        endpoint(6),
        ("search_solana", "https://api.dexscreener.com/latest/dex/search?q=solana")
    );
    assert_eq!(
        endpoint(7),
        ("search_ethereum", "https://api.dexscreener.com/latest/dex/search?q=ethereum")
    );
}

#[test]
fn an_answer_with_listings_ends_the_scan() {
    assert_eq!(next_step(0, 1, AttemptOutcome::Listings(3)), FetchStep::Take { count: 3 });
    assert_eq!(next_step(7, 2, AttemptOutcome::Listings(10)), FetchStep::Take { count: 10 });
    assert_eq!(next_step(3, 1, AttemptOutcome::Listings(11)), FetchStep::Take { count: 10 });
    assert_eq!(next_step(3, 1, AttemptOutcome::Listings(usize::MAX)), FetchStep::Take { count: 10 });
}

#[test]
fn an_empty_answer_moves_on_at_once() {
    assert_eq!(next_step(0, 1, AttemptOutcome::Listings(0)), FetchStep::NextEndpoint { index: 1 });
    assert_eq!(next_step(6, 1, AttemptOutcome::Listings(0)), FetchStep::NextEndpoint { index: 7 });
    assert_eq!(next_step(7, 1, AttemptOutcome::Listings(0)), FetchStep::GiveUp);
}

#[test]
fn a_failure_is_retried_once() {
    assert_eq!(next_step(0, 1, AttemptOutcome::Failed), FetchStep::Retry { attempt: 2 });
    assert_eq!(next_step(0, 2, AttemptOutcome::Failed), FetchStep::NextEndpoint { index: 1 });
    assert_eq!(next_step(7, 1, AttemptOutcome::Failed), FetchStep::Retry { attempt: 2 });
    assert_eq!(next_step(7, 2, AttemptOutcome::Failed), FetchStep::GiveUp);
    assert_eq!(next_step(usize::MAX, u32::MAX, AttemptOutcome::Failed), FetchStep::GiveUp);
}

#[test]
fn a_listing_becomes_a_token() {
    let token = token_from_listing("addr", "SYM", "Name", "solana", 77);
    assert_eq!(token.id, None);
    assert_eq!(token.address, "addr");
    assert_eq!(token.symbol, "SYM");
    assert_eq!(token.name, "Name");
    assert_eq!(token.chain, "solana");
    assert_eq!(token.source, "dex_screener");
    assert_eq!(token.created_at, 77);
    assert_eq!(token.first_seen, 77);
    assert!(token.is_active);
}

#[test]
fn a_listing_becomes_metrics() {
    let metrics = convert_to_metrics(
        "addr",
        77,
        Some(Dec::from_i64(150)),
        None,
        Some(Dec::from_i64(50000)),
        Some(Dec::from_i64(100000)),
    );
    assert_eq!(metrics.id, None);
    assert_eq!(metrics.token_address, "addr");
    assert_eq!(metrics.timestamp, 77);
    assert_eq!(metrics.price_usd, Some(Dec::from_i64(150)));
    assert_eq!(metrics.market_cap_usd, None);
    assert_eq!(metrics.liquidity_usd, Some(Dec::from_i64(50000)));
    assert_eq!(metrics.volume_24h_usd, Some(Dec::from_i64(100000)));
    assert_eq!(metrics.total_supply, None);
    assert_eq!(metrics.circulating_supply, None);
    assert_eq!(metrics.holder_count, None);
    assert_eq!(metrics.top_10_holders_percentage, None);
    assert_eq!(metrics.is_honeypot, None);
    assert_eq!(metrics.is_mintable, None);
    assert_eq!(metrics.has_proxy, None);
    assert_eq!(metrics.contract_verified, None);
}

#[test]
fn stateless_parts_can_be_made() {
    let _analyzer: WhaleAnalyzer = WhaleAnalyzer::new();
    let _scanner: PumpFunScanner = PumpFunScanner::new();
    let _tracker: WhaleTracker = WhaleTracker::new();
    let intervals =
        ScanIntervals { dex_screener: 30, pump_fun: 10, whale_tracking: 60, twitter_monitoring: 120 };
    assert_eq!(intervals.clone().dex_screener, 30);
}
