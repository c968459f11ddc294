use crypto_sniper::decimal::Dec;
use crypto_sniper::utils::{
    calculate_percentage_change, is_valid_ethereum_address, is_valid_solana_address, RateLimiter,
};

#[test]
fn percentage_change_of_a_rise() {
    let change = calculate_percentage_change(&Dec::from_i64(100), &Dec::from_i64(150)).unwrap();
    assert!(change.ge(&Dec::from_i64(50)) && change.le(&Dec::from_i64(50)));
    assert_eq!(change.to_text(), "50.00");
}

#[test]
fn percentage_change_of_a_fall() {
    let change = calculate_percentage_change(&Dec::from_i64(200), &Dec::from_i64(50)).unwrap();
    assert!(change.ge(&Dec::from_i64(-75)) && change.le(&Dec::from_i64(-75)));
}

#[test]
fn percentage_change_from_zero_is_zero() {
    assert_eq!(
        calculate_percentage_change(&Dec::from_i64(0), &Dec::from_i64(150)),
        Some(Dec::from_i64(0))
    );
    assert_eq!(
        calculate_percentage_change(&Dec::new(0, 3), &Dec::from_i64(150)),
        Some(Dec::from_i64(0))
    );
}

#[test]
fn percentage_change_out_of_range_is_none() {
    let widest = Dec::try_new(79_228_162_514_264_337_593_543_950_335, 0).unwrap();
    let lowest = Dec::try_new(-79_228_162_514_264_337_593_543_950_335, 0).unwrap();
    assert!(calculate_percentage_change(&lowest, &widest).is_none());
    assert!(calculate_percentage_change(&Dec::new(1, 10), &widest).is_none());
}

#[test]
fn solana_addresses() {
    assert!(is_valid_solana_address("So11111111111111111111111111111111111111112"));
    assert!(is_valid_solana_address("EPjFWdd5AufqSSqeM2qN1xzybapC8G4wEGGkZwyTDt1v"));
    assert!(is_valid_solana_address("11111111111111111111111111111111"));
    assert!(!is_valid_solana_address("1111111111111111111111111111111"));
    assert!(!is_valid_solana_address("111111111111111111111111111111111111111111111"));
    assert!(!is_valid_solana_address("0o11111111111111111111111111111111111111112"));
    assert!(!is_valid_solana_address("SO11111111111111111111111111111111111111112"));
    assert!(!is_valid_solana_address("SI11111111111111111111111111111111111111112"));
    assert!(!is_valid_solana_address("Sl11111111111111111111111111111111111111112"));
    assert!(!is_valid_solana_address("So1111111111111111111111111111111111111111-"));
    assert!(!is_valid_solana_address("é1111111111111111111111111111111111111111"));
    assert!(!is_valid_solana_address(""));
}

#[test]
fn ethereum_addresses() {
    assert!(is_valid_ethereum_address("0x52908400098527886E0F7030069857D2E4169EE7"));
    assert!(is_valid_ethereum_address("0xde709f2102306220921060314715629080e2fb77"));
    assert!(!is_valid_ethereum_address("0xde709f2102306220921060314715629080e2fb7"));
    assert!(!is_valid_ethereum_address("0xde709f2102306220921060314715629080e2fb777"));
    assert!(!is_valid_ethereum_address("1xde709f2102306220921060314715629080e2fb77"));
    assert!(!is_valid_ethereum_address("0Xde709f2102306220921060314715629080e2fb77"));
    assert!(!is_valid_ethereum_address("0xge709f2102306220921060314715629080e2fb77"));
    assert!(!is_valid_ethereum_address("0xde709f2102306220921060314715629080e2fbé7"));
    assert!(!is_valid_ethereum_address(""));
}

#[test]
fn rate_limiter_allows_up_to_the_maximum() {
    let mut limiter = RateLimiter::new(2, 10);
    assert_eq!(limiter.max_requests(), 2);
    assert_eq!(limiter.window(), 10);
    assert!(limiter.check_rate_limit("api", 0));
    assert!(limiter.check_rate_limit("api", 1));
    assert!(!limiter.check_rate_limit("api", 2));
    assert!(!limiter.check_rate_limit("api", 9));
}

#[test]
fn rate_limiter_forgets_what_left_the_window() {
    let mut limiter = RateLimiter::new(2, 10);
    assert!(limiter.check_rate_limit("api", 0));
    assert!(limiter.check_rate_limit("api", 1));
    assert!(!limiter.check_rate_limit("api", 9));
    assert!(limiter.check_rate_limit("api", 10));
    assert!(!limiter.check_rate_limit("api", 10));
    assert!(limiter.check_rate_limit("api", 11));
    assert!(!limiter.check_rate_limit("api", 12));
}

#[test]
fn rate_limiter_keeps_keys_apart() {
    let mut limiter = RateLimiter::new(1, 100);
    assert!(limiter.check_rate_limit("a", 5));
    assert!(limiter.check_rate_limit("b", 5));
    assert!(!limiter.check_rate_limit("a", 6));
    assert!(!limiter.check_rate_limit("b", 6));
    assert!(limiter.check_rate_limit("c", 6));
}

#[test]
fn rate_limiter_with_no_allowance_refuses() {
    let mut limiter = RateLimiter::new(0, 10);
    assert!(!limiter.check_rate_limit("api", 0));
    assert!(!limiter.check_rate_limit("api", 100));
}

#[test]
fn rate_limiter_counts_a_time_in_the_future_as_now() {
    let mut limiter = RateLimiter::new(1, 10);
    assert!(limiter.check_rate_limit("api", 50));
    assert!(!limiter.check_rate_limit("api", 40));
}
