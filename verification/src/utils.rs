//! Small helpers: price changes, the shape of addresses, and a limiter of
//! request rates.

use crate::decimal::{whole, Dec};
use vstd::hash_map::StringHashMap;
use vstd::prelude::*;
use vstd::string::*;

verus! {

/// The change from `old_price` to `new_price` in percent of the old price:
/// zero where the old price is zero, and nothing where a step of the
/// calculation is not a decimal.
pub open spec fn spec_percentage_change(old_price: Dec, new_price: Dec) -> Option<Dec> {
    if old_price.mantissa() == 0 {
        Some(whole(0))
    } else {
        match new_price.spec_checked_sub(old_price) {
            Some(change) => match change.spec_checked_div(old_price) {
                Some(fraction) => fraction.spec_checked_mul(whole(100)),
                None => None,
            },
            None => None,
        }
    }
}

/// The change from `old_price` to `new_price` in percent of the old price.
pub fn calculate_percentage_change(old_price: &Dec, new_price: &Dec) -> (change: Option<Dec>)
    ensures
        change == spec_percentage_change(*old_price, *new_price),
        old_price.mantissa() == 0 ==> change == Some(whole(0)),
{
    if old_price.mantissa() == 0 {
        return Some(Dec::from_i64(0));
    }
    match new_price.checked_sub(old_price) {
        Some(change) => match change.checked_div(old_price) {
            Some(fraction) => fraction.checked_mul(&Dec::from_i64(100)),
            None => None,
        },
        None => None,
    }
}

/// An ASCII letter or digit.
pub open spec fn is_ascii_alphanumeric(c: char) -> bool {
    ('0' <= c <= '9') || ('a' <= c <= 'z') || ('A' <= c <= 'Z')
}

/// A character of the base-58 alphabet: an ASCII letter or digit other
/// than `0`, `O`, `I` and `l`.
pub open spec fn is_base58_char(c: char) -> bool {
    is_ascii_alphanumeric(c) && c != '0' && c != 'O' && c != 'I' && c != 'l'
}

/// A hexadecimal digit, in either case.
pub open spec fn is_hex_digit(c: char) -> bool {
    ('0' <= c <= '9') || ('a' <= c <= 'f') || ('A' <= c <= 'F')
}

/// The shape of a Solana address: 32 to 44 base-58 characters.
pub open spec fn spec_valid_solana_address(address: Seq<char>) -> bool {
    &&& 32 <= address.len() <= 44
    &&& forall|i: int| 0 <= i < address.len() ==> is_base58_char(#[trigger] address[i])
}

/// The shape of an Ethereum address: `0x` and 40 hexadecimal digits.
pub open spec fn spec_valid_ethereum_address(address: Seq<char>) -> bool {
    &&& address.len() == 42
    &&& address[0] == '0'
    &&& address[1] == 'x'
    &&& forall|i: int| 2 <= i < address.len() ==> is_hex_digit(#[trigger] address[i])
}

/// Whether `c` is a character of the base-58 alphabet.
fn base58_char(c: char) -> (yes: bool)
    ensures
        yes == is_base58_char(c),
{
    let alphanumeric = ('0' <= c && c <= '9') || ('a' <= c && c <= 'z') || ('A' <= c && c <= 'Z');
    alphanumeric && c != '0' && c != 'O' && c != 'I' && c != 'l'
}

/// Whether `c` is a hexadecimal digit.
fn hex_digit(c: char) -> (yes: bool)
    ensures
        yes == is_hex_digit(c),
{
    ('0' <= c && c <= '9') || ('a' <= c && c <= 'f') || ('A' <= c && c <= 'F')
}

/// Whether `address` has the shape of a Solana address.
pub fn is_valid_solana_address(address: &str) -> (valid: bool)
    ensures
        valid == spec_valid_solana_address(address@),
{
    let length = address.unicode_len();
    if length < 32 || length > 44 {
        return false;
    }
    let mut k: usize = 0;
    while k < length
        invariant
            length == address@.len(),
            k <= length,
            forall|i: int| 0 <= i < k ==> is_base58_char(#[trigger] address@[i]),
        decreases length - k,
    {
        if !base58_char(address.get_char(k)) {
            return false;
        }
        k += 1;
    }
    true
}

/// Whether `address` has the shape of an Ethereum address.
pub fn is_valid_ethereum_address(address: &str) -> (valid: bool)
    ensures
        valid == spec_valid_ethereum_address(address@),
{
    let length = address.unicode_len();
    if length != 42 {
        return false;
    }
    if address.get_char(0) != '0' || address.get_char(1) != 'x' {
        return false;
    }
    let mut k: usize = 2;
    while k < length
        invariant
            length == address@.len(),
            2 <= k <= length,
            forall|i: int| 2 <= i < k ==> is_hex_digit(#[trigger] address@[i]),
        decreases length - k,
    {
        if !hex_digit(address.get_char(k)) {
            return false;
        }
        k += 1;
    }
    true
}

/// The time from `earlier` to `now`, zero where `earlier` is not earlier.
pub open spec fn elapsed(now: u64, earlier: u64) -> int {
    if now >= earlier {
        now - earlier
    } else {
        0
    }
}

/// The entries of `times` that lie less than `window` before `now`, in
/// their order.
pub open spec fn recent(times: Seq<u64>, now: u64, window: u64) -> Seq<u64>
    decreases times.len(),
{
    if times.len() == 0 {
        Seq::empty()
    } else {
        let earlier = recent(times.drop_last(), now, window);
        if elapsed(now, times.last()) < window {
            earlier.push(times.last())
        } else {
            earlier
        }
    }
}

/// Limits the rate of requests per key: at most `max_requests` within any
/// span of `window` units of time. Times are counted in whatever unit the
/// caller chooses, from whatever origin.
pub struct RateLimiter {
    requests: StringHashMap<Vec<u64>>,
    max_requests: usize,
    window: u64,
}

impl RateLimiter {
    /// The greatest number of requests within a window.
    pub closed spec fn spec_max_requests(&self) -> usize {
        self.max_requests
    }

    /// The length of the window.
    pub closed spec fn spec_window(&self) -> u64 {
        self.window
    }

    /// The times of the requests that are on record for `key`, oldest
    /// first.
    pub closed spec fn recorded(self, key: Seq<char>) -> Seq<u64> {
        if self.requests@.contains_key(key) {
            self.requests@[key]@
        } else {
            Seq::empty()
        }
    }

    /// A limiter with nothing on record.
    pub fn new(max_requests: usize, window: u64) -> (limiter: RateLimiter)
        ensures
            limiter.max_requests() == max_requests,
            limiter.window() == window,
            forall|key: Seq<char>| #[trigger] limiter.recorded(key) == Seq::<u64>::empty(),
    {
        RateLimiter { requests: StringHashMap::new(), max_requests, window }
    }

    /// The greatest number of requests within a window.
    #[verifier::when_used_as_spec(spec_max_requests)]
    pub fn max_requests(&self) -> (max: usize)
        ensures
            max == self.max_requests(),
    {
        self.max_requests
    }

    /// The length of the window.
    #[verifier::when_used_as_spec(spec_window)]
    pub fn window(&self) -> (window: u64)
        ensures
            window == self.window(),
    {
        self.window
    }

    /// Asks for one more request for `key` at the time `now`.
    ///
    /// Requests for `key` that lie a window or more before `now` are
    /// forgotten. The request is allowed where fewer than the maximum
    /// remain, and is then put on record; else it is refused and leaves no
    /// trace. The records of other keys stay as they are.
    pub fn check_rate_limit(&mut self, key: &str, now: u64) -> (allowed: bool)
        ensures
            allowed == (recent(old(self).recorded(key@), now, old(self).window()).len() < old(
                self,
            ).max_requests()),
            final(self).recorded(key@) == if allowed {
                recent(old(self).recorded(key@), now, old(self).window()).push(now)
            } else {
                recent(old(self).recorded(key@), now, old(self).window())
            },
            forall|other: Seq<char>|
                other != key@ ==> #[trigger] final(self).recorded(other) == old(self).recorded(
                    other,
                ),
            final(self).max_requests() == old(self).max_requests(),
            final(self).window() == old(self).window(),
    {
        let mut kept: Vec<u64> = match self.requests.get(key) {
            Some(times) => keep_recent(times, now, self.window),
            None => Vec::new(),
        };
        let allowed = kept.len() < self.max_requests;
        if allowed {
            kept.push(now);
        }
        self.requests.insert(String::from_str(key), kept);
        allowed
    }
}

/// The entries of `times` that lie less than `window` before `now`.
fn keep_recent(times: &Vec<u64>, now: u64, window: u64) -> (kept: Vec<u64>)
    ensures
        kept@ == recent(times@, now, window),
{
    let mut kept: Vec<u64> = Vec::new();
    let mut k: usize = 0;
    assert(times@.take(0) =~= Seq::<u64>::empty());
    while k < times.len()
        invariant
            k <= times.len(),
            kept@ == recent(times@.take(k as int), now, window),
        decreases times.len() - k,
    {
        proof {
            let longer = times@.take(k + 1);
            assert(longer.drop_last() =~= times@.take(k as int));
            assert(longer.last() == times[k as int]);
        }
        let time = times[k];
        let passed: u64 = if now >= time {
            now - time
        } else {
            0
        };
        if passed < window {
            kept.push(time);
        }
        k += 1;
    }
    assert(times@.take(times.len() as int) =~= times@);
    kept
}

} // verus!
