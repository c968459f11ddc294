//! What the rules share: the latest price of a token, the figures of a
//! closure, and the decision on one position.

use crate::decimal::Dec;
use crate::models::{TokenMetrics, TradeClosure, TradeClosureView};
use vstd::prelude::*;
use vstd::string::*;

verus! {

/// Why no decision could be made on a position.
#[derive(Debug, Clone, Copy, PartialEq, Eq, Structural)]
pub enum TradeError {
    /// The current price over the entry price is not a decimal.
    UndefinedMultiplier,
    /// The profit or loss in USD is not a decimal.
    UndefinedProfit,
    /// The loss as a fraction of the entry price, or that fraction in
    /// percent, is not a decimal.
    UndefinedLoss,
}

/// The decision of a rule on one position: to close it, to leave it open,
/// or the error that prevented a decision.
pub open spec fn decision_view(decision: Result<Option<TradeClosure>, TradeError>) -> Result<
    Option<TradeClosureView>,
    TradeError,
> {
    match decision {
        Ok(Some(closure)) => Ok(Some(closure@)),
        Ok(None) => Ok(None),
        Err(e) => Err(e),
    }
}

/// The current price as a multiple of the entry price.
pub open spec fn spec_multiplier(price: Dec, entry_price: Dec) -> Option<Dec> {
    price.spec_checked_div(entry_price)
}

/// Profit or loss in USD: the change in price, times the investment, over
/// the entry price.
pub open spec fn spec_profit(price: Dec, entry_price: Dec, investment_usd: Dec) -> Option<Dec> {
    match price.spec_checked_sub(entry_price) {
        Some(change) => match change.spec_checked_mul(investment_usd) {
            Some(gain) => gain.spec_checked_div(entry_price),
            None => None,
        },
        None => None,
    }
}

/// The snapshot for `address` with the greatest timestamp; of two with the
/// same timestamp, the later in the list.
pub open spec fn spec_latest_metrics(snapshots: Seq<TokenMetrics>, address: Seq<char>) -> Option<
    TokenMetrics,
>
    decreases snapshots.len(),
{
    if snapshots.len() == 0 {
        None
    } else {
        let earlier = spec_latest_metrics(snapshots.drop_last(), address);
        let last = snapshots.last();
        if last.token_address@ == address && (earlier matches Some(e) ==> last.timestamp
            >= e.timestamp) {
            Some(last)
        } else {
            earlier
        }
    }
}

/// The price in the latest snapshot for `address`, if there is one.
pub open spec fn spec_latest_price(snapshots: Seq<TokenMetrics>, address: Seq<char>) -> Option<Dec> {
    match spec_latest_metrics(snapshots, address) {
        Some(metrics) => metrics.price_usd,
        None => None,
    }
}

/// The current price as a multiple of the entry price, or `None` where the
/// entry price is zero or the quotient is out of range.
pub fn multiplier(price: &Dec, entry_price: &Dec) -> (multiple: Option<Dec>)
    ensures
        multiple == spec_multiplier(*price, *entry_price),
        entry_price.mantissa() == 0 ==> multiple is None,
{
    price.checked_div(entry_price)
}

/// Profit or loss in USD of a position entered at `entry_price` with
/// `investment_usd` and now priced at `price`, or `None` where a step of
/// the calculation is not a decimal.
pub fn profit(price: &Dec, entry_price: &Dec, investment_usd: &Dec) -> (amount: Option<Dec>)
    ensures
        amount == spec_profit(*price, *entry_price, *investment_usd),
{
    match price.checked_sub(entry_price) {
        Some(change) => match change.checked_mul(investment_usd) {
            Some(gain) => gain.checked_div(entry_price),
            None => None,
        },
        None => None,
    }
}

/// The index of the latest snapshot for `address`.
pub fn find_latest_metrics(
    snapshots: &Vec<TokenMetrics>,
    address: &String,
) -> (found: Option<usize>)
    ensures
        match found {
            Some(index) => index < snapshots.len() && spec_latest_metrics(snapshots@, address@)
                == Some(snapshots[index as int]),
            None => spec_latest_metrics(snapshots@, address@) is None,
        },
{
    let mut found: Option<usize> = None;
    let mut k: usize = 0;
    assert(snapshots@.take(0) =~= Seq::<TokenMetrics>::empty());
    while k < snapshots.len()
        invariant
            k <= snapshots.len(),
            match found {
                Some(index) => index < k && spec_latest_metrics(snapshots@.take(k as int), address@)
                    == Some(snapshots[index as int]),
                None => spec_latest_metrics(snapshots@.take(k as int), address@) is None,
            },
        decreases snapshots.len() - k,
    {
        proof {
            let longer = snapshots@.take(k + 1);
            assert(longer.drop_last() =~= snapshots@.take(k as int));
            assert(longer.last() == snapshots[k as int]);
        }
        if snapshots[k].token_address == *address {
            let newer = match found {
                Some(index) => snapshots[k].timestamp >= snapshots[index].timestamp,
                None => true,
            };
            if newer {
                found = Some(k);
            }
        }
        k += 1;
    }
    assert(snapshots@.take(snapshots.len() as int) =~= snapshots@);
    found
}

/// The price in the latest snapshot for `address`, if there is one.
pub fn latest_price(snapshots: &Vec<TokenMetrics>, address: &String) -> (price: Option<Dec>)
    ensures
        price == spec_latest_price(snapshots@, address@),
{
    match find_latest_metrics(snapshots, address) {
        Some(index) => snapshots[index].price_usd,
        None => None,
    }
}

} // verus!
