//! Risk limits: an open position is closed when its loss reaches the stop
//! loss or when it has been held for too long.

use crate::decimal::{whole, Dec};
use crate::models::{SimulatedTrade, TokenMetrics, TradeClosure, TradeClosureView};
use crate::strategies::position::{
    decision_view, latest_price, multiplier, profit, spec_latest_price, spec_multiplier,
    spec_profit, TradeError,
};
use crate::text::{i64_to_text, int_text};
use vstd::prelude::*;
use vstd::string::*;

verus! {

/// Nanoseconds in an hour.
pub const HOUR: i64 = 3_600_000_000_000;

/// The whole hours in a span of nanoseconds, rounded towards zero.
pub open spec fn whole_hours(span: int) -> int {
    if span >= 0 {
        span / (HOUR as int)
    } else {
        -((-span) / (HOUR as int))
    }
}

/// The loss of a position as a fraction of its entry price.
pub open spec fn spec_loss(price: Dec, entry_price: Dec) -> Option<Dec> {
    match entry_price.spec_checked_sub(price) {
        Some(drop) => drop.spec_checked_div(entry_price),
        None => None,
    }
}

/// The reason given when the stop loss closes a position.
pub open spec fn stop_loss_reason(loss_percent: Dec) -> Seq<char> {
    "Stop loss triggered ("@ + loss_percent.spec_text_fixed(1) + "% loss)"@
}

/// The reason given when the time limit closes a position.
pub open spec fn max_hold_reason(held: int) -> Seq<char> {
    "Max hold time exceeded ("@ + int_text(whole_hours(held)) + " hours)"@
}

/// Closes positions at a loss limit and at a time limit.
#[derive(Debug, Clone, Copy)]
pub struct RiskManagement {
    /// The loss, as a fraction of the entry price, from which a position is
    /// closed.
    pub stop_loss_pct: Dec,
    /// The hours after which a position is closed.
    pub max_hold_hours: i64,
}

impl RiskManagement {
    /// Whether a position entered at `entry_time` has been held for longer
    /// than the limit at `now`.
    pub open spec fn held_too_long(self, entry_time: i64, now: i64) -> bool {
        now - entry_time > self.max_hold_hours * HOUR
    }

    /// The stop-loss reason for a position, if its price is known and its
    /// loss has reached the limit.
    pub open spec fn spec_stop_loss(self, trade: SimulatedTrade, price: Option<Dec>) -> Result<
        Option<Seq<char>>,
        TradeError,
    > {
        match price {
            None => Ok(None),
            Some(p) => match spec_loss(p, trade.entry_price) {
                None => Err(TradeError::UndefinedLoss),
                Some(loss) => if loss.spec_ge(self.stop_loss_pct) {
                    match loss.spec_checked_mul(whole(100)) {
                        None => Err(TradeError::UndefinedLoss),
                        Some(percent) => Ok(Some(stop_loss_reason(percent))),
                    }
                } else {
                    Ok(None)
                },
            },
        }
    }

    /// The reason to close a position: the time limit where it has passed,
    /// else the stop loss where it has been reached.
    pub open spec fn spec_close_reason(
        self,
        trade: SimulatedTrade,
        price: Option<Dec>,
        now: i64,
    ) -> Result<Option<Seq<char>>, TradeError> {
        match self.spec_stop_loss(trade, price) {
            Err(e) => Err(e),
            Ok(stop) => if self.held_too_long(trade.entry_time, now) {
                Ok(Some(max_hold_reason(now - trade.entry_time)))
            } else {
                Ok(stop)
            },
        }
    }

    /// The decision on one position, given its current price.
    ///
    /// A position that is closed is left alone. A position with a reason to
    /// close is closed only where it has an id and its price is known.
    pub open spec fn spec_decision(
        self,
        trade: SimulatedTrade,
        price: Option<Dec>,
        now: i64,
    ) -> Result<Option<TradeClosureView>, TradeError> {
        if !trade.is_active {
            Ok(None)
        } else {
            match self.spec_close_reason(trade, price, now) {
                Err(e) => Err(e),
                Ok(None) => Ok(None),
                Ok(Some(reason)) => match (trade.id, price) {
                    (Some(id), Some(p)) => match spec_profit(
                        p,
                        trade.entry_price,
                        trade.investment_usd,
                    ) {
                        None => Err(TradeError::UndefinedProfit),
                        Some(amount) => match spec_multiplier(p, trade.entry_price) {
                            None => Err(TradeError::UndefinedMultiplier),
                            Some(multiple) => Ok(
                                Some(
                                    TradeClosureView {
                                        trade_id: id,
                                        exit_price: p,
                                        profit_loss: amount,
                                        multiplier: multiple,
                                        reason,
                                    },
                                ),
                            ),
                        },
                    },
                    _ => Ok(None),
                },
            }
        }
    }

    /// Limits with the given stop loss (a half where it is missing) and the
    /// given number of hours.
    pub fn new(stop_loss_pct: Option<Dec>, max_hold_hours: i64) -> (limits: RiskManagement)
        ensures
            limits.stop_loss_pct == stop_loss_pct.unwrap_or(Dec::spec_new(5, 1)),
            limits.max_hold_hours == max_hold_hours,
    {
        let stop_loss_pct = match stop_loss_pct {
            Some(fraction) => fraction,
            None => Dec::new(5, 1),
        };
        RiskManagement { stop_loss_pct, max_hold_hours }
    }

    /// The stop-loss check on one position.
    pub fn check_stop_loss(
        &self,
        trade: &SimulatedTrade,
        current_price: &Option<Dec>,
    ) -> (reason: Result<Option<String>, TradeError>)
        ensures
            match reason {
                Ok(Some(text)) => self.spec_stop_loss(*trade, *current_price) == Ok::<
                    Option<Seq<char>>,
                    TradeError,
                >(Some(text@)),
                Ok(None) => self.spec_stop_loss(*trade, *current_price) == Ok::<
                    Option<Seq<char>>,
                    TradeError,
                >(None),
                Err(e) => self.spec_stop_loss(*trade, *current_price) == Err::<
                    Option<Seq<char>>,
                    TradeError,
                >(e),
            },
    {
        let price = match current_price {
            Some(p) => *p,
            None => {
                return Ok(None);
            },
        };
        let drop = match trade.entry_price.checked_sub(&price) {
            Some(d) => d,
            None => {
                return Err(TradeError::UndefinedLoss);
            },
        };
        let loss = match drop.checked_div(&trade.entry_price) {
            Some(l) => l,
            None => {
                return Err(TradeError::UndefinedLoss);
            },
        };
        if loss.ge(&self.stop_loss_pct) {
            match loss.checked_mul(&Dec::from_i64(100)) {
                Some(percent) => {
                    let mut text = String::from_str("Stop loss triggered (");
                    text.append(percent.to_text_fixed(1).as_str());
                    text.append("% loss)");
                    Ok(Some(text))
                },
                None => Err(TradeError::UndefinedLoss),
            }
        } else {
            Ok(None)
        }
    }

    /// The time-limit check on one position.
    pub fn check_max_hold(&self, trade: &SimulatedTrade, now: i64) -> (reason: Option<String>)
        ensures
            match reason {
                Some(text) => self.held_too_long(trade.entry_time, now) && text@ == max_hold_reason(
                    now - trade.entry_time,
                ),
                None => !self.held_too_long(trade.entry_time, now),
            },
    {
        let held: i128 = now as i128 - trade.entry_time as i128;
        let limit: i128 = self.max_hold_hours as i128 * HOUR as i128;
        if held > limit {
            let hours: i128 = if held >= 0 {
                held / (HOUR as i128)
            } else {
                -((-held) / (HOUR as i128))
            };
            let mut text = String::from_str("Max hold time exceeded (");
            text.append(i64_to_text(hours as i64).as_str());
            text.append(" hours)");
            Some(text)
        } else {
            None
        }
    }

    /// Decides on one position at the time `now`, given its current price.
    pub fn evaluate(
        &self,
        trade: &SimulatedTrade,
        current_price: &Option<Dec>,
        now: i64,
    ) -> (decision: Result<Option<TradeClosure>, TradeError>)
        ensures
            decision_view(decision) == self.spec_decision(*trade, *current_price, now),
            current_price is None ==> decision matches Ok(None),
            !trade.is_active ==> decision matches Ok(None),
    {
        if !trade.is_active {
            return Ok(None);
        }
        let stop = match self.check_stop_loss(trade, current_price) {
            Ok(reason) => reason,
            Err(e) => {
                return Err(e);
            },
        };
        let reason = match self.check_max_hold(trade, now) {
            Some(text) => Some(text),
            None => stop,
        };
        let reason = match reason {
            Some(text) => text,
            None => {
                return Ok(None);
            },
        };
        let id = match trade.id {
            Some(id) => id,
            None => {
                return Ok(None);
            },
        };
        let price = match current_price {
            Some(p) => *p,
            None => {
                return Ok(None);
            },
        };
        let amount = match profit(&price, &trade.entry_price, &trade.investment_usd) {
            Some(a) => a,
            None => {
                return Err(TradeError::UndefinedProfit);
            },
        };
        let multiple = match multiplier(&price, &trade.entry_price) {
            Some(m) => m,
            None => {
                return Err(TradeError::UndefinedMultiplier);
            },
        };
        Ok(
            Some(
                TradeClosure {
                    trade_id: id,
                    exit_price: price,
                    profit_loss: amount,
                    multiplier: multiple,
                    reason,
                },
            ),
        )
    }

    /// Decides on each of `trades` at the time `now`, taking the current
    /// price of a position from the latest of `snapshots` for its token. The
    /// decisions come in the order of the positions.
    pub fn check_risk_limits(
        &self,
        trades: &Vec<SimulatedTrade>,
        snapshots: &Vec<TokenMetrics>,
        now: i64,
    ) -> (decisions: Vec<Result<Option<TradeClosure>, TradeError>>)
        ensures
            decisions.len() == trades.len(),
            forall|i: int|
                0 <= i < trades.len() ==> decision_view(#[trigger] decisions[i])
                    == self.spec_decision(
                    trades[i],
                    spec_latest_price(snapshots@, trades[i].token_address@),
                    now,
                ),
    {
        let mut decisions: Vec<Result<Option<TradeClosure>, TradeError>> = Vec::new();
        let mut k: usize = 0;
        while k < trades.len()
            invariant
                k <= trades.len(),
                decisions.len() == k,
                forall|i: int|
                    0 <= i < k ==> decision_view(#[trigger] decisions[i]) == self.spec_decision(
                        trades[i],
                        spec_latest_price(snapshots@, trades[i].token_address@),
                        now,
                    ),
            decreases trades.len() - k,
        {
            let price = latest_price(snapshots, &trades[k].token_address);
            let decision = self.evaluate(&trades[k], &price, now);
            decisions.push(decision);
            k += 1;
        }
        decisions
    }
}

} // verus!
