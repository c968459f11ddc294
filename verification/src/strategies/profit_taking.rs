//! Profit taking: an open position is closed at the first target that its
//! current multiple has reached.

use crate::decimal::{whole, Dec};
use crate::models::{SimulatedTrade, TokenMetrics, TradeClosure, TradeClosureView};
use crate::strategies::position::{
    decision_view, latest_price, multiplier, profit, spec_latest_price, spec_multiplier,
    spec_profit, TradeError,
};
use vstd::prelude::*;
use vstd::string::*;

verus! {

/// The index of the first target from `from` on that `multiple` has reached.
pub open spec fn spec_first_reached(targets: Seq<Dec>, multiple: Dec, from: int) -> Option<int>
    decreases targets.len() - from,
{
    if from < 0 || from >= targets.len() {
        None
    } else if multiple.spec_ge(targets[from]) {
        Some(from)
    } else {
        spec_first_reached(targets, multiple, from + 1)
    }
}

/// The first target reached is the lowest in the order of the list: the
/// multiple has reached it, and none of the targets before it. Where no
/// target is found, the multiple has reached none.
pub proof fn lemma_first_reached_is_lowest(targets: Seq<Dec>, multiple: Dec, from: int)
    requires
        0 <= from,
    ensures
        match spec_first_reached(targets, multiple, from) {
            Some(index) => from <= index < targets.len() && multiple.spec_ge(targets[index])
                && forall|j: int| from <= j < index ==> !multiple.spec_ge(#[trigger] targets[j]),
            None => forall|j: int|
                from <= j < targets.len() ==> !multiple.spec_ge(#[trigger] targets[j]),
        },
    decreases targets.len() - from,
{
    if from < targets.len() && !multiple.spec_ge(targets[from]) {
        lemma_first_reached_is_lowest(targets, multiple, from + 1);
    }
}

/// The reason given when a position is closed at `target`.
pub open spec fn target_reason(target: Dec) -> Seq<char> {
    target.spec_text() + "x target reached"@
}

/// The targets for a list of configured numbers: each as it is, 2 in place
/// of one that is missing.
pub open spec fn spec_targets(configured: Seq<Option<Dec>>) -> Seq<Dec> {
    Seq::new(configured.len(), |i: int| configured[i].unwrap_or(whole(2)))
}

/// Closes positions at profit targets.
#[derive(Debug, Clone)]
pub struct ProfitTakingStrategy {
    /// The targets, as multiples of the entry price, in the order in which
    /// they are tried.
    pub targets: Vec<Dec>,
}

impl ProfitTakingStrategy {
    /// The decision on one position, given its current price.
    ///
    /// A position that is closed, or whose price is unknown, is left alone.
    /// Else the first target that the current multiple has reached closes
    /// it, provided the position has an id; no later target is looked at.
    pub open spec fn spec_decision(self, trade: SimulatedTrade, price: Option<Dec>) -> Result<
        Option<TradeClosureView>,
        TradeError,
    > {
        if !trade.is_active {
            Ok(None)
        } else {
            match price {
                None => Ok(None),
                Some(p) => match spec_multiplier(p, trade.entry_price) {
                    None => Err(TradeError::UndefinedMultiplier),
                    Some(multiple) => match spec_first_reached(self.targets@, multiple, 0) {
                        None => Ok(None),
                        Some(index) => match spec_profit(
                            p,
                            trade.entry_price,
                            trade.investment_usd,
                        ) {
                            None => Err(TradeError::UndefinedProfit),
                            Some(amount) => match trade.id {
                                None => Ok(None),
                                Some(id) => Ok(
                                    Some(
                                        TradeClosureView {
                                            trade_id: id,
                                            exit_price: p,
                                            profit_loss: amount,
                                            multiplier: multiple,
                                            reason: target_reason(self.targets@[index]),
                                        },
                                    ),
                                ),
                            },
                        },
                    },
                },
            }
        }
    }

    /// A strategy with the given targets; a target that is missing counts
    /// as 2.
    pub fn new(targets: Vec<Option<Dec>>) -> (strategy: ProfitTakingStrategy)
        ensures
            strategy.targets@ == spec_targets(targets@),
    {
        let mut known: Vec<Dec> = Vec::new();
        let mut k: usize = 0;
        while k < targets.len()
            invariant
                k <= targets.len(),
                known@ == spec_targets(targets@.take(k as int)),
            decreases targets.len() - k,
        {
            let target = match targets[k] {
                Some(t) => t,
                None => Dec::from_i64(2),
            };
            known.push(target);
            assert(known@ =~= spec_targets(targets@.take(k + 1)));
            k += 1;
        }
        assert(targets@.take(targets.len() as int) =~= targets@);
        ProfitTakingStrategy { targets: known }
    }

    /// The index of the first target that `multiple` has reached.
    pub fn first_reached(&self, multiple: &Dec) -> (hit: Option<usize>)
        ensures
            match hit {
                Some(index) => spec_first_reached(self.targets@, *multiple, 0) == Some(
                    index as int,
                ) && index < self.targets.len(),
                None => spec_first_reached(self.targets@, *multiple, 0) is None,
            },
            match hit {
                Some(index) => multiple.spec_ge(self.targets[index as int]) && forall|j: int|
                    0 <= j < index ==> !multiple.spec_ge(#[trigger] self.targets[j]),
                None => forall|j: int|
                    0 <= j < self.targets.len() ==> !multiple.spec_ge(#[trigger] self.targets[j]),
            },
    {
        let mut k: usize = 0;
        while k < self.targets.len()
            invariant
                k <= self.targets.len(),
                spec_first_reached(self.targets@, *multiple, 0) == spec_first_reached(
                    self.targets@,
                    *multiple,
                    k as int,
                ),
                forall|j: int| 0 <= j < k ==> !multiple.spec_ge(#[trigger] self.targets[j]),
            decreases self.targets.len() - k,
        {
            if multiple.ge(&self.targets[k]) {
                return Some(k);
            }
            k += 1;
        }
        None
    }

    /// Decides on one position, given its current price.
    pub fn evaluate(
        &self,
        trade: &SimulatedTrade,
        current_price: &Option<Dec>,
    ) -> (decision: Result<Option<TradeClosure>, TradeError>)
        ensures
            decision_view(decision) == self.spec_decision(*trade, *current_price),
            current_price is None ==> decision matches Ok(None),
            !trade.is_active ==> decision matches Ok(None),
    {
        if !trade.is_active {
            return Ok(None);
        }
        let price = match current_price {
            Some(p) => *p,
            None => {
                return Ok(None);
            },
        };
        let multiple = match multiplier(&price, &trade.entry_price) {
            Some(m) => m,
            None => {
                return Err(TradeError::UndefinedMultiplier);
            },
        };
        let index = match self.first_reached(&multiple) {
            Some(i) => i,
            None => {
                return Ok(None);
            },
        };
        let amount = match profit(&price, &trade.entry_price, &trade.investment_usd) {
            Some(a) => a,
            None => {
                return Err(TradeError::UndefinedProfit);
            },
        };
        match trade.id {
            Some(id) => {
                let mut reason = self.targets[index].to_text();
                reason.append("x target reached");
                Ok(
                    Some(
                        TradeClosure {
                            trade_id: id,
                            exit_price: price,
                            profit_loss: amount,
                            multiplier: multiple,
                            reason,
                        },
                    ),
                )
            },
            None => Ok(None),
        }
    }

    /// Decides on each of `trades`, taking the current price of a position
    /// from the latest of `snapshots` for its token. The decisions come in
    /// the order of the positions.
    pub fn check_profit_targets(
        &self,
        trades: &Vec<SimulatedTrade>,
        snapshots: &Vec<TokenMetrics>,
    ) -> (decisions: Vec<Result<Option<TradeClosure>, TradeError>>)
        ensures
            decisions.len() == trades.len(),
            forall|i: int|
                0 <= i < trades.len() ==> decision_view(#[trigger] decisions[i])
                    == self.spec_decision(
                    trades[i],
                    spec_latest_price(snapshots@, trades[i].token_address@),
                ),
    {
        let mut decisions: Vec<Result<Option<TradeClosure>, TradeError>> = Vec::new();
        let mut k: usize = 0;
        while k < trades.len()
            invariant
                k <= trades.len(),
                decisions.len() == k,
                forall|i: int|
                    0 <= i < k ==> decision_view(#[trigger] decisions[i]) == self.spec_decision(
                        trades[i],
                        spec_latest_price(snapshots@, trades[i].token_address@),
                    ),
            decreases trades.len() - k,
        {
            let price = latest_price(snapshots, &trades[k].token_address);
            let decision = self.evaluate(&trades[k], &price);
            decisions.push(decision);
            k += 1;
        }
        decisions
    }
}

} // verus!
