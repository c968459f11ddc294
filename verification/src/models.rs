//! The records that the engine reads and produces.
//!
//! Points in time are whole nanoseconds since the Unix epoch.

use crate::decimal::Dec;
use crate::text::same_text;
use vstd::prelude::*;
use vstd::string::*;

verus! {

/// How risky a token is judged to be.
#[derive(Debug, Clone, Copy, PartialEq, Eq, Structural)]
pub enum RiskLevel {
    Low,
    Medium,
    High,
    Extreme,
}

/// What to do about a token.
#[derive(Debug, Clone, Copy, PartialEq, Eq, Structural)]
pub enum Recommendation {
    Buy,
    Watch,
    Avoid,
}

/// The kind of a trading signal.
#[derive(Debug, Clone, Copy, PartialEq, Eq, Structural)]
pub enum SignalType {
    Buy,
    Sell,
    Warning,
    WhaleMovement,
}

/// The identity of a token.
#[derive(Debug, Clone, PartialEq, Eq)]
pub struct Token {
    pub id: Option<i64>,
    pub address: String,
    pub symbol: String,
    pub name: String,
    pub chain: String,
    pub source: String,
    pub created_at: i64,
    pub first_seen: i64,
    pub is_active: bool,
}

/// Market facts about a token at one point in time. A field that is `None`
/// is unknown, not zero.
#[derive(Debug, Clone, PartialEq, Eq)]
pub struct TokenMetrics {
    pub id: Option<i64>,
    pub token_address: String,
    pub timestamp: i64,
    pub price_usd: Option<Dec>,
    pub market_cap_usd: Option<Dec>,
    pub liquidity_usd: Option<Dec>,
    pub volume_24h_usd: Option<Dec>,
    pub total_supply: Option<Dec>,
    pub circulating_supply: Option<Dec>,
    pub holder_count: Option<u32>,
    pub top_10_holders_percentage: Option<Dec>,
    pub is_honeypot: Option<bool>,
    pub is_mintable: Option<bool>,
    pub has_proxy: Option<bool>,
    pub contract_verified: Option<bool>,
}

/// The outcome of scoring one token.
#[derive(Debug, Clone, PartialEq, Eq)]
pub struct AnalysisResult {
    pub token_address: String,
    pub score: Dec,
    pub is_safe: bool,
    pub risk_level: RiskLevel,
    pub flags: Vec<String>,
    pub potential_multiplier: Option<Dec>,
    pub recommendation: Recommendation,
}

/// An [`AnalysisResult`] with its texts as sequences of characters.
pub ghost struct AnalysisResultView {
    pub token_address: Seq<char>,
    pub score: Dec,
    pub is_safe: bool,
    pub risk_level: RiskLevel,
    pub flags: Seq<Seq<char>>,
    pub potential_multiplier: Option<Dec>,
    pub recommendation: Recommendation,
}

impl View for AnalysisResult {
    type V = AnalysisResultView;

    open spec fn view(&self) -> AnalysisResultView {
        AnalysisResultView {
            token_address: self.token_address@,
            score: self.score,
            is_safe: self.is_safe,
            risk_level: self.risk_level,
            flags: self.flags.deep_view(),
            potential_multiplier: self.potential_multiplier,
            recommendation: self.recommendation,
        }
    }
}

/// A signal for the operator.
#[derive(Debug, Clone, PartialEq, Eq)]
pub struct TradingSignal {
    pub id: Option<i64>,
    pub token_address: String,
    pub signal_type: SignalType,
    pub confidence: Dec,
    pub reason: String,
    pub target_multiplier: Option<Dec>,
    pub created_at: i64,
    pub is_sent: bool,
}

/// A [`TradingSignal`] with its texts as sequences of characters.
pub ghost struct TradingSignalView {
    pub id: Option<i64>,
    pub token_address: Seq<char>,
    pub signal_type: SignalType,
    pub confidence: Dec,
    pub reason: Seq<char>,
    pub target_multiplier: Option<Dec>,
    pub created_at: i64,
    pub is_sent: bool,
}

impl View for TradingSignal {
    type V = TradingSignalView;

    open spec fn view(&self) -> TradingSignalView {
        TradingSignalView {
            id: self.id,
            token_address: self.token_address@,
            signal_type: self.signal_type,
            confidence: self.confidence,
            reason: self.reason@,
            target_multiplier: self.target_multiplier,
            created_at: self.created_at,
            is_sent: self.is_sent,
        }
    }
}

impl TradingSignal {
    /// Records that the signal was delivered.
    pub fn mark_sent(&mut self)
        ensures
            final(self)@ == (TradingSignalView { is_sent: true, ..old(self)@ }),
    {
        self.is_sent = true;
    }
}

/// A position that is held on paper only.
#[derive(Debug, Clone, PartialEq, Eq)]
pub struct SimulatedTrade {
    pub id: Option<i64>,
    pub token_address: String,
    pub entry_price: Dec,
    pub entry_time: i64,
    pub exit_price: Option<Dec>,
    pub exit_time: Option<i64>,
    pub investment_usd: Dec,
    pub profit_loss: Option<Dec>,
    pub multiplier: Option<Dec>,
    pub exit_reason: Option<String>,
    pub is_active: bool,
}

/// A [`SimulatedTrade`] with its texts as sequences of characters.
pub ghost struct SimulatedTradeView {
    pub id: Option<i64>,
    pub token_address: Seq<char>,
    pub entry_price: Dec,
    pub entry_time: i64,
    pub exit_price: Option<Dec>,
    pub exit_time: Option<i64>,
    pub investment_usd: Dec,
    pub profit_loss: Option<Dec>,
    pub multiplier: Option<Dec>,
    pub exit_reason: Option<Seq<char>>,
    pub is_active: bool,
}

impl SimulatedTradeView {
    /// A position that is no longer open carries all of its exit fields.
    pub open spec fn wf(self) -> bool {
        !self.is_active ==> {
            &&& self.exit_price is Some
            &&& self.exit_time is Some
            &&& self.profit_loss is Some
            &&& self.multiplier is Some
            &&& self.exit_reason is Some
        }
    }

    /// The position as it is opened: active, with no exit fields.
    pub open spec fn opened(
        token_address: Seq<char>,
        entry_price: Dec,
        entry_time: i64,
        investment_usd: Dec,
    ) -> SimulatedTradeView {
        SimulatedTradeView {
            id: None,
            token_address,
            entry_price,
            entry_time,
            exit_price: None,
            exit_time: None,
            investment_usd,
            profit_loss: None,
            multiplier: None,
            exit_reason: None,
            is_active: true,
        }
    }

    /// The position after an attempt to close it: an open one takes the exit
    /// fields and becomes inactive, a closed one stays as it is.
    pub open spec fn closed(
        self,
        exit_price: Dec,
        exit_time: i64,
        profit_loss: Dec,
        multiplier: Dec,
        reason: Seq<char>,
    ) -> SimulatedTradeView {
        if self.is_active {
            SimulatedTradeView {
                exit_price: Some(exit_price),
                exit_time: Some(exit_time),
                profit_loss: Some(profit_loss),
                multiplier: Some(multiplier),
                exit_reason: Some(reason),
                is_active: false,
                ..self
            }
        } else {
            self
        }
    }
}

impl SimulatedTradeView {
    /// A position is closed once and for all: after one attempt to close
    /// it, it is inactive and carries its exit fields, and a further
    /// attempt changes nothing.
    pub proof fn lemma_closed_is_final(
        self,
        exit_price: Dec,
        exit_time: i64,
        profit_loss: Dec,
        multiplier: Dec,
        reason: Seq<char>,
        later_price: Dec,
        later_time: i64,
        later_profit_loss: Dec,
        later_multiplier: Dec,
        later_reason: Seq<char>,
    )
        requires
            self.wf(),
        ensures
            !self.closed(exit_price, exit_time, profit_loss, multiplier, reason).is_active,
            self.closed(exit_price, exit_time, profit_loss, multiplier, reason).wf(),
            self.closed(exit_price, exit_time, profit_loss, multiplier, reason).closed(
                later_price,
                later_time,
                later_profit_loss,
                later_multiplier,
                later_reason,
            ) == self.closed(exit_price, exit_time, profit_loss, multiplier, reason),
    {
    }
}

impl View for SimulatedTrade {
    type V = SimulatedTradeView;

    open spec fn view(&self) -> SimulatedTradeView {
        SimulatedTradeView {
            id: self.id,
            token_address: self.token_address@,
            entry_price: self.entry_price,
            entry_time: self.entry_time,
            exit_price: self.exit_price,
            exit_time: self.exit_time,
            investment_usd: self.investment_usd,
            profit_loss: self.profit_loss,
            multiplier: self.multiplier,
            exit_reason: match self.exit_reason {
                Some(reason) => Some(reason@),
                None => None,
            },
            is_active: self.is_active,
        }
    }
}

impl SimulatedTrade {
    /// Opens a position.
    pub fn open(
        token_address: String,
        entry_price: Dec,
        entry_time: i64,
        investment_usd: Dec,
    ) -> (trade: SimulatedTrade)
        ensures
            trade@ == SimulatedTradeView::opened(
                token_address@,
                entry_price,
                entry_time,
                investment_usd,
            ),
            trade@.wf(),
    {
        SimulatedTrade {
            id: None,
            token_address,
            entry_price,
            entry_time,
            exit_price: None,
            exit_time: None,
            investment_usd,
            profit_loss: None,
            multiplier: None,
            exit_reason: None,
            is_active: true,
        }
    }

    /// Closes the position if it is still open, and tells whether it did. A
    /// position that was closed before is left untouched, so that of two
    /// rules that fire on one position only the first closes it.
    pub fn close(
        &mut self,
        exit_price: Dec,
        exit_time: i64,
        profit_loss: Dec,
        multiplier: Dec,
        reason: String,
    ) -> (closed: bool)
        ensures
            closed == old(self).is_active,
            final(self)@ == old(self)@.closed(
                exit_price,
                exit_time,
                profit_loss,
                multiplier,
                reason@,
            ),
            old(self)@.wf() ==> final(self)@.wf(),
            closed ==> final(self)@.wf(),
            !final(self).is_active,
    {
        if self.is_active {
            self.exit_price = Some(exit_price);
            self.exit_time = Some(exit_time);
            self.profit_loss = Some(profit_loss);
            self.multiplier = Some(multiplier);
            self.exit_reason = Some(reason);
            self.is_active = false;
            true
        } else {
            false
        }
    }
}

/// The instruction to close one open position.
#[derive(Debug, Clone, PartialEq, Eq)]
pub struct TradeClosure {
    pub trade_id: i64,
    pub exit_price: Dec,
    pub profit_loss: Dec,
    pub multiplier: Dec,
    pub reason: String,
}

/// A [`TradeClosure`] with its reason as a sequence of characters.
pub ghost struct TradeClosureView {
    pub trade_id: i64,
    pub exit_price: Dec,
    pub profit_loss: Dec,
    pub multiplier: Dec,
    pub reason: Seq<char>,
}

impl View for TradeClosure {
    type V = TradeClosureView;

    open spec fn view(&self) -> TradeClosureView {
        TradeClosureView {
            trade_id: self.trade_id,
            exit_price: self.exit_price,
            profit_loss: self.profit_loss,
            multiplier: self.multiplier,
            reason: self.reason@,
        }
    }
}

impl SignalType {
    /// The name under which the kind is stored.
    pub open spec fn spec_name(self) -> Seq<char> {
        match self {
            SignalType::Buy => "buy"@,
            SignalType::Sell => "sell"@,
            SignalType::Warning => "warning"@,
            SignalType::WhaleMovement => "whalemovement"@,
        }
    }

    /// The kind that is stored under `name`: a buy signal for a name that
    /// is not known.
    pub open spec fn spec_from_name(name: Seq<char>) -> SignalType {
        if name == "sell"@ {
            SignalType::Sell
        } else if name == "warning"@ {
            SignalType::Warning
        } else if name == "whalemovement"@ {
            SignalType::WhaleMovement
        } else {
            SignalType::Buy
        }
    }

    /// The name under which the kind is stored.
    pub fn name(&self) -> (name: &'static str)
        ensures
            name@ == self.spec_name(),
    {
        match self {
            SignalType::Buy => "buy",
            SignalType::Sell => "sell",
            SignalType::Warning => "warning",
            SignalType::WhaleMovement => "whalemovement",
        }
    }

    /// The kind that is stored under `name`.
    pub fn from_name(name: &str) -> (kind: SignalType)
        ensures
            kind == SignalType::spec_from_name(name@),
    {
        if same_text(name, "sell") {
            SignalType::Sell
        } else if same_text(name, "warning") {
            SignalType::Warning
        } else if same_text(name, "whalemovement") {
            SignalType::WhaleMovement
        } else {
            SignalType::Buy
        }
    }

    /// A kind is found again under its name.
    pub proof fn lemma_name_round_trip(self)
        ensures
            SignalType::spec_from_name(self.spec_name()) == self,
    {
        reveal_strlit("buy");
        reveal_strlit("sell");
        reveal_strlit("warning");
        reveal_strlit("whalemovement");
        assert("buy"@.len() == 3);
        assert("sell"@.len() == 4);
        assert("warning"@.len() == 7);
        assert("whalemovement"@.len() == 13);
    }
}

impl RiskLevel {
    /// The name of the level.
    pub open spec fn spec_name(self) -> Seq<char> {
        match self {
            RiskLevel::Low => "Low"@,
            RiskLevel::Medium => "Medium"@,
            RiskLevel::High => "High"@,
            RiskLevel::Extreme => "Extreme"@,
        }
    }

    /// The name of the level.
    pub fn name(&self) -> (name: &'static str)
        ensures
            name@ == self.spec_name(),
    {
        match self {
            RiskLevel::Low => "Low",
            RiskLevel::Medium => "Medium",
            RiskLevel::High => "High",
            RiskLevel::Extreme => "Extreme",
        }
    }
}

} // verus!
