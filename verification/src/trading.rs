//! Trading domain enumerations: strategy kinds and states, signal
//! strengths, trade actions and position states.

use vstd::prelude::*;

verus! {

/// The family a trading strategy belongs to.
#[derive(Debug, Clone, Copy, PartialEq, Eq, Hash, Structural)]
pub enum StrategyType {
    Trend,
    MeanReversion,
    Breakout,
    Pattern,
    StatisticalArbitrage,
    Momentum,
    Other,
}

impl StrategyType {
    /// The strategy type's name in snake case.
    pub open spec fn spec_label(&self) -> Seq<char> {
        match self {
            StrategyType::Trend => "trend"@,
            StrategyType::MeanReversion => "mean_reversion"@,
            StrategyType::Breakout => "breakout"@,
            StrategyType::Pattern => "pattern"@,
            StrategyType::StatisticalArbitrage => "statistical_arbitrage"@,
            StrategyType::Momentum => "momentum"@,
            StrategyType::Other => "other"@,
        }
    }

    /// Renders the strategy type as text.
    pub fn to_string(&self) -> (r: String)
        ensures
            r@ == self.spec_label(),
    {
        match self {
            StrategyType::Trend => "trend".to_owned(),
            StrategyType::MeanReversion => "mean_reversion".to_owned(),
            StrategyType::Breakout => "breakout".to_owned(),
            StrategyType::Pattern => "pattern".to_owned(),
            StrategyType::StatisticalArbitrage => "statistical_arbitrage".to_owned(),
            StrategyType::Momentum => "momentum".to_owned(),
            StrategyType::Other => "other".to_owned(),
        }
    }
}

/// The lifecycle state of a strategy.
#[derive(Debug, Clone, Copy, PartialEq, Eq, Hash, Structural)]
pub enum StrategyState {
    Initialized,
    Running,
    Paused,
    Stopped,
    Error,
}

impl StrategyState {
    /// The state's name in lower case.
    pub open spec fn spec_label(&self) -> Seq<char> {
        match self {
            StrategyState::Initialized => "initialized"@,
            StrategyState::Running => "running"@,
            StrategyState::Paused => "paused"@,
            StrategyState::Stopped => "stopped"@,
            StrategyState::Error => "error"@,
        }
    }

    /// Renders the state as text.
    pub fn to_string(&self) -> (r: String)
        ensures
            r@ == self.spec_label(),
    {
        match self {
            StrategyState::Initialized => "initialized".to_owned(),
            StrategyState::Running => "running".to_owned(),
            StrategyState::Paused => "paused".to_owned(),
            StrategyState::Stopped => "stopped".to_owned(),
            StrategyState::Error => "error".to_owned(),
        }
    }
}

/// How strongly a signal speaks, weakest first: the declaration order
/// carries the ordering.
#[derive(Debug, Clone, Copy, PartialEq, Eq, PartialOrd, Ord, Hash, Structural)]
pub enum SignalStrength {
    VeryWeak,
    Weak,
    Medium,
    Strong,
    VeryStrong,
}

impl SignalStrength {
    /// The strength's name in snake case.
    pub open spec fn spec_label(&self) -> Seq<char> {
        match self {
            SignalStrength::VeryWeak => "very_weak"@,
            SignalStrength::Weak => "weak"@,
            SignalStrength::Medium => "medium"@,
            SignalStrength::Strong => "strong"@,
            SignalStrength::VeryStrong => "very_strong"@,
        }
    }

    /// Renders the strength as text.
    pub fn to_string(&self) -> (r: String)
        ensures
            r@ == self.spec_label(),
    {
        match self {
            SignalStrength::VeryWeak => "very_weak".to_owned(),
            SignalStrength::Weak => "weak".to_owned(),
            SignalStrength::Medium => "medium".to_owned(),
            SignalStrength::Strong => "strong".to_owned(),
            SignalStrength::VeryStrong => "very_strong".to_owned(),
        }
    }
}

/// What a trade decision does to a position.
#[derive(Debug, Clone, Copy, PartialEq, Eq, Hash, Structural)]
pub enum TradeAction {
    Enter,
    Exit,
    Increase,
    Decrease,
    AdjustStopLoss,
    AdjustTakeProfit,
}

impl TradeAction {
    /// The action's name in snake case.
    pub open spec fn spec_label(&self) -> Seq<char> {
        match self {
            TradeAction::Enter => "enter"@,
            TradeAction::Exit => "exit"@,
            TradeAction::Increase => "increase"@,
            TradeAction::Decrease => "decrease"@,
            TradeAction::AdjustStopLoss => "adjust_stop_loss"@,
            TradeAction::AdjustTakeProfit => "adjust_take_profit"@,
        }
    }

    /// Renders the action as text.
    pub fn to_string(&self) -> (r: String)
        ensures
            r@ == self.spec_label(),
    {
        match self {
            TradeAction::Enter => "enter".to_owned(),
            TradeAction::Exit => "exit".to_owned(),
            TradeAction::Increase => "increase".to_owned(),
            TradeAction::Decrease => "decrease".to_owned(),
            TradeAction::AdjustStopLoss => "adjust_stop_loss".to_owned(),
            TradeAction::AdjustTakeProfit => "adjust_take_profit".to_owned(),
        }
    }
}

/// The lifecycle state of a position.
#[derive(Debug, Clone, Copy, PartialEq, Eq, Hash, Structural)]
pub enum PositionStatus {
    Pending,
    Active,
    Closed,
}

impl PositionStatus {
    /// The state's name in lower case.
    pub open spec fn spec_label(&self) -> Seq<char> {
        match self {
            PositionStatus::Pending => "pending"@,
            PositionStatus::Active => "active"@,
            PositionStatus::Closed => "closed"@,
        }
    }

    /// Renders the state as text.
    pub fn to_string(&self) -> (r: String)
        ensures
            r@ == self.spec_label(),
    {
        match self {
            PositionStatus::Pending => "pending".to_owned(),
            PositionStatus::Active => "active".to_owned(),
            PositionStatus::Closed => "closed".to_owned(),
        }
    }
}

} // verus!
