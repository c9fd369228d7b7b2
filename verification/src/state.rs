//! What the tasks of a bot share.

use vstd::prelude::*;

use crate::types_v2::{Position, PositionView, StrategyState};

verus! {

/// The state that the tasks share.
pub struct SharedState {
    pub strategy_state: StrategyState,
    pub current_position: Option<Position>,
    pub cooldown_until_ms: Option<i64>,
    pub realized_pnl: i128,
    pub session_start_balance: i128,
}

/// The view of an optional position.
pub open spec fn position_view(p: Option<Position>) -> Option<PositionView> {
    match p {
        Some(x) => Some(x@),
        None => None,
    }
}

/// A copy of a position.
fn copy_position(p: &Position) -> (r: Position)
    ensures
        r@ == p@,
{
    Position {
        market_slug: p.market_slug.clone(),
        token_id: p.token_id.clone(),
        side: p.side,
        entry_ts_ms: p.entry_ts_ms,
        entry_price: p.entry_price,
        size: p.size,
        notional: p.notional,
        signal_bps: p.signal_bps,
        signal_confidence: p.signal_confidence,
    }
}

impl SharedState {
    /// Idle, with nothing held and nothing earned.
    pub fn new() -> (r: SharedState)
        ensures
            r.strategy_state == StrategyState::Idle,
            r.current_position is None,
            r.cooldown_until_ms is None,
            r.realized_pnl == 0,
            r.session_start_balance == 0,
    {
        SharedState {
            strategy_state: StrategyState::Idle,
            current_position: None,
            cooldown_until_ms: None,
            realized_pnl: 0,
            session_start_balance: 0,
        }
    }

    pub fn is_idle(&self) -> (r: bool)
        ensures
            r == (self.strategy_state == StrategyState::Idle),
    {
        self.strategy_state == StrategyState::Idle
    }

    pub fn set_state(&mut self, new_state: StrategyState)
        ensures
            *final(self) == (SharedState { strategy_state: new_state, ..*old(self) }),
    {
        self.strategy_state = new_state;
    }

    pub fn get_state(&self) -> (r: StrategyState)
        ensures
            r == self.strategy_state,
    {
        self.strategy_state
    }

    pub fn set_position(&mut self, pos: Position)
        ensures
            *final(self) == (SharedState { current_position: Some(pos), ..*old(self) }),
    {
        self.current_position = Some(pos);
    }

    pub fn clear_position(&mut self)
        ensures
            *final(self) == (SharedState { current_position: None, ..*old(self) }),
    {
        self.current_position = None;
    }

    pub fn get_position(&self) -> (r: Option<Position>)
        ensures
            position_view(r) == position_view(self.current_position),
    {
        match &self.current_position {
            Some(p) => Some(copy_position(p)),
            None => None,
        }
    }

    pub fn set_cooldown(&mut self, until_ms: i64)
        ensures
            *final(self) == (SharedState { cooldown_until_ms: Some(until_ms), ..*old(self) }),
    {
        self.cooldown_until_ms = Some(until_ms);
    }

    /// Whether a pause is not over yet.
    pub open spec fn cooling(self, now_ms: i64) -> bool {
        match self.cooldown_until_ms {
            Some(until) => now_ms < until,
            None => false,
        }
    }

    pub fn is_cooling_down(&self, now_ms: i64) -> (r: bool)
        ensures
            r == self.cooling(now_ms),
    {
        match self.cooldown_until_ms {
            Some(until) => now_ms < until,
            None => false,
        }
    }

    pub fn add_pnl(&mut self, pnl: i128)
        requires
            i128::MIN <= old(self).realized_pnl + pnl <= i128::MAX,
        ensures
            *final(self) == (SharedState {
                realized_pnl: (old(self).realized_pnl + pnl) as i128,
                ..*old(self)
            }),
    {
        self.realized_pnl = self.realized_pnl + pnl;
    }

    pub fn get_pnl(&self) -> (r: i128)
        ensures
            r == self.realized_pnl,
    {
        self.realized_pnl
    }

    /// Whether the session has lost as much as it may.
    pub open spec fn stopped(self, stop_loss: i128) -> bool {
        self.realized_pnl <= stop_loss
    }

    /// Whether the session has lost as much as it may.
    pub fn should_stop(&self, stop_loss: i128) -> (r: bool)
        ensures
            r == (self.realized_pnl <= stop_loss),
            r == self.stopped(stop_loss),
    {
        self.realized_pnl <= stop_loss
    }
}

/// A pause that ends at a time holds before it, and no longer from it on.
pub proof fn pauses_end_in_time(s: SharedState, until_ms: i64, now_ms: i64)
    requires
        s.cooldown_until_ms == Some(until_ms),
    ensures
        s.cooling(now_ms) <==> now_ms < until_ms,
        !(SharedState { cooldown_until_ms: None, ..s }).cooling(now_ms),
{
}

/// A session that has lost as much as it may is stopped, and stays so with every
/// further loss; one that has lost less is not.
pub proof fn losses_stop_the_session(s: SharedState, worse: SharedState, stop_loss: i128)
    requires
        worse.realized_pnl <= s.realized_pnl,
    ensures
        s.realized_pnl > stop_loss ==> !s.stopped(stop_loss),
        s.realized_pnl == stop_loss ==> s.stopped(stop_loss) && worse.stopped(stop_loss),
        s.stopped(stop_loss) ==> worse.stopped(stop_loss),
{
}

} // verus!
