//! The sniper: from a signal to an entry, or to the reason for none.
//!
//! A window is traded in one direction, that of its first entry, and only the
//! cheap side is bought.

use vstd::prelude::*;
use vstd::string::StringExecFns;

use crate::clock::{seconds_of, signed_of, to_signed, whole_seconds};
use crate::config_v2::Config;
use crate::fixed::{
    clamp, clamped, div_round, fixed_string, fixed_text, magnitude, min_of, rounded,
    MICRO,
};
use crate::signals::signal_engine::{is_leaning, leans_to};
use crate::state::SharedState;
use crate::text::{int_string, int_text};
use crate::types_v2::{
    CommandView, EntryMode, ExecutionCommand, LogEvent, LogEventView, MarketDescriptor, MarketView,
    PolymarketTop, Side, Signal, StrategyState,
};

verus! {

/// From this ask on a token is not cheap: fifty cents.
pub const CHEAP_LIMIT: i64 = 500_000;

// ── Sizing ──────────────────────────────────────────────────────

/// Whether return, basis and slope agree with a signal's side, and the imbalance
/// is not strongly against it.
pub open spec fn aligned(s: Signal) -> bool {
    &&& leans_to(s.side, s.r2000_bps)
    &&& leans_to(s.side, s.basis_dev_bps)
    &&& leans_to(s.side, s.dbasis_bps)
    &&& match s.side {
        Side::Up => s.obi_ema >= -500_000,
        Side::Down => s.obi_ema <= 500_000,
    }
}

/// What to spend on a signal: four fifths of the base, times one plus the score
/// (up to two); a quarter more where the features are aligned; between the base
/// and the most.
pub open spec fn notional_for(s: Signal, base: int, most: int) -> int {
    let m = min_of(magnitude(s.score as int), 2_000_000);
    let fifths: int = if aligned(s) {
        5
    } else {
        4
    };
    clamped(rounded(base * (MICRO + m) * fifths, 5_000_000), base, most)
}

/// What to spend on a signal.
pub fn compute_notional(signal: &Signal, base: i64, most: i64) -> (r: i128)
    requires
        base <= most,
    ensures
        r == notional_for(*signal, base as int, most as int),
        base <= r <= most,
{
    let m: i128 = if signal.score >= 2_000_000 || signal.score <= -2_000_000 {
        2_000_000
    } else if signal.score < 0 {
        -signal.score
    } else {
        signal.score
    };
    let obi_not_opposite: bool = match signal.side {
        Side::Up => signal.obi_ema >= -500_000,
        Side::Down => signal.obi_ema <= 500_000,
    };
    let all_agree: bool = is_leaning(signal.side, signal.r2000_bps) && is_leaning(
        signal.side,
        signal.basis_dev_bps,
    ) && is_leaning(signal.side, signal.dbasis_bps) && obi_not_opposite;
    let fifths: i128 = if all_agree {
        5
    } else {
        4
    };
    proof {
        assert(all_agree == aligned(*signal));
        assert(m == min_of(magnitude(signal.score as int), 2_000_000));
        crate::fixed::lemma_product_bounds(
            base as int,
            MICRO + m,
            0x8000_0000_0000_0000,
            3_000_000,
        );
        crate::fixed::lemma_product_bounds(
            base * (MICRO + m),
            fifths as int,
            0x8000_0000_0000_0000int * 3_000_000,
            5,
        );
    }
    let n: i128 = div_round(base as i128 * (MICRO as i128 + m) * fifths, 5_000_000);
    clamp(n, base as i128, most as i128)
}

/// A stronger score never spends less, the features being alike in alignment;
/// and alignment never spends less.
pub proof fn notional_grows(s: Signal, t: Signal, base: int, most: int)
    requires
        0 <= base <= most,
        magnitude(s.score as int) <= magnitude(t.score as int),
        aligned(s) ==> aligned(t),
    ensures
        base <= notional_for(s, base, most) <= notional_for(t, base, most) <= most,
{
    let m = min_of(magnitude(s.score as int), 2_000_000);
    let n = min_of(magnitude(t.score as int), 2_000_000);
    let f: int = if aligned(s) {
        5
    } else {
        4
    };
    let g: int = if aligned(t) {
        5
    } else {
        4
    };
    assert(base * (MICRO + m) <= base * (MICRO + n)) by (nonlinear_arith)
        requires
            base >= 0,
            m <= n,
    ;
    assert(base * (MICRO + n) >= 0) by (nonlinear_arith)
        requires
            base >= 0,
            n >= 0,
            MICRO >= 0,
    ;
    let a = base * (MICRO + m);
    let b = base * (MICRO + n);
    assert(a * f <= b * g) by (nonlinear_arith)
        requires
            a <= b,
            0 <= b,
            4 <= f <= g,
    ;
    crate::fixed::lemma_rounding_grows(a * f, b * g, 5_000_000);
}

// ── Reasons ─────────────────────────────────────────────────────

pub open spec fn side_name(side: Side) -> Seq<char> {
    match side {
        Side::Up => "Up"@,
        Side::Down => "Down"@,
    }
}

pub fn name_of_side(side: Side) -> (r: &'static str)
    ensures
        r@ == side_name(side),
{
    match side {
        Side::Up => "Up",
        Side::Down => "Down",
    }
}

pub open spec fn state_name(state: StrategyState) -> Seq<char> {
    match state {
        StrategyState::Idle => "Idle"@,
        StrategyState::Entering => "Entering"@,
        StrategyState::WaitForReprice => "WaitForReprice"@,
        StrategyState::BuyingSecondLeg => "BuyingSecondLeg"@,
        StrategyState::PairComplete => "PairComplete"@,
        StrategyState::Cooldown => "Cooldown"@,
    }
}

pub fn name_of_state(state: StrategyState) -> (r: &'static str)
    ensures
        r@ == state_name(state),
{
    match state {
        StrategyState::Idle => "Idle",
        StrategyState::Entering => "Entering",
        StrategyState::WaitForReprice => "WaitForReprice",
        StrategyState::BuyingSecondLeg => "BuyingSecondLeg",
        StrategyState::PairComplete => "PairComplete",
        StrategyState::Cooldown => "Cooldown",
    }
}

/// Why a signal was not traded.
#[derive(Debug, Clone, Copy, PartialEq, Eq, Structural)]
pub enum Refusal {
    WrongDirection { signal: Side, locked: Side },
    NotCheap { side: Side, ask: i64 },
    Busy { state: StrategyState },
    StopLoss,
    Stale { age_ms: i128, max_ms: i64 },
    NoMarket,
    NearExpiry { left_s: i128 },
    NoAsk,
    WideSpread { cents: i128, max: i64 },
    BelowFloor { ask: i64, floor: i64 },
    AboveCeiling { ask: i64, ceiling: i64 },
}

/// The text of a refusal in the trade log; some are not logged.
pub open spec fn refusal_text(r: Refusal) -> Option<Seq<char>> {
    match r {
        Refusal::WrongDirection { signal, locked } => Some(
            "wrong_direction: signal="@ + side_name(signal) + " locked="@ + side_name(locked),
        ),
        Refusal::NotCheap { side, ask } => Some(
            "cheap_gate: "@ + side_name(side) + " ask="@ + fixed_text(ask * 100, 0)
                + "c >= 50c (not cheap side)"@,
        ),
        Refusal::Busy { state } => Some("state="@ + state_name(state)),
        Refusal::StopLoss => None,
        Refusal::Stale { age_ms, max_ms } => Some(
            "signal_stale age="@ + int_text(age_ms as int) + "ms max="@ + int_text(max_ms as int)
                + "ms"@,
        ),
        Refusal::NoMarket => None,
        Refusal::NearExpiry { left_s } => Some(
            "expiry_too_close "@ + int_text(left_s as int) + "s"@,
        ),
        Refusal::NoAsk => None,
        Refusal::WideSpread { cents, max } => Some(
            "spread "@ + fixed_text(cents as int, 1) + "c > "@ + fixed_text(max as int, 1) + "c"@,
        ),
        Refusal::BelowFloor { ask, floor } => Some(
            "ask "@ + fixed_text(ask * 100, 0) + "c < "@ + fixed_text(floor * 100, 0) + "c floor"@,
        ),
        Refusal::AboveCeiling { ask, ceiling } => Some(
            "ask "@ + fixed_text(ask * 100, 0) + "c > "@ + fixed_text(ceiling * 100, 0) + "c"@,
        ),
    }
}

fn write_cents(out: &mut String, price: i64)
    ensures
        final(out)@ == old(out)@ + fixed_text(price * 100, 0),
{
    let t: String = fixed_string(price as i128 * 100, 0);
    out.append(t.as_str());
}

fn write_number(out: &mut String, n: i128)
    requires
        n > i128::MIN,
    ensures
        final(out)@ == old(out)@ + int_text(n as int),
{
    let t: String = int_string(n);
    out.append(t.as_str());
}

/// The amounts of a refusal can be written.
pub open spec fn writable(r: Refusal) -> bool {
    match r {
        Refusal::Stale { age_ms, .. } => age_ms > i128::MIN,
        Refusal::NearExpiry { left_s } => left_s > i128::MIN,
        Refusal::WideSpread { cents, .. } => -1_000_000_000_000_000_000_000_000 <= cents
            <= 1_000_000_000_000_000_000_000_000,
        _ => true,
    }
}

/// The text of a refusal in the trade log.
pub fn explain(refusal: &Refusal) -> (r: Option<String>)
    requires
        writable(*refusal),
    ensures
        refusal_text(*refusal) == match r {
            Some(t) => Some(t@),
            None => None,
        },
{
    match refusal {
        Refusal::WrongDirection { signal, locked } => {
            let mut t: String = "wrong_direction: signal=".to_owned();
            t.append(name_of_side(*signal));
            t.append(" locked=");
            t.append(name_of_side(*locked));
            Some(t)
        },
        Refusal::NotCheap { side, ask } => {
            let mut t: String = "cheap_gate: ".to_owned();
            t.append(name_of_side(*side));
            t.append(" ask=");
            write_cents(&mut t, *ask);
            t.append("c >= 50c (not cheap side)");
            Some(t)
        },
        Refusal::Busy { state } => {
            let mut t: String = "state=".to_owned();
            t.append(name_of_state(*state));
            Some(t)
        },
        Refusal::StopLoss => None,
        Refusal::Stale { age_ms, max_ms } => {
            let mut t: String = "signal_stale age=".to_owned();
            write_number(&mut t, *age_ms);
            t.append("ms max=");
            write_number(&mut t, *max_ms as i128);
            t.append("ms");
            Some(t)
        },
        Refusal::NoMarket => None,
        Refusal::NearExpiry { left_s } => {
            let mut t: String = "expiry_too_close ".to_owned();
            write_number(&mut t, *left_s);
            t.append("s");
            Some(t)
        },
        Refusal::NoAsk => None,
        Refusal::WideSpread { cents, max } => {
            let mut t: String = "spread ".to_owned();
            let a: String = fixed_string(*cents, 1);
            t.append(a.as_str());
            t.append("c > ");
            let b: String = fixed_string(*max as i128, 1);
            t.append(b.as_str());
            t.append("c");
            Some(t)
        },
        Refusal::BelowFloor { ask, floor } => {
            let mut t: String = "ask ".to_owned();
            write_cents(&mut t, *ask);
            t.append("c < ");
            write_cents(&mut t, *floor);
            t.append("c floor");
            Some(t)
        },
        Refusal::AboveCeiling { ask, ceiling } => {
            let mut t: String = "ask ".to_owned();
            write_cents(&mut t, *ask);
            t.append("c > ");
            write_cents(&mut t, *ceiling);
            t.append("c");
            Some(t)
        },
    }
}

// ── The sniper ──────────────────────────────────────────────────

/// The direction that a window is locked to, and the window.
#[derive(Debug, Clone, Copy)]
pub struct Sniper {
    pub window_locked_side: Option<Side>,
    pub last_window_ts: i64,
}

/// The ask of a side.
pub open spec fn ask_of(top: PolymarketTop, side: Side) -> Option<i64> {
    match side {
        Side::Up => top.up_ask,
        Side::Down => top.down_ask,
    }
}

/// The bid of a side, none counting as zero.
pub open spec fn bid_of(top: PolymarketTop, side: Side) -> int {
    match side {
        Side::Up => if top.up_bid is Some {
            top.up_bid->0 as int
        } else {
            0
        },
        Side::Down => if top.down_bid is Some {
            top.down_bid->0 as int
        } else {
            0
        },
    }
}

/// The largest age of a signal that is still traded.
pub open spec fn max_age(c: Config, mode: EntryMode) -> i64 {
    match mode {
        EntryMode::Maker => c.maker_max_signal_age_ms,
        EntryMode::Taker => c.max_signal_age_ms,
    }
}

/// The sniper's verdict on a signal: the ask to enter at, or the first of the
/// reasons against it.
pub open spec fn verdict(
    c: Config,
    locked: Option<Side>,
    state: StrategyState,
    pnl: int,
    m: MarketView,
    top: PolymarketTop,
    s: Signal,
    now_ms: i64,
) -> Result<i64, Refusal> {
    let ask = ask_of(top, s.side);
    let age = now_ms - s.created_ts_ms;
    let left = m.window_end_ts - seconds_of(now_ms as int);
    let spread = (ask->0 - bid_of(top, s.side)) * 100;
    if locked is Some && s.side != locked->0 {
        Err(Refusal::WrongDirection { signal: s.side, locked: locked->0 })
    } else if ask is Some && ask->0 >= CHEAP_LIMIT {
        Err(Refusal::NotCheap { side: s.side, ask: ask->0 })
    } else if state != StrategyState::Idle {
        Err(Refusal::Busy { state })
    } else if pnl <= c.session_stop_loss {
        Err(Refusal::StopLoss)
    } else if age > max_age(c, s.entry_mode) {
        Err(Refusal::Stale { age_ms: age as i128, max_ms: max_age(c, s.entry_mode) })
    } else if m.up_token_id.len() == 0 {
        Err(Refusal::NoMarket)
    } else if left < signed_of(c.min_time_to_expiry_s) {
        Err(Refusal::NearExpiry { left_s: left as i128 })
    } else if ask is None {
        Err(Refusal::NoAsk)
    } else if spread > c.max_spread_cents {
        Err(Refusal::WideSpread { cents: spread as i128, max: c.max_spread_cents })
    } else if ask->0 < c.min_entry_price {
        Err(Refusal::BelowFloor { ask: ask->0, floor: c.min_entry_price })
    } else if ask->0 > c.max_entry_price {
        Err(Refusal::AboveCeiling { ask: ask->0, ceiling: c.max_entry_price })
    } else {
        Ok(ask->0)
    }
}

/// What comes of a signal: an entry in the trade log, and an order.
pub struct Reaction {
    pub log: Option<LogEvent>,
    pub command: Option<ExecutionCommand>,
}

/// The log entry of a refusal.
pub open spec fn refusal_log(r: Refusal, now_ms: i64) -> Option<LogEventView> {
    match refusal_text(r) {
        Some(reason) => Some(LogEventView::TradeSkipped { ts_ms: now_ms, reason }),
        None => None,
    }
}

/// The log entry of an order.
pub open spec fn entry_log(c: Config, m: MarketView, s: Signal, now_ms: i64) -> LogEventView {
    LogEventView::EntrySent {
        ts_ms: now_ms,
        side: s.side,
        token_id: m.token(s.side),
        notional: notional_for(s, c.base_notional as int, c.max_notional as int) as i128,
        score: s.score,
        fast_move_bps: s.fast_move_bps,
        basis_dev_bps: s.basis_dev_bps,
    }
}

/// The order of an entry.
pub open spec fn entry_command(c: Config, m: MarketView, s: Signal, ask: i64) -> CommandView {
    CommandView::EnterTaker {
        market_slug: m.slug,
        token_id: m.token(s.side),
        side: s.side,
        max_price: ask as i128,
        notional: notional_for(s, c.base_notional as int, c.max_notional as int) as i128,
        signal: s,
    }
}

pub open spec fn log_view(log: Option<LogEvent>) -> Option<LogEventView> {
    match log {
        Some(e) => Some(e@),
        None => None,
    }
}

pub open spec fn command_view(command: Option<ExecutionCommand>) -> Option<CommandView> {
    match command {
        Some(c) => Some(c@),
        None => None,
    }
}

impl Sniper {
    /// The sniper in a market's window: a new window lifts the lock.
    pub open spec fn in_window(self, window_start_ts: i64) -> Sniper {
        if window_start_ts > 0 && window_start_ts != self.last_window_ts {
            Sniper { window_locked_side: None, last_window_ts: window_start_ts }
        } else {
            self
        }
    }

    /// The verdict on a signal.
    pub open spec fn decides(
        self,
        c: Config,
        shared: SharedState,
        m: MarketView,
        top: PolymarketTop,
        s: Signal,
        now_ms: i64,
    ) -> Result<i64, Refusal> {
        verdict(
            c,
            self.in_window(m.window_start_ts).window_locked_side,
            shared.strategy_state,
            shared.realized_pnl as int,
            m,
            top,
            s,
            now_ms,
        )
    }

    pub fn new() -> (r: Sniper)
        ensures
            r == (Sniper { window_locked_side: None, last_window_ts: 0 }),
    {
        Sniper { window_locked_side: None, last_window_ts: 0 }
    }

    fn judge(
        &self,
        config: &Config,
        shared: &SharedState,
        market: &MarketDescriptor,
        top: &PolymarketTop,
        signal: &Signal,
        now_ms: i64,
    ) -> (r: Result<i64, Refusal>)
        requires
            top.wf(),
        ensures
            r == verdict(
                *config,
                self.window_locked_side,
                shared.strategy_state,
                shared.realized_pnl as int,
                market@,
                *top,
                *signal,
                now_ms,
            ),
            r matches Err(e) ==> writable(e),
    {
        if let Some(locked) = self.window_locked_side {
            if signal.side != locked {
                return Err(Refusal::WrongDirection { signal: signal.side, locked });
            }
        }
        let (ask, bid_known): (Option<i64>, Option<i64>) = match signal.side {
            Side::Up => (top.up_ask, top.up_bid),
            Side::Down => (top.down_ask, top.down_bid),
        };
        if let Some(a) = ask {
            if a >= CHEAP_LIMIT {
                return Err(Refusal::NotCheap { side: signal.side, ask: a });
            }
        }
        if !shared.is_idle() {
            return Err(Refusal::Busy { state: shared.get_state() });
        }
        if shared.should_stop(config.session_stop_loss as i128) {
            return Err(Refusal::StopLoss);
        }
        let age_ms: i128 = now_ms as i128 - signal.created_ts_ms as i128;
        let max_ms: i64 = match signal.entry_mode {
            EntryMode::Maker => config.maker_max_signal_age_ms,
            EntryMode::Taker => config.max_signal_age_ms,
        };
        if age_ms > max_ms as i128 {
            return Err(Refusal::Stale { age_ms, max_ms });
        }
        if market.up_token_id.as_str().is_empty() {
            return Err(Refusal::NoMarket);
        }
        let left_s: i128 = market.window_end_ts as i128 - whole_seconds(now_ms);
        if left_s < to_signed(config.min_time_to_expiry_s) {
            return Err(Refusal::NearExpiry { left_s });
        }
        let price: i64 = match ask {
            Some(a) => a,
            None => {
                return Err(Refusal::NoAsk);
            },
        };
        let bid: i128 = match bid_known {
            Some(b) => b as i128,
            None => 0,
        };
        let cents: i128 = (price as i128 - bid) * 100;
        if cents > config.max_spread_cents as i128 {
            return Err(Refusal::WideSpread { cents, max: config.max_spread_cents });
        }
        if price < config.min_entry_price {
            return Err(Refusal::BelowFloor { ask: price, floor: config.min_entry_price });
        }
        if price > config.max_entry_price {
            return Err(Refusal::AboveCeiling { ask: price, ceiling: config.max_entry_price });
        }
        Ok(price)
    }

    /// Takes a signal. An entry locks the window's direction and moves the
    /// strategy to `Entering`; a refusal changes neither.
    pub fn on_signal(
        &mut self,
        config: &Config,
        shared: &mut SharedState,
        market: &MarketDescriptor,
        top: &PolymarketTop,
        signal: &Signal,
        now_ms: i64,
    ) -> (r: Reaction)
        requires
            top.wf(),
            config.base_notional <= config.max_notional,
        ensures
            match old(self).decides(*config, *old(shared), market@, *top, *signal, now_ms) {
                Ok(ask) => {
                    &&& command_view(r.command) == Some(
                        entry_command(*config, market@, *signal, ask),
                    )
                    &&& log_view(r.log) == Some(entry_log(*config, market@, *signal, now_ms))
                    &&& *final(self) == (Sniper {
                        window_locked_side: Some(signal.side),
                        ..old(self).in_window(market@.window_start_ts)
                    })
                    &&& *final(shared) == (SharedState {
                        strategy_state: StrategyState::Entering,
                        ..*old(shared)
                    })
                },
                Err(refusal) => {
                    &&& r.command is None
                    &&& log_view(r.log) == refusal_log(refusal, now_ms)
                    &&& *final(self) == old(self).in_window(market@.window_start_ts)
                    &&& *final(shared) == *old(shared)
                },
            },
    {
        if market.window_start_ts > 0 && market.window_start_ts != self.last_window_ts {
            self.window_locked_side = None;
            self.last_window_ts = market.window_start_ts;
        }
        match self.judge(config, shared, market, top, signal, now_ms) {
            Err(refusal) => {
                let log: Option<LogEvent> = match explain(&refusal) {
                    Some(reason) => Some(LogEvent::TradeSkipped { ts_ms: now_ms, reason }),
                    None => None,
                };
                Reaction { log, command: None }
            },
            Ok(ask) => {
                let notional: i128 = compute_notional(
                    signal,
                    config.base_notional,
                    config.max_notional,
                );
                self.window_locked_side = Some(signal.side);
                shared.set_state(StrategyState::Entering);
                let log: LogEvent = LogEvent::EntrySent {
                    ts_ms: now_ms,
                    side: signal.side,
                    token_id: market.token(signal.side),
                    notional,
                    score: signal.score,
                    fast_move_bps: signal.fast_move_bps,
                    basis_dev_bps: signal.basis_dev_bps,
                };
                let command: ExecutionCommand = ExecutionCommand::EnterTaker {
                    market_slug: market.slug.clone(),
                    token_id: market.token(signal.side),
                    side: signal.side,
                    max_price: ask as i128,
                    notional,
                    signal: *signal,
                };
                Reaction { log: Some(log), command: Some(command) }
            },
        }
    }
}

/// A window is traded in one direction: once locked, a signal of the other side
/// is refused until the window changes. An entry is made only from `Idle`, below
/// fifty cents and above the floor.
pub proof fn entries_are_guarded(
    sniper: Sniper,
    c: Config,
    shared: SharedState,
    m: MarketView,
    top: PolymarketTop,
    s: Signal,
    now_ms: i64,
)
    requires
        sniper.decides(c, shared, m, top, s, now_ms) is Ok,
    ensures
        shared.strategy_state == StrategyState::Idle,
        shared.realized_pnl > c.session_stop_loss,
        sniper.last_window_ts == m.window_start_ts && sniper.window_locked_side is Some
            ==> sniper.window_locked_side == Some(s.side),
        ask_of(top, s.side) == Some(sniper.decides(c, shared, m, top, s, now_ms)->Ok_0),
        c.min_entry_price <= sniper.decides(c, shared, m, top, s, now_ms)->Ok_0 < CHEAP_LIMIT,
        now_ms - s.created_ts_ms <= max_age(c, s.entry_mode),
{
}

/// An entry bets on its signal: it buys the token of the signal's side, at that side's
/// ask, in the market at hand; and the log names the same token, side and amount.
pub proof fn entries_bet_on_their_signal(
    sniper: Sniper,
    c: Config,
    shared: SharedState,
    m: MarketView,
    top: PolymarketTop,
    s: Signal,
    now_ms: i64,
)
    requires
        sniper.decides(c, shared, m, top, s, now_ms) is Ok,
    ensures
        ({
            let ask = sniper.decides(c, shared, m, top, s, now_ms)->Ok_0;
            let (token, price) = match s.side {
                Side::Up => (m.up_token_id, top.up_ask),
                Side::Down => (m.down_token_id, top.down_ask),
            };
            match (entry_command(c, m, s, ask), entry_log(c, m, s, now_ms)) {
                (
                    CommandView::EnterTaker {
                        market_slug,
                        token_id,
                        side,
                        max_price,
                        notional,
                        signal,
                    },
                    LogEventView::EntrySent {
                        ts_ms,
                        side: logged_side,
                        token_id: logged_token,
                        notional: logged,
                        score,
                        fast_move_bps,
                        basis_dev_bps,
                    },
                ) => {
                    &&& market_slug == m.slug
                    &&& side == s.side && logged_side == s.side
                    &&& token_id == token && logged_token == token
                    &&& price is Some && max_price == price->0
                    &&& notional == logged
                    &&& signal == s
                    &&& ts_ms == now_ms
                    &&& score == s.score
                    &&& fast_move_bps == s.fast_move_bps
                    &&& basis_dev_bps == s.basis_dev_bps
                },
                _ => false,
            }
        }),
{
}

/// A signal is traded exactly where nothing speaks against it: the window is not
/// locked to the other side, the strategy is idle and has not lost too much, the
/// signal is young, the market known and not about to end, and the ask of the
/// signal's side is known, below fifty cents, between floor and ceiling, and near
/// its bid (an unknown bid counts as zero).
pub proof fn entries_need_every_condition(
    sniper: Sniper,
    c: Config,
    shared: SharedState,
    m: MarketView,
    top: PolymarketTop,
    s: Signal,
    now_ms: i64,
)
    ensures
        sniper.decides(c, shared, m, top, s, now_ms) is Ok <==> {
            let (ask, bid) = match s.side {
                Side::Up => (top.up_ask, top.up_bid),
                Side::Down => (top.down_ask, top.down_bid),
            };
            let below: int = match bid {
                Some(b) => b as int,
                None => 0,
            };
            let fresh = m.window_start_ts > 0 && m.window_start_ts != sniper.last_window_ts;
            let oldest: i64 = match s.entry_mode {
                EntryMode::Maker => c.maker_max_signal_age_ms,
                EntryMode::Taker => c.max_signal_age_ms,
            };
            &&& fresh || sniper.window_locked_side is None || sniper.window_locked_side == Some(
                s.side,
            )
            &&& shared.strategy_state == StrategyState::Idle
            &&& shared.realized_pnl > c.session_stop_loss
            &&& now_ms - s.created_ts_ms <= oldest
            &&& m.up_token_id.len() > 0
            &&& m.window_end_ts - seconds_of(now_ms as int) >= signed_of(c.min_time_to_expiry_s)
            &&& ask is Some
            &&& ask->0 < 500_000
            &&& c.min_entry_price <= ask->0 <= c.max_entry_price
            &&& 100 * (ask->0 - below) <= c.max_spread_cents
        },
{
}

/// A refusal gives the first reason that applies, with its numbers: the lock, the
/// price, the strategy's state, its losses, the signal's age, the market, the time
/// left, the ask, the spread, and the bounds of the price, in this order.
pub proof fn refusals_give_the_first_reason(
    sniper: Sniper,
    c: Config,
    shared: SharedState,
    m: MarketView,
    top: PolymarketTop,
    s: Signal,
    now_ms: i64,
)
    requires
        sniper.decides(c, shared, m, top, s, now_ms) is Err,
    ensures
        ({
            let ask = match s.side {
                Side::Up => top.up_ask,
                Side::Down => top.down_ask,
            };
            let locked = if m.window_start_ts > 0 && m.window_start_ts != sniper.last_window_ts {
                None
            } else {
                sniper.window_locked_side
            };
            let free = locked is None || locked == Some(s.side);
            let cheap = free && (ask is None || ask->0 < 500_000);
            let idle = cheap && shared.strategy_state == StrategyState::Idle;
            let solvent = idle && shared.realized_pnl > c.session_stop_loss;
            let age = now_ms - s.created_ts_ms;
            let left = m.window_end_ts - seconds_of(now_ms as int);
            match sniper.decides(c, shared, m, top, s, now_ms)->Err_0 {
                Refusal::WrongDirection { signal, locked: to } => !free && signal == s.side && locked
                    == Some(to),
                Refusal::NotCheap { side, ask: a } => free && !cheap && side == s.side && ask == Some(
                    a,
                ),
                Refusal::Busy { state } => cheap && !idle && state == shared.strategy_state,
                Refusal::StopLoss => idle && !solvent,
                Refusal::Stale { age_ms, max_ms } => solvent && age_ms == age && age > max_ms,
                Refusal::NoMarket => solvent && m.up_token_id.len() == 0,
                Refusal::NearExpiry { left_s } => solvent && m.up_token_id.len() > 0 && left_s == left
                    && left < signed_of(c.min_time_to_expiry_s),
                Refusal::NoAsk => solvent && m.up_token_id.len() > 0 && ask is None,
                Refusal::WideSpread { cents, max } => solvent && ask is Some && cents > max && max
                    == c.max_spread_cents,
                Refusal::BelowFloor { ask: a, floor } => solvent && ask == Some(a) && a < floor
                    && floor == c.min_entry_price,
                Refusal::AboveCeiling { ask: a, ceiling } => solvent && ask == Some(a) && a > ceiling
                    && ceiling == c.max_entry_price,
            }
        }),
{
}

/// What is spent, up to rounding and between its bounds: four fifths of the base times
/// one plus the score's size (which counts up to two), and five fifths where the
/// two-second return, the basis and its slope all point to the signal's side and the
/// imbalance is not beyond a half against it.
pub proof fn spending_follows_score_and_alignment(s: Signal, base: int, most: int)
    requires
        base < notional_for(s, base, most) < most,
    ensures
        ({
            let size: int = if s.score < 0 {
                -s.score
            } else {
                s.score as int
            };
            let m: int = if size < 2_000_000 {
                size
            } else {
                2_000_000
            };
            let agree = match s.side {
                Side::Up => s.r2000_bps.exceeds(0) && s.basis_dev_bps.exceeds(0)
                    && s.dbasis_bps.exceeds(0) && s.obi_ema >= -500_000,
                Side::Down => s.r2000_bps.falls_below(0) && s.basis_dev_bps.falls_below(0)
                    && s.dbasis_bps.falls_below(0) && s.obi_ema <= 500_000,
            };
            let exact = base * (1_000_000 + m) * if agree {
                5int
            } else {
                4int
            };
            -2_500_000 <= 5_000_000 * notional_for(s, base, most) - exact <= 2_500_000
        }),
{
    let m = min_of(magnitude(s.score as int), 2_000_000);
    let fifths: int = if aligned(s) {
        5
    } else {
        4
    };
    crate::fixed::rounding_is_nearest(base * (MICRO + m) * fifths, 5_000_000);
}

/// Refusals name prices in whole cents, spreads in tenths of a cent, ages in
/// milliseconds and times in seconds; three kinds are not logged.
pub proof fn refusals_name_their_amounts(price: i64, limit: i64, n: i128)
    ensures
        refusal_text(Refusal::NotCheap { side: Side::Up, ask: price }) == Some(
            "cheap_gate: "@ + side_name(Side::Up) + " ask="@ + fixed_text(price * 100, 0)
                + "c >= 50c (not cheap side)"@,
        ),
        refusal_text(Refusal::NotCheap { side: Side::Down, ask: price }) == Some(
            "cheap_gate: "@ + side_name(Side::Down) + " ask="@ + fixed_text(price * 100, 0)
                + "c >= 50c (not cheap side)"@,
        ),
        refusal_text(Refusal::Stale { age_ms: n, max_ms: limit }) == Some(
            "signal_stale age="@ + int_text(n as int) + "ms max="@ + int_text(limit as int) + "ms"@,
        ),
        refusal_text(Refusal::NearExpiry { left_s: n }) == Some(
            "expiry_too_close "@ + int_text(n as int) + "s"@,
        ),
        refusal_text(Refusal::WideSpread { cents: n, max: limit }) == Some(
            "spread "@ + fixed_text(n as int, 1) + "c > "@ + fixed_text(limit as int, 1) + "c"@,
        ),
        refusal_text(Refusal::BelowFloor { ask: price, floor: limit }) == Some(
            "ask "@ + fixed_text(price * 100, 0) + "c < "@ + fixed_text(limit * 100, 0) + "c floor"@,
        ),
        refusal_text(Refusal::AboveCeiling { ask: price, ceiling: limit }) == Some(
            "ask "@ + fixed_text(price * 100, 0) + "c > "@ + fixed_text(limit * 100, 0) + "c"@,
        ),
        refusal_text(Refusal::StopLoss) is None,
        refusal_text(Refusal::NoMarket) is None,
        refusal_text(Refusal::NoAsk) is None,
        refusal_text(Refusal::WrongDirection { signal: Side::Up, locked: Side::Down }) == Some(
            "wrong_direction: signal="@ + side_name(Side::Up) + " locked="@ + side_name(Side::Down),
        ),
        refusal_text(Refusal::WrongDirection { signal: Side::Down, locked: Side::Up }) == Some(
            "wrong_direction: signal="@ + side_name(Side::Down) + " locked="@ + side_name(Side::Up),
        ),
{
}

} // verus!
