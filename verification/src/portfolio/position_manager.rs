//! The pair manager: the momentum side first, the other side after the market
//! has moved, and both held to resolution. Nothing is sold.

use vstd::prelude::*;

use crate::fixed::{
    amount_ok, clamp, clamped, div_nearest, fixed_string, fixed_text, min, min_of, product, quotient, MICRO, WIDE,
};
use crate::state::SharedState;
use crate::strategy_v2::sniper::{ask_of, command_view, log_view};
use crate::text::join;
use crate::types_v2::{
    opposite, CommandView, ExecutionCommand, ExecutionEvent, ExecutionEventView, LogEvent,
    LogEventView, MarketDescriptor, MarketView, PolymarketTop, Side, StrategyState,
};

verus! {

/// How long to wait between the legs, in milliseconds.
pub const REPRICE_WAIT_MS: u64 = 2000;

/// The largest total of shares that a window's count tells apart.
pub const COUNT_LIMIT: i128 = 1_000_000_000_000_000_000_000_000_000_000_000_000;

/// How long a pair may stay between its legs, in milliseconds.
pub const STUCK_MS: i128 = 15_000;

/// The largest size of a fill: a trillion shares.
pub const SIZE_LIMIT: i128 = 1_000_000_000_000_000_000;

/// The largest cost of a leg.
pub const COST_LIMIT: i128 = 4_000_000_000_000_000_000_000_000_000_000;

/// A pair with its first leg.
#[derive(Debug, Clone)]
pub struct PairTrade {
    pub market_slug: String,
    pub leg1_side: Side,
    pub leg1_token_id: String,
    pub leg1_price: i128,
    pub leg1_shares: i128,
    pub leg1_notional: i128,
    pub leg1_ts_ms: i64,
}

pub ghost struct PairView {
    pub market_slug: Seq<char>,
    pub leg1_side: Side,
    pub leg1_token_id: Seq<char>,
    pub leg1_price: i128,
    pub leg1_shares: i128,
    pub leg1_notional: i128,
    pub leg1_ts_ms: i64,
}

impl View for PairTrade {
    type V = PairView;

    open spec fn view(&self) -> PairView {
        PairView {
            market_slug: self.market_slug@,
            leg1_side: self.leg1_side,
            leg1_token_id: self.leg1_token_id@,
            leg1_price: self.leg1_price,
            leg1_shares: self.leg1_shares,
            leg1_notional: self.leg1_notional,
            leg1_ts_ms: self.leg1_ts_ms,
        }
    }
}

impl PairView {
    pub open spec fn wf(self) -> bool {
        &&& -SIZE_LIMIT <= self.leg1_shares <= SIZE_LIMIT
        &&& -COST_LIMIT <= self.leg1_notional <= COST_LIMIT
    }
}

/// What both legs of a pair came to.
#[derive(Debug, Clone, Copy)]
pub struct PairResult {
    pub total_cost: i128,
    pub pair_shares: i128,
    pub est_profit: i128,
    pub cost_per_pair: i128,
}

/// The result of a pair: a dollar for each share that both legs have, less what
/// both cost.
pub open spec fn pair_result(
    leg1_notional: int,
    leg1_shares: int,
    size: int,
    price: int,
) -> PairResult {
    let total = leg1_notional + product(size, price);
    let shares = min_of(leg1_shares, size);
    PairResult {
        total_cost: total as i128,
        pair_shares: shares as i128,
        est_profit: (shares - total) as i128,
        cost_per_pair: (if shares > 0 {
            quotient(total * MICRO, shares)
        } else {
            MICRO as int
        }) as i128,
    }
}

/// Computes the result of a pair.
pub fn settle_pair(leg1_notional: i128, leg1_shares: i128, size: i128, price: i128) -> (r:
    PairResult)
    requires
        -COST_LIMIT <= leg1_notional <= COST_LIMIT,
        -SIZE_LIMIT <= leg1_shares <= SIZE_LIMIT,
        -SIZE_LIMIT <= size <= SIZE_LIMIT,
        amount_ok(price as int),
    ensures
        r == pair_result(leg1_notional as int, leg1_shares as int, size as int, price as int),
        -WIDE <= r.cost_per_pair <= WIDE,
{
    let leg2: i128 = leg_cost(size, price);
    let total: i128 = leg1_notional + leg2;
    let shares: i128 = min(leg1_shares, size);
    assert(-8_000_000_000_000_000_000_000_000_000_000 <= total
        <= 8_000_000_000_000_000_000_000_000_000_000);
    let cost_per_pair: i128 = if shares > 0 {
        assert(total * 1_000_000 <= 8_000_000_000_000_000_000_000_000_000_000_000_000);
        assert(total * 1_000_000 >= -8_000_000_000_000_000_000_000_000_000_000_000_000);
        div_nearest(total * MICRO as i128, shares)
    } else {
        MICRO as i128
    };
    PairResult { total_cost: total, pair_shares: shares, est_profit: shares - total, cost_per_pair }
}

fn leg_cost(size: i128, price: i128) -> (r: i128)
    requires
        -SIZE_LIMIT <= size <= SIZE_LIMIT,
        amount_ok(price as int),
    ensures
        r == product(size as int, price as int),
        -COST_LIMIT <= r <= COST_LIMIT,
{
    proof {
        crate::fixed::lemma_product_bounds(
            size as int,
            price as int,
            SIZE_LIMIT as int,
            crate::fixed::MAX_AMOUNT as int,
        );
        crate::fixed::rounding_keeps_bounds(
            size * price,
            MICRO as int,
            -COST_LIMIT as int,
            COST_LIMIT as int,
        );
    }
    crate::fixed::div_round(size * price, MICRO as i128)
}

/// What to do from a time on: buy the other side, if the strategy still waits.
#[derive(Debug, Clone)]
pub struct PendingLeg {
    pub market_slug: String,
    pub opposite_token_id: String,
    pub opposite_side: Side,
    /// The time from which the leg may be bought, in milliseconds.
    pub due_ms: i128,
}

pub ghost struct PendingView {
    pub market_slug: Seq<char>,
    pub opposite_token_id: Seq<char>,
    pub opposite_side: Side,
    pub due_ms: int,
}

impl View for PendingLeg {
    type V = PendingView;

    open spec fn view(&self) -> PendingView {
        PendingView {
            market_slug: self.market_slug@,
            opposite_token_id: self.opposite_token_id@,
            opposite_side: self.opposite_side,
            due_ms: self.due_ms as int,
        }
    }
}

/// The manager's state.
pub struct PairManager {
    pub current_pair: Option<PairTrade>,
    /// One pair a window.
    pub window_pair_done: bool,
    pub window_shares_bought: i128,
    pub last_window_ts: i64,
}

pub ghost struct ManagerView {
    pub current_pair: Option<PairView>,
    pub window_pair_done: bool,
    pub window_shares_bought: int,
    pub last_window_ts: i64,
}

impl View for PairManager {
    type V = ManagerView;

    open spec fn view(&self) -> ManagerView {
        ManagerView {
            current_pair: match self.current_pair {
                Some(p) => Some(p@),
                None => None,
            },
            window_pair_done: self.window_pair_done,
            window_shares_bought: self.window_shares_bought as int,
            last_window_ts: self.last_window_ts,
        }
    }
}

/// What an event leads to: the manager's next state, the strategy's next state,
/// a log entry, and a second leg to buy after the wait.
pub ghost struct ManagerStep {
    pub manager: ManagerView,
    pub state: StrategyState,
    pub log: Option<LogEventView>,
    pub pending: Option<PendingView>,
}

/// Whether the amounts of an event are within range.
pub open spec fn event_in_range(e: ExecutionEventView) -> bool {
    match e {
        ExecutionEventView::EntryFilled { filled_size, notional, .. } => -SIZE_LIMIT <= filled_size
            <= SIZE_LIMIT && -COST_LIMIT <= notional <= COST_LIMIT,
        ExecutionEventView::SecondLegFilled { filled_size, filled_price, .. } => -SIZE_LIMIT
            <= filled_size <= SIZE_LIMIT && amount_ok(filled_price as int),
        _ => true,
    }
}

/// Whether the amounts of an event are within range.
pub fn is_event_in_range(event: &ExecutionEvent) -> (r: bool)
    ensures
        r == event_in_range(event@),
{
    match event {
        ExecutionEvent::EntryFilled { filled_size, notional, .. } => {
            let (s, n): (i128, i128) = (*filled_size, *notional);
            -SIZE_LIMIT <= s && s <= SIZE_LIMIT && -COST_LIMIT <= n && n <= COST_LIMIT
        },
        ExecutionEvent::SecondLegFilled { filled_size, filled_price, .. } => {
            let (s, p): (i128, i128) = (*filled_size, *filled_price);
            let limit: i128 = crate::fixed::MAX_AMOUNT as i128;
            -SIZE_LIMIT <= s && s <= SIZE_LIMIT && -limit <= p && p <= limit
        },
        _ => true,
    }
}

/// The log entry of a completed pair.
pub open spec fn pair_log(pair: PairView, size: int, price: i128, now_ms: i64) -> LogEventView {
    let result = pair_result(pair.leg1_notional as int, pair.leg1_shares as int, size, price as int);
    LogEventView::PositionClosed {
        ts_ms: now_ms,
        market_slug: pair.market_slug,
        side: pair.leg1_side,
        entry_price: pair.leg1_price,
        exit_price: price,
        size: result.pair_shares,
        pnl_usdc: result.est_profit,
        hold_ms: (now_ms - pair.leg1_ts_ms) as i64,
        reason: "pair_complete cost="@ + fixed_text(result.cost_per_pair as int, 3),
    }
}

/// A window's count of shares with some more, as far as it is told apart.
pub open spec fn counted(total: int, size: int) -> int {
    clamped(total + size, -COUNT_LIMIT as int, COUNT_LIMIT as int)
}

impl ManagerView {
    /// The manager holds a pair within range, and counts within its limit.
    pub open spec fn wf(self) -> bool {
        &&& self.current_pair matches Some(p) ==> p.wf()
        &&& -COUNT_LIMIT <= self.window_shares_bought <= COUNT_LIMIT
    }

    /// The manager in a market's window. A new one forgets the pair, except the
    /// first that is seen.
    pub open spec fn in_window(self, window_start_ts: i64) -> ManagerView {
        if window_start_ts > 0 && window_start_ts != self.last_window_ts {
            if self.last_window_ts > 0 {
                ManagerView {
                    current_pair: None,
                    window_pair_done: false,
                    window_shares_bought: 0,
                    last_window_ts: window_start_ts,
                }
            } else {
                ManagerView { last_window_ts: window_start_ts, ..self }
            }
        } else {
            self
        }
    }

    /// Whether a market's window takes the strategy back to `Idle`.
    pub open spec fn resets(self, window_start_ts: i64) -> bool {
        window_start_ts > 0 && window_start_ts != self.last_window_ts && self.last_window_ts > 0
    }

    /// The effect of an event.
    pub open spec fn after(self, state: StrategyState, m: MarketView, e: ExecutionEventView, now_ms: i64) -> ManagerStep {
        match e {
            ExecutionEventView::EntryFilled {
                market_slug,
                token_id,
                side,
                filled_price,
                filled_size,
                notional,
                ack_ts_ms,
                ..
            } => ManagerStep {
                manager: ManagerView {
                    current_pair: Some(
                        PairView {
                            market_slug,
                            leg1_side: side,
                            leg1_token_id: token_id,
                            leg1_price: filled_price,
                            leg1_shares: filled_size,
                            leg1_notional: notional,
                            leg1_ts_ms: ack_ts_ms,
                        },
                    ),
                    window_shares_bought: counted(self.window_shares_bought, filled_size as int),
                    ..self
                },
                state: StrategyState::WaitForReprice,
                log: None,
                pending: Some(
                    PendingView {
                        market_slug,
                        opposite_token_id: m.token(opposite(side)),
                        opposite_side: opposite(side),
                        due_ms: now_ms + REPRICE_WAIT_MS,
                    },
                ),
            },
            ExecutionEventView::EntryRejected { .. } => ManagerStep {
                manager: ManagerView { current_pair: None, ..self },
                state: StrategyState::Idle,
                log: None,
                pending: None,
            },
            ExecutionEventView::SecondLegFilled { filled_price, filled_size, .. } => ManagerStep {
                manager: ManagerView {
                    current_pair: None,
                    window_pair_done: true,
                    window_shares_bought: if self.current_pair is Some {
                        counted(self.window_shares_bought, filled_size as int)
                    } else {
                        self.window_shares_bought
                    },
                    ..self
                },
                state: StrategyState::PairComplete,
                log: match self.current_pair {
                    Some(pair) => Some(pair_log(pair, filled_size as int, filled_price, now_ms)),
                    None => None,
                },
                pending: None,
            },
            ExecutionEventView::SecondLegRejected { .. } => ManagerStep {
                manager: ManagerView { current_pair: None, window_pair_done: true, ..self },
                state: StrategyState::PairComplete,
                log: None,
                pending: None,
            },
            _ => ManagerStep { manager: self, state, log: None, pending: None },
        }
    }

    /// Whether the strategy is stuck between the legs.
    pub open spec fn stuck(self, state: StrategyState, now_ms: i64) -> bool {
        (state == StrategyState::WaitForReprice || state == StrategyState::BuyingSecondLeg)
            && self.current_pair is Some && now_ms - self.current_pair->0.leg1_ts_ms > STUCK_MS
    }
}

impl PairManager {
    pub fn new() -> (r: PairManager)
        ensures
            r@ == (ManagerView {
                current_pair: None,
                window_pair_done: false,
                window_shares_bought: 0,
                last_window_ts: 0,
            }),
            r@.wf(),
    {
        PairManager {
            current_pair: None,
            window_pair_done: false,
            window_shares_bought: 0,
            last_window_ts: 0,
        }
    }

    /// Follows the market into its window.
    pub fn on_market(&mut self, shared: &mut SharedState, window_start_ts: i64)
        requires
            old(self)@.wf(),
        ensures
            final(self)@ == old(self)@.in_window(window_start_ts),
            *final(shared) == if old(self)@.resets(window_start_ts) {
                SharedState {
                    strategy_state: StrategyState::Idle,
                    current_position: None,
                    ..*old(shared)
                }
            } else {
                *old(shared)
            },
            final(self)@.wf(),
    {
        if window_start_ts > 0 && window_start_ts != self.last_window_ts {
            if self.last_window_ts > 0 {
                shared.clear_position();
                shared.set_state(StrategyState::Idle);
                self.current_pair = None;
                self.window_pair_done = false;
                self.window_shares_bought = 0;
            }
            self.last_window_ts = window_start_ts;
        }
    }

    /// Whether the hold time of the pair can be told at a time.
    pub open spec fn hold_fits(self, now_ms: i64) -> bool {
        self.current_pair matches Some(p) ==> i64::MIN <= now_ms - p.leg1_ts_ms <= i64::MAX
    }

    /// Whether the hold time of the pair can be told at a time.
    pub fn can_time(&self, now_ms: i64) -> (r: bool)
        ensures
            r == self.hold_fits(now_ms),
    {
        match &self.current_pair {
            Some(p) => {
                let d: i128 = now_ms as i128 - p.leg1_ts_ms as i128;
                i64::MIN as i128 <= d && d <= i64::MAX as i128
            },
            None => true,
        }
    }

    /// Takes an event of the executor.
    pub fn on_event(
        &mut self,
        shared: &mut SharedState,
        market: &MarketDescriptor,
        event: &ExecutionEvent,
        now_ms: i64,
    ) -> (r: (Option<LogEvent>, Option<PendingLeg>))
        requires
            old(self)@.wf(),
            event_in_range(event@),
            old(self).hold_fits(now_ms),
        ensures
            ({
                let step = old(self)@.after(old(shared).strategy_state, market@, event@, now_ms);
                &&& final(self)@ == step.manager
                &&& *final(shared) == (SharedState { strategy_state: step.state, ..*old(shared) })
                &&& log_view(r.0) == step.log
                &&& match r.1 {
                    Some(p) => step.pending == Some(p@),
                    None => step.pending is None,
                }
            }),
            final(self)@.wf(),
    {
        match event {
            ExecutionEvent::EntryFilled {
                market_slug,
                token_id,
                side,
                filled_price,
                filled_size,
                notional,
                ack_ts_ms,
                ..
            } => {
                self.current_pair = Some(
                    PairTrade {
                        market_slug: market_slug.clone(),
                        leg1_side: *side,
                        leg1_token_id: token_id.clone(),
                        leg1_price: *filled_price,
                        leg1_shares: *filled_size,
                        leg1_notional: *notional,
                        leg1_ts_ms: *ack_ts_ms,
                    },
                );
                self.window_shares_bought = clamp(
                    self.window_shares_bought + *filled_size,
                    -COUNT_LIMIT,
                    COUNT_LIMIT,
                );
                shared.set_state(StrategyState::WaitForReprice);
                let other: Side = match side {
                    Side::Up => Side::Down,
                    Side::Down => Side::Up,
                };
                (
                    None,
                    Some(
                        PendingLeg {
                            market_slug: market_slug.clone(),
                            opposite_token_id: market.token(other),
                            opposite_side: other,
                            due_ms: now_ms as i128 + REPRICE_WAIT_MS as i128,
                        },
                    ),
                )
            },
            ExecutionEvent::EntryRejected { .. } => {
                shared.set_state(StrategyState::Idle);
                self.current_pair = None;
                (None, None)
            },
            ExecutionEvent::SecondLegFilled { filled_price, filled_size, .. } => {
                let mut log: Option<LogEvent> = None;
                if let Some(pair) = &self.current_pair {
                    let result: PairResult = settle_pair(
                        pair.leg1_notional,
                        pair.leg1_shares,
                        *filled_size,
                        *filled_price,
                    );
                    let cost: String = fixed_string(result.cost_per_pair, 3);
                    log = Some(
                        LogEvent::PositionClosed {
                            ts_ms: now_ms,
                            market_slug: pair.market_slug.clone(),
                            side: pair.leg1_side,
                            entry_price: pair.leg1_price,
                            exit_price: *filled_price,
                            size: result.pair_shares,
                            pnl_usdc: result.est_profit,
                            hold_ms: now_ms - pair.leg1_ts_ms,
                            reason: join("pair_complete cost=", cost.as_str()),
                        },
                    );
                    self.window_shares_bought = clamp(
                        self.window_shares_bought + *filled_size,
                        -COUNT_LIMIT,
                        COUNT_LIMIT,
                    );
                }
                self.window_pair_done = true;
                shared.set_state(StrategyState::PairComplete);
                self.current_pair = None;
                (log, None)
            },
            ExecutionEvent::SecondLegRejected { .. } => {
                self.window_pair_done = true;
                self.current_pair = None;
                shared.set_state(StrategyState::PairComplete);
                (None, None)
            },
            _ => (None, None),
        }
    }

    /// Takes the strategy back to `Idle` where it is stuck between the legs.
    pub fn check_stuck(&mut self, shared: &mut SharedState, now_ms: i64)
        requires
            old(self)@.wf(),
        ensures
            old(self)@.stuck(old(shared).strategy_state, now_ms) ==> final(self)@ == (ManagerView {
                current_pair: None,
                ..old(self)@
            }) && *final(shared) == (SharedState {
                strategy_state: StrategyState::Idle,
                ..*old(shared)
            }),
            !old(self)@.stuck(old(shared).strategy_state, now_ms) ==> final(self)@ == old(self)@
                && *final(shared) == *old(shared),
            final(self)@.wf(),
    {
        let between: bool = match shared.get_state() {
            StrategyState::WaitForReprice => true,
            StrategyState::BuyingSecondLeg => true,
            _ => false,
        };
        let mut stuck: bool = false;
        if between {
            if let Some(pair) = &self.current_pair {
                stuck = now_ms as i128 - pair.leg1_ts_ms as i128 > STUCK_MS;
            }
        }
        if stuck {
            self.current_pair = None;
            shared.set_state(StrategyState::Idle);
        }
    }
}

/// The purchase of the second leg: at the other side's ask, or fifty cents where
/// none is known.
pub open spec fn second_leg(p: PendingView, top: PolymarketTop) -> CommandView {
    CommandView::BuySecondLeg {
        market_slug: p.market_slug,
        opposite_token_id: p.opposite_token_id,
        opposite_side: p.opposite_side,
        ask_price: match ask_of(top, p.opposite_side) {
            Some(a) => a as i128,
            None => 500_000,
        },
        reason: "leg2_pair"@,
    }
}

/// Whether a pending leg is to be bought: it is due, and the strategy still waits
/// for it.
pub open spec fn leg_due(state: StrategyState, p: PendingView, now_ms: int) -> bool {
    state == StrategyState::WaitForReprice && now_ms >= p.due_ms
}

/// Buys the second leg once it is due, where the strategy still waits for it.
pub fn after_wait(
    shared: &mut SharedState,
    top: &PolymarketTop,
    pending: &PendingLeg,
    now_ms: i64,
) -> (r: Option<ExecutionCommand>)
    ensures
        leg_due(old(shared).strategy_state, pending@, now_ms as int) ==> command_view(r) == Some(
            second_leg(pending@, *top),
        ) && *final(shared) == (SharedState {
            strategy_state: StrategyState::BuyingSecondLeg,
            ..*old(shared)
        }),
        !leg_due(old(shared).strategy_state, pending@, now_ms as int) ==> r is None
            && *final(shared) == *old(shared),
{
    if shared.get_state() != StrategyState::WaitForReprice || (now_ms as i128) < pending.due_ms {
        return None;
    }
    let ask: Option<i64> = match pending.opposite_side {
        Side::Up => top.up_ask,
        Side::Down => top.down_ask,
    };
    let ask_price: i128 = match ask {
        Some(a) => a as i128,
        None => 500_000,
    };
    shared.set_state(StrategyState::BuyingSecondLeg);
    Some(
        ExecutionCommand::BuySecondLeg {
            market_slug: pending.market_slug.clone(),
            opposite_token_id: pending.opposite_token_id.clone(),
            opposite_side: pending.opposite_side,
            ask_price,
            reason: "leg2_pair".to_owned(),
        },
    )
}

// ── Laws ────────────────────────────────────────────────────────

/// The second leg is on the other side of the first, in the same market, and due
/// two seconds after the first was filled, not earlier.
pub proof fn second_leg_is_the_other_side(
    v: ManagerView,
    state: StrategyState,
    m: MarketView,
    e: ExecutionEventView,
    now_ms: i64,
    top: PolymarketTop,
)
    requires
        v.after(state, m, e, now_ms).pending is Some,
    ensures
        e matches ExecutionEventView::EntryFilled { side, market_slug, .. } && second_leg(
            v.after(state, m, e, now_ms).pending->0,
            top,
        ) matches CommandView::BuySecondLeg {
            opposite_side,
            market_slug: slug,
            opposite_token_id,
            ..
        } && opposite_side == opposite(side) && slug == market_slug && opposite_token_id
            == m.token(opposite(side)),
        v.after(state, m, e, now_ms).pending->0.due_ms == now_ms + 2000,
{
}

/// The manager only buys: its one command is the purchase of a second leg, at the
/// other side's present ask, or fifty cents where none is known. A leg is bought
/// two seconds after its entry's fill at the earliest, and once: the purchase
/// ends the wait.
pub proof fn second_legs_come_once_and_in_time(
    v: ManagerView,
    state: StrategyState,
    m: MarketView,
    e: ExecutionEventView,
    filled_ms: i64,
    now_ms: i64,
    later_ms: i64,
    top: PolymarketTop,
)
    requires
        v.after(state, m, e, filled_ms).pending is Some,
    ensures
        ({
            let p = v.after(state, m, e, filled_ms).pending->0;
            &&& leg_due(StrategyState::WaitForReprice, p, now_ms as int) <==> now_ms >= filled_ms
                + 2000
            &&& !leg_due(StrategyState::BuyingSecondLeg, p, later_ms as int)
            &&& match second_leg(p, top) {
                CommandView::BuySecondLeg { ask_price, opposite_side, .. } => ask_price == (
                match ask_of(top, opposite_side) {
                    Some(a) => a as i128,
                    None => 500_000i128,
                }),
                _ => false,
            }
        }),
{
}

/// One pair a window: once the second leg was answered, the window is done and
/// the strategy rests in `PairComplete`; being stuck does not take it back, and
/// the answers to second legs, exits and cancels leave it there. Only a new
/// window does.
pub proof fn one_pair_a_window(
    v: ManagerView,
    state: StrategyState,
    m: MarketView,
    e: ExecutionEventView,
    now_ms: i64,
    window_start_ts: i64,
)
    ensures
        e is SecondLegFilled || e is SecondLegRejected ==> v.after(
            state,
            m,
            e,
            now_ms,
        ).manager.window_pair_done && v.after(state, m, e, now_ms).state
            == StrategyState::PairComplete,
        !v.stuck(StrategyState::PairComplete, now_ms),
        !(e is EntryFilled) && !(e is EntryRejected) ==> v.after(
            StrategyState::PairComplete,
            m,
            e,
            now_ms,
        ).state == StrategyState::PairComplete,
        v.window_pair_done ==> v.after(state, m, e, now_ms).manager.window_pair_done,
        v.window_pair_done && !v.resets(window_start_ts) ==> v.in_window(
            window_start_ts,
        ).window_pair_done,
{
}

/// A pair pays a dollar a share: its profit is what its cost is below that.
pub proof fn profit_is_payout_less_cost(leg1_notional: int, leg1_shares: int, size: int, price: int)
    requires
        -COST_LIMIT <= leg1_notional <= COST_LIMIT,
        -SIZE_LIMIT <= leg1_shares <= SIZE_LIMIT,
        -SIZE_LIMIT <= size <= SIZE_LIMIT,
        amount_ok(price),
    ensures
        ({
            let r = pair_result(leg1_notional, leg1_shares, size, price);
            &&& r.est_profit + r.total_cost == r.pair_shares
            &&& r.pair_shares <= leg1_shares && r.pair_shares <= size
            &&& r.total_cost == leg1_notional + product(size, price)
        }),
{
    crate::fixed::lemma_product_bounds(size, price, SIZE_LIMIT as int, crate::fixed::MAX_AMOUNT as int);
    crate::fixed::rounding_keeps_bounds(
        size * price,
        MICRO as int,
        -COST_LIMIT as int,
        COST_LIMIT as int,
    );
}

/// A filled entry opens a pair with what was bought, and waits two seconds for
/// the other side: the down token after an entry up, the up token after one down.
pub proof fn filled_entries_open_a_pair(
    v: ManagerView,
    state: StrategyState,
    m: MarketView,
    e: ExecutionEventView,
    now_ms: i64,
)
    requires
        v.wf(),
        e is EntryFilled,
        -1_000_000_000_000_000_000 <= e->EntryFilled_filled_size <= 1_000_000_000_000_000_000,
        -1_000_000_000_000_000_000_000 <= v.window_shares_bought <= 1_000_000_000_000_000_000_000,
    ensures
        ({
            let step = v.after(state, m, e, now_ms);
            &&& step.state == StrategyState::WaitForReprice
            &&& step.log is None
            &&& step.pending is Some
            &&& step.pending->0.due_ms == now_ms + 2000
            &&& step.pending->0.market_slug == e->EntryFilled_market_slug
            &&& e->EntryFilled_side == Side::Up ==> step.pending->0.opposite_side == Side::Down
                && step.pending->0.opposite_token_id == m.down_token_id
            &&& e->EntryFilled_side == Side::Down ==> step.pending->0.opposite_side == Side::Up
                && step.pending->0.opposite_token_id == m.up_token_id
            &&& step.manager.current_pair is Some
            &&& step.manager.current_pair->0.market_slug == e->EntryFilled_market_slug
            &&& step.manager.current_pair->0.leg1_side == e->EntryFilled_side
            &&& step.manager.current_pair->0.leg1_token_id == e->EntryFilled_token_id
            &&& step.manager.current_pair->0.leg1_price == e->EntryFilled_filled_price
            &&& step.manager.current_pair->0.leg1_shares == e->EntryFilled_filled_size
            &&& step.manager.current_pair->0.leg1_notional == e->EntryFilled_notional
            &&& step.manager.current_pair->0.leg1_ts_ms == e->EntryFilled_ack_ts_ms
            &&& step.manager.window_shares_bought == v.window_shares_bought
                + e->EntryFilled_filled_size
            &&& step.manager.window_pair_done == v.window_pair_done
            &&& step.manager.last_window_ts == v.last_window_ts
        }),
{
}

/// A second leg pays the present ask of its own side, fifty cents where there is
/// none, for the token that the wait was for.
pub proof fn second_legs_pay_their_own_ask(p: PendingView, top: PolymarketTop)
    ensures
        second_leg(p, top) is BuySecondLeg,
        second_leg(p, top)->BuySecondLeg_market_slug == p.market_slug,
        second_leg(p, top)->BuySecondLeg_opposite_token_id == p.opposite_token_id,
        second_leg(p, top)->BuySecondLeg_opposite_side == p.opposite_side,
        second_leg(p, top)->BuySecondLeg_reason == "leg2_pair"@,
        p.opposite_side == Side::Up ==> match top.up_ask {
            Some(ask) => second_leg(p, top)->BuySecondLeg_ask_price == ask,
            None => second_leg(p, top)->BuySecondLeg_ask_price == 500_000,
        },
        p.opposite_side == Side::Down ==> match top.down_ask {
            Some(ask) => second_leg(p, top)->BuySecondLeg_ask_price == ask,
            None => second_leg(p, top)->BuySecondLeg_ask_price == 500_000,
        },
        forall|state: StrategyState, now_ms: int| #[trigger]
            leg_due(state, p, now_ms) <==> state == StrategyState::WaitForReprice && now_ms
                >= p.due_ms,
{
}

/// A filled second leg closes the pair: the log tells its first leg's side and
/// price, the second leg's price, how long it was held, as many shares as both
/// legs have, and what they pay at a dollar each less what both cost.
pub proof fn filled_second_legs_close_the_pair(
    v: ManagerView,
    state: StrategyState,
    m: MarketView,
    e: ExecutionEventView,
    now_ms: i64,
)
    requires
        v.wf(),
        e is SecondLegFilled,
        event_in_range(e),
        v.current_pair is Some,
        i64::MIN <= now_ms - v.current_pair->0.leg1_ts_ms <= i64::MAX,
        -1_000_000_000_000_000_000_000 <= v.window_shares_bought <= 1_000_000_000_000_000_000_000,
    ensures
        ({
            let step = v.after(state, m, e, now_ms);
            let pair = v.current_pair->0;
            let size = e->SecondLegFilled_filled_size;
            let price = e->SecondLegFilled_filled_price;
            &&& step.state == StrategyState::PairComplete
            &&& step.pending is None
            &&& step.manager.current_pair is None
            &&& step.manager.window_pair_done
            &&& step.manager.window_shares_bought == v.window_shares_bought + size
            &&& step.manager.last_window_ts == v.last_window_ts
            &&& step.log is Some
            &&& step.log->0 is PositionClosed
            &&& step.log->0->PositionClosed_ts_ms == now_ms
            &&& step.log->0->PositionClosed_market_slug == pair.market_slug
            &&& step.log->0->PositionClosed_side == pair.leg1_side
            &&& step.log->0->PositionClosed_entry_price == pair.leg1_price
            &&& step.log->0->PositionClosed_exit_price == price
            &&& step.log->0->PositionClosed_hold_ms == now_ms - pair.leg1_ts_ms
            &&& step.log->0->PositionClosed_reason == "pair_complete cost="@ + fixed_text(
                pair_result(
                    pair.leg1_notional as int,
                    pair.leg1_shares as int,
                    size as int,
                    price as int,
                ).cost_per_pair as int,
                3,
            )
            &&& size <= pair.leg1_shares ==> step.log->0->PositionClosed_size == size
            &&& pair.leg1_shares <= size ==> step.log->0->PositionClosed_size == pair.leg1_shares
            &&& -500_000 <= (step.log->0->PositionClosed_size - pair.leg1_notional
                - step.log->0->PositionClosed_pnl_usdc) * 1_000_000 - size * price <= 500_000
        }),
{
    let pair = v.current_pair->0;
    let size = e->SecondLegFilled_filled_size as int;
    let price = e->SecondLegFilled_filled_price as int;
    profit_is_payout_less_cost(
        pair.leg1_notional as int,
        pair.leg1_shares as int,
        size,
        price,
    );
    crate::fixed::rounding_is_nearest(size * price, 1_000_000);
    let r = pair_result(pair.leg1_notional as int, pair.leg1_shares as int, size, price);
    assert(r.pair_shares == min_of(pair.leg1_shares as int, size));
    assert(r.est_profit == r.pair_shares - r.total_cost);
    assert(r.total_cost == pair.leg1_notional + product(size, price));
}

/// The cost of a pair is what both legs cost over the shares that both have; a
/// dollar where they have none.
pub proof fn pairs_cost_both_legs(leg1_notional: int, leg1_shares: int, size: int, price: int)
    requires
        -COST_LIMIT <= leg1_notional <= COST_LIMIT,
        -SIZE_LIMIT <= leg1_shares <= SIZE_LIMIT,
        -SIZE_LIMIT <= size <= SIZE_LIMIT,
        amount_ok(price),
    ensures
        ({
            let r = pair_result(leg1_notional, leg1_shares, size, price);
            &&& leg1_shares <= size ==> r.pair_shares == leg1_shares
            &&& size <= leg1_shares ==> r.pair_shares == size
            &&& -500_000 <= (r.total_cost - leg1_notional) * 1_000_000 - size * price <= 500_000
            &&& r.est_profit == r.pair_shares - r.total_cost
            &&& r.pair_shares <= 0 ==> r.cost_per_pair == 1_000_000
            &&& r.pair_shares > 0 ==> -r.pair_shares <= 2 * (r.cost_per_pair * r.pair_shares) - 2
                * (r.total_cost * 1_000_000) <= r.pair_shares
        }),
{
    profit_is_payout_less_cost(leg1_notional, leg1_shares, size, price);
    crate::fixed::rounding_is_nearest(size * price, 1_000_000);
    crate::fixed::lemma_product_bounds(size, price, SIZE_LIMIT as int, crate::fixed::MAX_AMOUNT as int);
    crate::fixed::rounding_keeps_bounds(
        size * price,
        MICRO as int,
        -COST_LIMIT as int,
        COST_LIMIT as int,
    );
    let total = leg1_notional + product(size, price);
    let shares = min_of(leg1_shares, size);
    if shares > 0 {
        crate::fixed::rounding_is_nearest(total * 1_000_000, shares);
        crate::fixed::lemma_quotient_bounds(total * 1_000_000, shares);
    }
}

/// A rejected entry frees the strategy; a rejected second leg ends the window.
pub proof fn rejections_end_the_pair(
    v: ManagerView,
    state: StrategyState,
    m: MarketView,
    e: ExecutionEventView,
    now_ms: i64,
)
    ensures
        ({
            let step = v.after(state, m, e, now_ms);
            &&& e is EntryRejected ==> step.state == StrategyState::Idle
                && step.manager.current_pair is None && step.manager.window_pair_done
                == v.window_pair_done
            &&& e is SecondLegRejected ==> step.state == StrategyState::PairComplete
                && step.manager.current_pair is None && step.manager.window_pair_done
            &&& e is EntryRejected || e is SecondLegRejected ==> step.log is None
                && step.pending is None && step.manager.window_shares_bought
                == v.window_shares_bought && step.manager.last_window_ts == v.last_window_ts
            &&& !(e is EntryFilled) && !(e is EntryRejected) && !(e is SecondLegFilled) && !(
            e is SecondLegRejected) ==> step.manager == v && step.state == state
                && step.log is None && step.pending is None
        }),
{
}

/// A pair is stuck from fifteen seconds after its first leg on, while the second
/// is waited for or being bought.
pub proof fn pairs_are_stuck_after_fifteen_seconds(v: ManagerView, state: StrategyState, now_ms: i64)
    ensures
        v.stuck(state, now_ms) <==> match v.current_pair {
            Some(pair) => now_ms > pair.leg1_ts_ms + 15_000 && (state
                == StrategyState::WaitForReprice || state == StrategyState::BuyingSecondLeg),
            None => false,
        },
{
}

/// A window after the first that was seen starts anew; the same one changes
/// nothing, and so does a time that is none.
pub proof fn windows_start_anew(v: ManagerView, window_start_ts: i64)
    ensures
        ({
            let w = v.in_window(window_start_ts);
            &&& window_start_ts <= 0 || window_start_ts == v.last_window_ts ==> w == v && !v.resets(
                window_start_ts,
            )
            &&& window_start_ts > 0 && window_start_ts != v.last_window_ts ==> w.last_window_ts
                == window_start_ts && (v.resets(window_start_ts) <==> v.last_window_ts > 0)
            &&& v.resets(window_start_ts) ==> w.current_pair is None && !w.window_pair_done
                && w.window_shares_bought == 0
            &&& !v.resets(window_start_ts) ==> w.current_pair == v.current_pair
                && w.window_pair_done == v.window_pair_done && w.window_shares_bought
                == v.window_shares_bought
        }),
{
}

} // verus!
