//! The pair bot that locks a profit.
//!
//! Once a side asks sixty cents, it is bought, and a bid rests on the other side
//! so that the pair costs ninety-five cents. Late in the window an unfilled bid
//! is replaced by a purchase. One pair a window, held to resolution; the size
//! grows while the pairs complete and shrinks where they do not.

use vstd::prelude::*;

use crate::clock::{elapsed, elapsed_s};
use crate::extended::Extended;
use crate::feeds::user_ws::UserFillEvent;
use crate::fixed::{amount_ok, max, max_of, round_cents, to_cents, CENT};
use crate::inventory::{bought_side, side_bought, Inventory};
use crate::ladder::HALF;
use crate::types_v2::{
    cancel_all, command_views, opposite, CommandView, EntryMode, ExecutionCommand,
    MarketDescriptor, MarketView, PolymarketTop, Side, Signal,
};
use crate::vidarx_btc15::cancelling;
use crate::vidarx_xrp::{expensive, expensive_side};

verus! {

/// What a pair is to cost: ninety-five cents.
pub const TARGET_PAIR_COST: i128 = 950_000;

/// The ask from which a side is bought: sixty cents.
pub const MOMENTUM_GATE: i64 = 600_000;

/// The shares of a leg at the start: twenty.
pub const START_SHARES: i128 = 20_000_000;

/// The fewest shares of a leg: twenty.
pub const MIN_SHARES: i128 = 20_000_000;

/// By how many shares the size changes: twenty.
pub const SCALE_STEP: i128 = 20_000_000;

/// The number of windows after which the size is set anew.
pub const SCALE_WINDOW_BATCH: usize = 30;

/// The number of completed pairs in a batch from which the size grows.
pub const SCALE_SUCCESS_THRESHOLD: usize = 27;

/// How long to wait, after the cancel that a tick sends, before the purchase
/// that follows it, in milliseconds.
pub const CANCEL_SETTLE_MS: u64 = 100;

/// The state of the bot.
#[derive(Debug, Clone)]
pub struct LockProfit {
    pub last_window_ts: i64,
    pub pair_done: bool,
    /// What the expensive side asked when it was bought; zero before.
    pub exp_fill_price: i64,
    pub exp_fill_shares: i128,
    pub cheap_gtc_posted: bool,
    pub watching_for_flip: bool,
    pub cheap_token_id: String,
    pub cheap_side: Option<Side>,
    pub held: Inventory,
    pub shares_per_leg: i128,
    /// For each window of the batch, whether both legs filled.
    pub window_results: Vec<bool>,
    pub both_legs_filled: bool,
}

pub ghost struct LockView {
    pub last_window_ts: i64,
    pub pair_done: bool,
    pub exp_fill_price: i64,
    pub exp_fill_shares: i128,
    pub cheap_gtc_posted: bool,
    pub watching_for_flip: bool,
    pub cheap_token_id: Seq<char>,
    pub cheap_side: Option<Side>,
    pub held: Inventory,
    pub shares_per_leg: i128,
    pub window_results: Seq<bool>,
    pub both_legs_filled: bool,
}

impl View for LockProfit {
    type V = LockView;

    open spec fn view(&self) -> LockView {
        LockView {
            last_window_ts: self.last_window_ts,
            pair_done: self.pair_done,
            exp_fill_price: self.exp_fill_price,
            exp_fill_shares: self.exp_fill_shares,
            cheap_gtc_posted: self.cheap_gtc_posted,
            watching_for_flip: self.watching_for_flip,
            cheap_token_id: self.cheap_token_id@,
            cheap_side: self.cheap_side,
            held: self.held,
            shares_per_leg: self.shares_per_leg,
            window_results: self.window_results@,
            both_legs_filled: self.both_legs_filled,
        }
    }
}

pub ghost struct LockStep {
    pub state: LockView,
    pub commands: Seq<CommandView>,
}

/// A state with nothing sent.
pub open spec fn quiet(state: LockView) -> LockStep {
    LockStep { state, commands: Seq::empty() }
}

/// The number of windows in which both legs filled.
pub open spec fn successes(results: Seq<bool>) -> nat
    decreases results.len(),
{
    if results.len() == 0 {
        0
    } else {
        successes(results.drop_last()) + if results.last() {
            1nat
        } else {
            0nat
        }
    }
}

/// The shares of a leg after a batch: more where enough pairs completed, else
/// fewer, down to the least.
pub open spec fn rescaled(shares: i128, completed: nat) -> int {
    if completed >= SCALE_SUCCESS_THRESHOLD {
        shares + SCALE_STEP
    } else {
        max_of(shares - SCALE_STEP, MIN_SHARES as int)
    }
}

/// A signal that carries nothing but its side.
pub open spec fn bare_signal(now_ms: i64, side: Side) -> Signal {
    Signal {
        created_ts_ms: now_ms,
        side,
        entry_mode: EntryMode::Taker,
        r200_bps: Extended::Number(0),
        r500_bps: Extended::Number(0),
        r800_bps: Extended::Number(0),
        r2000_bps: Extended::Number(0),
        fast_move_bps: Extended::Number(0),
        raw_basis_bps: Extended::Number(0),
        basis_dev_bps: Extended::Number(0),
        dbasis_bps: Extended::Number(0),
        obi_ema: 0,
        score: 0,
        confidence: 0,
        strong_contradiction: false,
    }
}

fn blank_signal(now_ms: i64, side: Side) -> (r: Signal)
    ensures
        r == bare_signal(now_ms, side),
{
    Signal {
        created_ts_ms: now_ms,
        side,
        entry_mode: EntryMode::Taker,
        r200_bps: Extended::Number(0),
        r500_bps: Extended::Number(0),
        r800_bps: Extended::Number(0),
        r2000_bps: Extended::Number(0),
        fast_move_bps: Extended::Number(0),
        raw_basis_bps: Extended::Number(0),
        basis_dev_bps: Extended::Number(0),
        dbasis_bps: Extended::Number(0),
        obi_ema: 0,
        score: 0,
        confidence: 0,
        strong_contradiction: false,
    }
}

/// The purchase of a leg.
pub open spec fn purchase(
    slug: Seq<char>,
    token_id: Seq<char>,
    side: Side,
    ask: i64,
    shares: i128,
    now_ms: i64,
) -> CommandView {
    CommandView::EnterTaker {
        market_slug: slug,
        token_id,
        side,
        max_price: ask as i128,
        notional: shares,
        signal: bare_signal(now_ms, side),
    }
}

impl LockView {
    pub open spec fn wf(self) -> bool {
        &&& self.held.wf()
        &&& self.shares_per_leg >= MIN_SHARES
        &&& self.window_results.len() < SCALE_WINDOW_BATCH
        &&& self.watching_for_flip ==> self.exp_fill_price != 0
    }

    /// The state in which the bot starts.
    pub open spec fn initial() -> LockView {
        LockView {
            last_window_ts: 0,
            pair_done: false,
            exp_fill_price: 0,
            exp_fill_shares: 0,
            cheap_gtc_posted: false,
            watching_for_flip: false,
            cheap_token_id: Seq::empty(),
            cheap_side: None,
            held: Inventory::none(),
            shares_per_leg: START_SHARES,
            window_results: Seq::empty(),
            both_legs_filled: false,
        }
    }

    /// Whether a market opens a window that is not this one.
    pub open spec fn is_new_window(self, window_start_ts: i64) -> bool {
        window_start_ts > 0 && window_start_ts != self.last_window_ts
    }

    /// The results with that of the window that ends: only a window in which the
    /// pair was settled counts.
    pub open spec fn results_after(self) -> Seq<bool> {
        if self.last_window_ts > 0 && self.pair_done {
            self.window_results.push(self.both_legs_filled)
        } else {
            self.window_results
        }
    }

    /// The state at the start of a window: nothing held. A full batch of results
    /// sets the size anew and starts the next batch.
    pub open spec fn in_window(self, window_start_ts: i64) -> LockView {
        let results = self.results_after();
        let scale = self.last_window_ts > 0 && results.len() >= SCALE_WINDOW_BATCH;
        LockView {
            last_window_ts: window_start_ts,
            shares_per_leg: if scale {
                rescaled(self.shares_per_leg, successes(results)) as i128
            } else {
                self.shares_per_leg
            },
            window_results: if scale {
                Seq::empty()
            } else {
                results
            },
            ..LockView::initial()
        }
    }

    /// Both sides are held.
    pub open spec fn locked(self) -> bool {
        self.held.up_shares > 0 && self.held.dn_shares > 0
    }

    /// The state after a fill.
    pub open spec fn filled(self, side: Side, size: i64, price: i64) -> LockView {
        let s = LockView { held: self.held.with(side, size, price), ..self };
        LockView { both_legs_filled: s.both_legs_filled || s.locked(), ..s }
    }

    /// The purchase of the expensive side at its ask, and the bid on the cheap
    /// side for the rest of the target; where that is not between one and fifty
    /// cents, the window is done without a second leg.
    pub open spec fn entered(self, now_ms: i64, m: MarketView, side: Side, ask: i64) -> LockStep {
        let bought = purchase(m.slug, m.token(side), side, ask, self.shares_per_leg, now_ms);
        let s = LockView { exp_fill_price: ask, exp_fill_shares: self.shares_per_leg, ..self };
        let cheap = opposite(side);
        let price = TARGET_PAIR_COST - ask;
        if CENT < price < HALF {
            LockStep {
                state: LockView {
                    cheap_gtc_posted: true,
                    watching_for_flip: true,
                    cheap_token_id: m.token(cheap),
                    cheap_side: Some(cheap),
                    ..s
                },
                commands: seq![
                    bought,
                    CommandView::PostMakerBid {
                        market_slug: m.slug,
                        token_id: m.token(cheap),
                        side: cheap,
                        price: to_cents(price) as i128,
                        size: self.shares_per_leg,
                        post_only: true,
                        ladder_key: "lockprofit_cheap"@,
                        was_cheap: true,
                    },
                ],
            }
        } else {
            LockStep { state: LockView { pair_done: true, ..s }, commands: seq![bought] }
        }
    }

    /// The watch over the cheap side's bid: done once both sides are held; from
    /// three and a half minutes on the bid is cancelled and the cheap side
    /// bought, as a stop where it has risen to sixty cents, else to match.
    pub open spec fn watched(self, now_ms: i64, e: int, m: MarketView, up_ask: i64, dn_ask: i64) -> LockStep {
        let ended = LockView { watching_for_flip: false, pair_done: true, ..self };
        if self.locked() {
            quiet(ended)
        } else if e >= 210 {
            let ask = if self.cheap_side == Some(Side::Up) {
                up_ask
            } else {
                dn_ask
            };
            let side = match self.cheap_side {
                Some(s) => s,
                None => Side::Down,
            };
            LockStep {
                state: ended,
                commands: seq![
                    cancelling(
                        if ask >= MOMENTUM_GATE {
                            "flip_stop_loss"@
                        } else {
                            "force_match_t210"@
                        },
                    ),
                    purchase(
                        m.slug,
                        self.cheap_token_id,
                        side,
                        ask,
                        self.shares_per_leg,
                        now_ms,
                    ),
                ],
            }
        } else {
            quiet(self)
        }
    }

    /// The watch, where the bot is watching.
    pub open spec fn watched_if(self, now_ms: i64, e: int, m: MarketView, up_ask: i64, dn_ask: i64) -> LockStep {
        if self.watching_for_flip && !self.pair_done {
            self.watched(now_ms, e, m, up_ask, dn_ask)
        } else {
            quiet(self)
        }
    }

    /// A tick, from ten seconds to four minutes into the window.
    pub open spec fn ticked(self, now_ms: i64, m: MarketView, top: PolymarketTop) -> LockStep {
        let e = elapsed(now_ms as int, m.window_start_ts as int);
        match expensive(top) {
            Some((side, ask)) if !self.pair_done && m.up_token_id.len() > 0 && 10 <= e < 240 => {
                if self.exp_fill_price != 0 {
                    self.watched_if(now_ms, e, m, top.up_ask->0, top.down_ask->0)
                } else if ask < MOMENTUM_GATE {
                    quiet(self)
                } else {
                    let a = self.entered(now_ms, m, side, ask);
                    let b = a.state.watched_if(now_ms, e, m, top.up_ask->0, top.down_ask->0);
                    LockStep { state: b.state, commands: a.commands + b.commands }
                }
            },
            _ => quiet(self),
        }
    }
}

fn count_successes(results: &Vec<bool>) -> (r: usize)
    ensures
        r == successes(results@),
        r <= results@.len(),
{
    let mut n: usize = 0;
    let mut i: usize = 0;
    assert(results@.take(0) =~= Seq::empty());
    while i < results.len()
        invariant
            i <= results@.len(),
            n <= i,
            n == successes(results@.take(i as int)),
        decreases results@.len() - i,
    {
        if results[i] {
            n = n + 1;
        }
        i = i + 1;
        assert(results@.take(i as int).drop_last() =~= results@.take(i as int - 1));
    }
    assert(results@.take(i as int) =~= results@);
    n
}

impl LockProfit {
    /// The state in which the bot starts.
    pub fn new() -> (r: LockProfit)
        ensures
            r@ == LockView::initial(),
            r@.wf(),
    {
        let r: LockProfit = LockProfit {
            last_window_ts: 0,
            pair_done: false,
            exp_fill_price: 0,
            exp_fill_shares: 0,
            cheap_gtc_posted: false,
            watching_for_flip: false,
            cheap_token_id: String::new(),
            cheap_side: None,
            held: Inventory::new(),
            shares_per_leg: START_SHARES,
            window_results: Vec::new(),
            both_legs_filled: false,
        };
        assert(r.window_results@ =~= Seq::empty());
        r
    }

    /// Enters a window where the market opened a new one.
    pub fn on_market(&mut self, window_start_ts: i64) -> (r: Vec<ExecutionCommand>)
        requires
            old(self)@.wf(),
            old(self).shares_per_leg <= i128::MAX - SCALE_STEP,
        ensures
            old(self)@.is_new_window(window_start_ts) ==> final(self)@ == old(self)@.in_window(
                window_start_ts,
            ) && command_views(r@) == seq![cancelling("new_window"@)],
            !old(self)@.is_new_window(window_start_ts) ==> final(self)@ == old(self)@ && r@.len()
                == 0,
            final(self)@.wf(),
    {
        let mut out: Vec<ExecutionCommand> = Vec::new();
        if window_start_ts > 0 && window_start_ts != self.last_window_ts {
            let ghost before = self@;
            if self.last_window_ts > 0 {
                if self.pair_done {
                    self.window_results.push(self.both_legs_filled);
                }
                assert(self.window_results@ == before.results_after());
                if self.window_results.len() >= SCALE_WINDOW_BATCH {
                    let completed: usize = count_successes(&self.window_results);
                    if completed >= SCALE_SUCCESS_THRESHOLD {
                        self.shares_per_leg = self.shares_per_leg + SCALE_STEP;
                    } else {
                        self.shares_per_leg = max(self.shares_per_leg - SCALE_STEP, MIN_SHARES);
                    }
                    self.window_results = Vec::new();
                    assert(self.window_results@ =~= Seq::empty());
                }
            }
            self.held = Inventory::new();
            self.pair_done = false;
            self.exp_fill_price = 0;
            self.exp_fill_shares = 0;
            self.cheap_gtc_posted = false;
            self.watching_for_flip = false;
            self.cheap_token_id = String::new();
            self.cheap_side = None;
            self.both_legs_filled = false;
            self.last_window_ts = window_start_ts;
            out.push(cancel_all("new_window"));
            assert(command_views(out@) =~= seq![cancelling("new_window"@)]);
        }
        out
    }

    /// Adds a fill of one of the market's tokens; others are passed over. Says
    /// which side it added to.
    pub fn on_fill(&mut self, fill: &UserFillEvent, market: &MarketDescriptor) -> (r: Option<Side>)
        requires
            old(self)@.wf(),
            bought_side(fill.asset_id@, fill.side@, market@) matches Some(side) ==> old(
                self,
            ).held.has_room(side, fill.size, fill.price),
        ensures
            r == bought_side(fill.asset_id@, fill.side@, market@),
            final(self)@ == match r {
                Some(side) => old(self)@.filled(side, fill.size, fill.price),
                None => old(self)@,
            },
            final(self)@.wf(),
    {
        let side: Option<Side> = side_bought(fill.asset_id.as_str(), fill.side.as_str(), market);
        if let Some(s) = side {
            self.held.record(s, fill.size, fill.price);
            if self.held.up_shares > 0 && self.held.dn_shares > 0 {
                self.both_legs_filled = true;
            }
        }
        side
    }

    fn enter(
        &mut self,
        now_ms: i64,
        market: &MarketDescriptor,
        side: Side,
        ask: i64,
        out: &mut Vec<ExecutionCommand>,
    )
        requires
            amount_ok(ask as int),
        ensures
            final(self)@ == old(self)@.entered(now_ms, market@, side, ask).state,
            command_views(final(out)@) == command_views(old(out)@) + old(self)@.entered(
                now_ms,
                market@,
                side,
                ask,
            ).commands,
    {
        let ghost before = command_views(out@);
        out.push(
            ExecutionCommand::EnterTaker {
                market_slug: market.slug.clone(),
                token_id: market.token(side),
                side,
                max_price: ask as i128,
                notional: self.shares_per_leg,
                signal: blank_signal(now_ms, side),
            },
        );
        self.exp_fill_price = ask;
        self.exp_fill_shares = self.shares_per_leg;
        let cheap: Side = match side {
            Side::Up => Side::Down,
            Side::Down => Side::Up,
        };
        let price: i128 = TARGET_PAIR_COST - ask as i128;
        if price > CENT as i128 && price < HALF {
            out.push(
                ExecutionCommand::PostMakerBid {
                    market_slug: market.slug.clone(),
                    token_id: market.token(cheap),
                    side: cheap,
                    price: round_cents(price),
                    size: self.shares_per_leg,
                    post_only: true,
                    ladder_key: "lockprofit_cheap".to_owned(),
                    was_cheap: true,
                },
            );
            self.cheap_gtc_posted = true;
            self.watching_for_flip = true;
            self.cheap_token_id = market.token(cheap);
            self.cheap_side = Some(cheap);
        } else {
            self.pair_done = true;
        }
        assert(command_views(out@) =~= before + old(self)@.entered(
            now_ms,
            market@,
            side,
            ask,
        ).commands);
    }

    fn watch(
        &mut self,
        now_ms: i64,
        e: i128,
        market: &MarketDescriptor,
        up_ask: i64,
        dn_ask: i64,
        out: &mut Vec<ExecutionCommand>,
    )
        ensures
            final(self)@ == old(self)@.watched_if(now_ms, e as int, market@, up_ask, dn_ask).state,
            command_views(final(out)@) == command_views(old(out)@) + old(self)@.watched_if(
                now_ms,
                e as int,
                market@,
                up_ask,
                dn_ask,
            ).commands,
    {
        let ghost before = command_views(out@);
        if self.watching_for_flip && !self.pair_done {
            if self.held.up_shares > 0 && self.held.dn_shares > 0 {
                self.watching_for_flip = false;
                self.pair_done = true;
            } else if e >= 210 {
                let side: Side = match self.cheap_side {
                    Some(s) => s,
                    None => Side::Down,
                };
                let ask: i64 = match side {
                    Side::Up => up_ask,
                    Side::Down => dn_ask,
                };
                if ask >= MOMENTUM_GATE {
                    out.push(cancel_all("flip_stop_loss"));
                } else {
                    out.push(cancel_all("force_match_t210"));
                }
                out.push(
                    ExecutionCommand::EnterTaker {
                        market_slug: market.slug.clone(),
                        token_id: self.cheap_token_id.clone(),
                        side,
                        max_price: ask as i128,
                        notional: self.shares_per_leg,
                        signal: blank_signal(now_ms, side),
                    },
                );
                self.watching_for_flip = false;
                self.pair_done = true;
            }
        }
        assert(command_views(out@) =~= before + old(self)@.watched_if(
            now_ms,
            e as int,
            market@,
            up_ask,
            dn_ask,
        ).commands);
    }

    /// A tick.
    pub fn on_tick(&mut self, now_ms: i64, market: &MarketDescriptor, top: &PolymarketTop) -> (r: Vec<
        ExecutionCommand,
    >)
        requires
            old(self)@.wf(),
            top.wf(),
        ensures
            final(self)@ == old(self)@.ticked(now_ms, market@, *top).state,
            command_views(r@) == old(self)@.ticked(now_ms, market@, *top).commands,
            final(self)@.wf(),
    {
        let mut out: Vec<ExecutionCommand> = Vec::new();
        assert(command_views(out@) =~= Seq::empty());
        if self.pair_done || market.up_token_id.as_str().is_empty() {
            return out;
        }
        let e: i128 = elapsed_s(now_ms, market.window_start_ts);
        if e < 10 || e >= 240 {
            return out;
        }
        if let (Some(up_ask), Some(dn_ask)) = (top.up_ask, top.down_ask) {
            if self.exp_fill_price == 0 {
                if let Some((side, ask)) = expensive_side(top) {
                    if ask < MOMENTUM_GATE {
                        return out;
                    }
                    self.enter(now_ms, market, side, ask, &mut out);
                }
            }
            self.watch(now_ms, e, market, up_ask, dn_ask, &mut out);
        }
        assert(command_views(out@) =~= old(self)@.ticked(now_ms, market@, *top).commands);
        out
    }
}

// ── Laws ────────────────────────────────────────────────────────

/// The size of a leg is never below twenty shares, moves by twenty at most, and
/// only where a batch of thirty windows is full.
pub proof fn size_follows_results(s: LockView, window_start_ts: i64)
    requires
        s.wf(),
        s.shares_per_leg <= i128::MAX - SCALE_STEP,
    ensures
        s.in_window(window_start_ts).shares_per_leg >= MIN_SHARES,
        s.in_window(window_start_ts).window_results.len() < SCALE_WINDOW_BATCH,
        -SCALE_STEP <= s.in_window(window_start_ts).shares_per_leg - s.shares_per_leg <= SCALE_STEP,
        s.in_window(window_start_ts).shares_per_leg != s.shares_per_leg ==> s.results_after().len()
            == SCALE_WINDOW_BATCH,
{
}

/// One pair a window. The expensive side is bought once, the cheap side at most
/// once: a tick that buys leaves the bot watching or done, a watching bot buys
/// only as it ends, and a bot that is done sends nothing. Nothing is sold.
pub proof fn one_pair_a_window(s: LockView, now_ms: i64, m: MarketView, top: PolymarketTop)
    requires
        s.wf(),
    ensures
        ({
            let step = s.ticked(now_ms, m, top);
            &&& s.pair_done ==> step == quiet(s)
            &&& step.commands.len() > 0 ==> step.state.exp_fill_price != 0
            &&& s.exp_fill_price != 0 && step.commands.len() > 0 ==> s.watching_for_flip
                && step.state.pair_done
            &&& s.exp_fill_price == 0 && step.commands.len() > 0 ==> step.state.watching_for_flip
                || step.state.pair_done
            &&& forall|i: int|
                0 <= i < step.commands.len() ==> (#[trigger] step.commands[i] is EnterTaker
                    || step.commands[i] is PostMakerBid || step.commands[i] is CancelAll)
        }),
{
}

/// Nothing is sent in the first ten seconds of a window nor after four minutes,
/// and the second leg is bought outright only from three and a half minutes on.
pub proof fn orders_keep_to_the_window(s: LockView, now_ms: i64, m: MarketView, top: PolymarketTop)
    requires
        s.wf(),
    ensures
        ({
            let e = elapsed(now_ms as int, m.window_start_ts as int);
            let step = s.ticked(now_ms, m, top);
            &&& !(10 <= e < 240) ==> step == quiet(s)
            &&& s.exp_fill_price != 0 && step.commands.len() > 0 ==> e >= 210
        }),
{
}

/// The first leg is bought from sixty cents on; where it asks whole cents and
/// the second leg is bid for, the two cost ninety-five cents together.
pub proof fn pair_costs_the_target(
    s: LockView,
    now_ms: i64,
    m: MarketView,
    top: PolymarketTop,
    cents: int,
)
    requires
        s.wf(),
        s.exp_fill_price == 0,
        s.ticked(now_ms, m, top).commands.len() > 0,
        s.ticked(now_ms, m, top).state.exp_fill_price == cents * CENT,
    ensures
        s.ticked(now_ms, m, top).state.exp_fill_price >= MOMENTUM_GATE,
        s.ticked(now_ms, m, top).commands[0] matches CommandView::EnterTaker { max_price, .. }
            && max_price == cents * CENT,
        s.ticked(now_ms, m, top).state.cheap_gtc_posted && !s.cheap_gtc_posted ==> (match s.ticked(
            now_ms,
            m,
            top,
        ).commands[1] {
            CommandView::PostMakerBid { price, .. } => price + cents * CENT == TARGET_PAIR_COST,
            _ => false,
        }),
{
    crate::fixed::lemma_cents_are_fixed(95 - cents);
    assert(TARGET_PAIR_COST - cents * CENT == (95 - cents) * CENT);
}

/// Whether a command buys so many shares of a token of a side at a price.
pub open spec fn buys(
    c: CommandView,
    m: MarketView,
    of: Side,
    token: Seq<char>,
    price: int,
    shares: int,
) -> bool {
    match c {
        CommandView::EnterTaker { market_slug, token_id, side, max_price, notional, signal } => {
            &&& market_slug == m.slug
            &&& side == of
            &&& signal.side == of
            &&& token_id == token
            &&& max_price == price
            &&& notional == shares
        },
        _ => false,
    }
}

/// The two legs are on opposite sides. From ten seconds to four minutes into the window,
/// once a side asks sixty cents, the dearer side is bought at its ask, and a bid for as
/// many shares rests on the other side's token, in whole cents, for what ninety-five
/// cents leave. Where that is not between one and fifty cents, there is no bid and the
/// window is done. From three and a half minutes on the bid is replaced at once by a
/// purchase of the same other side.
pub proof fn legs_are_on_opposite_sides(s: LockView, now_ms: i64, m: MarketView, top: PolymarketTop)
    requires
        s.wf(),
        top.wf(),
        s.exp_fill_price == 0,
    ensures
        ({
            let e = elapsed(now_ms as int, m.window_start_ts as int);
            let step = s.ticked(now_ms, m, top);
            let up = top.up_ask->0;
            let down = top.down_ask->0;
            let opens = !s.pair_done && m.up_token_id.len() > 0 && 10 <= e < 240 && top.up_ask is Some
                && top.down_ask is Some && (up >= 600_000 || down >= 600_000);
            let (side, token, ask, other, other_token, other_ask) = if up >= down {
                (Side::Up, m.up_token_id, up, Side::Down, m.down_token_id, down)
            } else {
                (Side::Down, m.down_token_id, down, Side::Up, m.up_token_id, up)
            };
            let rest = 950_000 - ask;
            let both = s.held.up_shares > 0 && s.held.dn_shares > 0;
            &&& !opens ==> step.commands.len() == 0 && step.state == s
            &&& opens ==> {
                &&& step.commands.len() > 0
                &&& buys(step.commands[0], m, side, token, ask as int, s.shares_per_leg as int)
                &&& step.state.exp_fill_price == ask
                &&& step.state.held == s.held
                &&& 10_000 < rest < 500_000 ==> {
                    &&& step.commands.len() >= 2
                    &&& (match step.commands[1] {
                        CommandView::PostMakerBid {
                            market_slug,
                            token_id,
                            side: bid_side,
                            price,
                            size,
                            post_only,
                            ..
                        } => {
                            &&& market_slug == m.slug
                            &&& bid_side == other
                            &&& token_id == other_token
                            &&& price as int % 10_000 == 0
                            &&& rest - 5_000 <= price <= rest + 5_000
                            &&& size == s.shares_per_leg
                            &&& post_only
                        },
                        _ => false,
                    })
                    &&& step.state.cheap_side == Some(other)
                    &&& step.state.cheap_token_id == other_token
                    &&& step.state.cheap_gtc_posted
                    &&& e < 210 || both ==> step.commands.len() == 2
                    &&& e < 210 && !both ==> step.state.watching_for_flip && !step.state.pair_done
                    &&& e >= 210 && !both ==> {
                        &&& step.commands.len() == 4
                        &&& step.commands[2] is CancelAll
                        &&& buys(
                            step.commands[3],
                            m,
                            other,
                            other_token,
                            other_ask as int,
                            s.shares_per_leg as int,
                        )
                        &&& step.state.pair_done
                    }
                }
                &&& !(10_000 < rest < 500_000) ==> step.commands.len() == 1 && step.state.pair_done
            }
        }),
{
    let ask: int = match expensive(top) {
        Some((_, a)) => a as int,
        None => 0,
    };
    crate::fixed::cents_are_nearest(950_000 - ask);
}

/// The watch over the bid: done once both sides are held, still before three and a half
/// minutes; from then on the bid is cancelled and its side bought at its ask, as a stop
/// where that has come to sixty cents.
pub proof fn the_bid_is_replaced_by_a_purchase(
    s: LockView,
    now_ms: i64,
    m: MarketView,
    top: PolymarketTop,
    side: Side,
)
    requires
        s.wf(),
        s.exp_fill_price != 0,
        s.watching_for_flip,
        s.cheap_side == Some(side),
        !s.pair_done,
        m.up_token_id.len() > 0,
        10 <= elapsed(now_ms as int, m.window_start_ts as int) < 240,
        top.up_ask is Some,
        top.down_ask is Some,
    ensures
        ({
            let e = elapsed(now_ms as int, m.window_start_ts as int);
            let step = s.ticked(now_ms, m, top);
            let ask = match side {
                Side::Up => top.up_ask->0,
                Side::Down => top.down_ask->0,
            };
            let both = s.held.up_shares > 0 && s.held.dn_shares > 0;
            &&& both ==> step.commands.len() == 0 && step.state.pair_done
            &&& !both && e < 210 ==> step.commands.len() == 0 && step.state == s
            &&& !both && e >= 210 ==> {
                &&& step.commands.len() == 2
                &&& step.commands[0] == CommandView::CancelAll {
                    reason: if ask >= 600_000 {
                        "flip_stop_loss"@
                    } else {
                        "force_match_t210"@
                    },
                }
                &&& buys(
                    step.commands[1],
                    m,
                    side,
                    s.cheap_token_id,
                    ask as int,
                    s.shares_per_leg as int,
                )
                &&& step.state.pair_done && !step.state.watching_for_flip
            }
            &&& step.state.held == s.held
            &&& step.state.shares_per_leg == s.shares_per_leg
            &&& step.state.both_legs_filled == s.both_legs_filled
        }),
{
}

/// A fill adds to its side; the pair counts as complete from the moment both sides are
/// held, and stays so.
pub proof fn fills_complete_the_pair(s: LockView, side: Side, size: i64, price: i64)
    ensures
        ({
            let t = s.filled(side, size, price);
            &&& t.held == s.held.with(side, size, price)
            &&& t.both_legs_filled <==> s.both_legs_filled || (t.held.up_shares > 0
                && t.held.dn_shares > 0)
            &&& t == LockView { held: t.held, both_legs_filled: t.both_legs_filled, ..s }
        }),
{
}

/// A window begins with nothing held and nothing bought. Only windows whose pair was
/// settled are counted; after thirty of them a leg has twenty shares more where
/// twenty-seven or more were complete, else twenty fewer but no fewer than twenty, and
/// the count begins anew.
pub proof fn batches_set_the_size(s: LockView, window_start_ts: i64)
    requires
        s.wf(),
        s.shares_per_leg <= i128::MAX - 20_000_000,
    ensures
        ({
            let t = s.in_window(window_start_ts);
            let counts = s.last_window_ts > 0 && s.pair_done;
            let n = s.window_results.len();
            let full = counts && n == 29;
            let good = successes(s.window_results) + if s.both_legs_filled {
                1nat
            } else {
                0nat
            };
            &&& t.held.up_shares == 0 && t.held.dn_shares == 0 && t.held.up_cost == 0 && t.held.dn_cost
                == 0
            &&& !t.pair_done && t.exp_fill_price == 0 && !t.watching_for_flip && !t.both_legs_filled
                && !t.cheap_gtc_posted && t.cheap_side is None
            &&& t.last_window_ts == window_start_ts
            &&& !counts ==> t.window_results == s.window_results && t.shares_per_leg
                == s.shares_per_leg
            &&& counts && !full ==> t.window_results == s.window_results.push(s.both_legs_filled)
                && t.shares_per_leg == s.shares_per_leg
            &&& full ==> t.window_results.len() == 0
            &&& full && good >= 27 ==> t.shares_per_leg == s.shares_per_leg + 20_000_000
            &&& full && good < 27 && s.shares_per_leg >= 40_000_000 ==> t.shares_per_leg
                == s.shares_per_leg - 20_000_000
            &&& full && good < 27 && s.shares_per_leg < 40_000_000 ==> t.shares_per_leg == 20_000_000
        }),
{
    let all = s.window_results.push(s.both_legs_filled);
    assert(all.drop_last() =~= s.window_results);
    assert(all.last() == s.both_legs_filled);
}

/// Complete windows are counted one by one.
pub proof fn successes_are_counted(results: Seq<bool>, last: bool)
    ensures
        successes(Seq::empty()) == 0,
        successes(results.push(true)) == successes(results) + 1,
        successes(results.push(false)) == successes(results),
{
    assert(results.push(true).drop_last() =~= results);
    assert(results.push(false).drop_last() =~= results);
}

/// A window is new where its start is a time and not that of the last one; it
/// starts with nothing bought, bid for or held. The bot starts at twenty shares.
pub proof fn windows_start_afresh(s: LockView, window_start_ts: i64)
    ensures
        window_start_ts <= 0 ==> !s.is_new_window(window_start_ts),
        window_start_ts > 0 ==> (s.is_new_window(window_start_ts) <==> s.last_window_ts
            != window_start_ts),
        ({
            let w = s.in_window(window_start_ts);
            &&& w.last_window_ts == window_start_ts
            &&& !w.pair_done && !w.cheap_gtc_posted && !w.watching_for_flip && !w.both_legs_filled
            &&& w.exp_fill_price == 0 && w.exp_fill_shares == 0
            &&& w.cheap_side is None && w.cheap_token_id.len() == 0
            &&& w.held.up_shares == 0 && w.held.dn_shares == 0 && w.held.up_cost == 0
                && w.held.dn_cost == 0
        }),
        LockView::initial().shares_per_leg == 20_000_000,
        LockView::initial().window_results.len() == 0,
{
}

} // verus!
