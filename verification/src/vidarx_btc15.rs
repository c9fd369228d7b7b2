//! The flash-ladder accumulator for fifteen-minute windows.
//!
//! Bids rest below both sides of the book for a moment, are cancelled and posted
//! again, until both sides are held in equal measure. Nothing is sold.

use vstd::prelude::*;

use crate::clock::{elapsed, elapsed_s};
use crate::feeds::user_ws::UserFillEvent;
use crate::fixed::{amount_ok, div_round, magnitude, max, max_of, min, min_of, rounded};
use crate::inventory::{
    bought_side, side_bought, Inventory, LEAST_SHARES, SHARE_LIMIT,
};
use crate::ladder::{
    bid_total, ladder, ladder_commands, lemma_ladder_bids, lemma_total_of_sum,
    post_ladder, resting_bid, rungs, RepairCap, Rung, MIN_ORDER,
};
use crate::random::draw;
use crate::text::same;
use crate::types_v2::{
    cancel_all, command_views, opposite, CommandView, ExecutionCommand, ExecutionEvent,
    ExecutionEventView, MarketDescriptor, MarketView, PolymarketTop, Side,
};

verus! {

/// The most shares held on a side: two hundred.
pub const MAX_SHARES_PER_SIDE: i128 = 200_000_000;

/// A side with so many shares counts as full.
pub const PRACTICAL_FULL: i128 = 198_000_000;

/// A fill that brings a side to so many shares may end the window.
pub const FILL_FULL: i128 = 196_000_000;

/// How far below the bid a ladder starts, in cents.
pub const BASE_OFFSET: u32 = 3;

/// A book imbalance beyond this cancels the resting bids.
pub const OBI_SPIKE: i128 = 550_000;

/// The target for the cost of a pair, by the share of the missing side that is
/// held already: the more is missing, the more a pair may cost. Given in shares
/// of the missing side and of the full side.
pub open spec fn pair_cost_target(have: int, full: int) -> int {
    if 100 * have >= 85 * full {
        970_000
    } else if 100 * have >= 70 * full {
        990_000
    } else if 100 * have >= 50 * full {
        1_000_000
    } else {
        1_020_000
    }
}

/// The target for the cost of a pair while repairing an imbalance.
pub fn repair_pair_cost_target(have: i128, full: i128) -> (r: i128)
    requires
        -2 * SHARE_LIMIT <= have <= 2 * SHARE_LIMIT,
        -2 * SHARE_LIMIT <= full <= 2 * SHARE_LIMIT,
    ensures
        r == pair_cost_target(have as int, full as int),
{
    if 100 * have >= 85 * full {
        970_000
    } else if 100 * have >= 70 * full {
        990_000
    } else if 100 * have >= 50 * full {
        1_000_000
    } else {
        1_020_000
    }
}

/// The better the sides match, the lower the target.
pub proof fn target_falls_with_match(have: int, more: int, full: int)
    requires
        have <= more,
    ensures
        pair_cost_target(more, full) <= pair_cost_target(have, full),
        970_000 <= pair_cost_target(have, full) <= 1_020_000,
{
}

/// The state of the accumulator in a window.
#[derive(Debug, Clone, Copy)]
pub struct FlashLadder {
    pub last_window_ts: i64,
    pub pair_done: bool,
    pub held: Inventory,
    pub matching_gtc_posted: bool,
    /// Reversible: on where the weak side falls behind, off where it caught up.
    pub repair_mode: bool,
    /// One way: on once a side is full, or late with the sides unequal.
    pub phase2_mode: bool,
    pub latest_obi: i128,
    pub window_skip: bool,
    pub cancel_delay_ms: i64,
    pub next_post_interval_ms: i64,
    pub last_cancel_ts: i64,
    pub last_post_ts: i64,
    pub orders_live: bool,
}

/// The numbers that a tick may draw.
#[derive(Debug, Clone, Copy)]
pub struct Draws {
    /// Milliseconds until the next post, after a cancel for a spike.
    pub spike_interval_ms: u32,
    /// Milliseconds until the next post, after a cancel at the end of a life.
    pub flash_interval_ms: u32,
    /// Sizes in shares, by level.
    pub up_sizes: [u32; 3],
    pub dn_sizes: [u32; 3],
    pub need_sizes: [u32; 3],
    /// Milliseconds that the posted bids live.
    pub cancel_delay_ms: u32,
}

/// Prices of both sides.
#[derive(Debug, Clone, Copy)]
pub struct Quotes {
    pub up_bid: i64,
    pub up_ask: i64,
    pub dn_bid: i64,
    pub dn_ask: i64,
}

impl Quotes {
    pub open spec fn wf(self) -> bool {
        &&& amount_ok(self.up_bid as int)
        &&& amount_ok(self.up_ask as int)
        &&& amount_ok(self.dn_bid as int)
        &&& amount_ok(self.dn_ask as int)
    }

    pub open spec fn bid(self, side: Side) -> i64 {
        match side {
            Side::Up => self.up_bid,
            Side::Down => self.dn_bid,
        }
    }

    pub open spec fn ask(self, side: Side) -> i64 {
        match side {
            Side::Up => self.up_ask,
            Side::Down => self.dn_ask,
        }
    }
}

/// The prices of both sides, where all four are known.
pub open spec fn quotes_of(top: PolymarketTop) -> Option<Quotes> {
    match (top.up_bid, top.up_ask, top.down_bid, top.down_ask) {
        (Some(up_bid), Some(up_ask), Some(dn_bid), Some(dn_ask)) => Some(
            Quotes { up_bid, up_ask, dn_bid, dn_ask },
        ),
        _ => None,
    }
}

/// The prices of both sides, where all four are known.
pub fn read_quotes(top: &PolymarketTop) -> (r: Option<Quotes>)
    ensures
        r == quotes_of(*top),
{
    match (top.up_bid, top.up_ask, top.down_bid, top.down_ask) {
        (Some(up_bid), Some(up_ask), Some(dn_bid), Some(dn_ask)) => Some(
            Quotes { up_bid, up_ask, dn_bid, dn_ask },
        ),
        _ => None,
    }
}

/// The mid of a side, unknown prices counting as zero, and how far it is from a
/// price.
pub open spec fn markout_of(top: PolymarketTop, side: Side, price: int) -> (int, int) {
    let (bid, ask) = match side {
        Side::Up => (top.up_bid, top.up_ask),
        Side::Down => (top.down_bid, top.down_ask),
    };
    let b = if bid is Some {
        bid->0 as int
    } else {
        0
    };
    let a = if ask is Some {
        ask->0 as int
    } else {
        0
    };
    (rounded(b + a, 2), rounded(b + a, 2) - price)
}

/// What a fill looks like some time later: the mid of its side, and how far that
/// is from the fill's price.
pub fn markout(top: &PolymarketTop, side: Side, price: i64) -> (r: (i128, i128))
    ensures
        r.0 == markout_of(*top, side, price as int).0,
        r.1 == markout_of(*top, side, price as int).1,
{
    let (bid, ask): (Option<i64>, Option<i64>) = match side {
        Side::Up => (top.up_bid, top.up_ask),
        Side::Down => (top.down_bid, top.down_ask),
    };
    let b: i128 = match bid {
        Some(x) => x as i128,
        None => 0,
    };
    let a: i128 = match ask {
        Some(x) => x as i128,
        None => 0,
    };
    proof {
        crate::fixed::lemma_quotient_bounds(b + a, 2);
    }
    let mid: i128 = div_round(b + a, 2);
    (mid, mid - price as i128)
}

/// A state and the commands that led to it.
pub ghost struct Step {
    pub state: FlashLadder,
    pub commands: Seq<CommandView>,
}

/// A state with nothing sent.
pub open spec fn quiet(state: FlashLadder) -> Step {
    Step { state, commands: Seq::empty() }
}

/// A command to cancel every order.
pub open spec fn cancelling(reason: Seq<char>) -> CommandView {
    CommandView::CancelAll { reason }
}

/// Whether the weak side is within five per cent of the full side.
pub open spec fn matched(have: int, full: int) -> bool {
    100 * have >= 95 * full
}

/// The offsets of both ladders. While repairing, the side that is ahead stands
/// back five cents and the other one cent. Otherwise both stand back three cents,
/// but late in the window the side behind takes one cent.
pub open spec fn offsets(repair: bool, up_ahead: bool, elapsed: int) -> (u32, u32) {
    let ahead: u32 = if repair {
        5
    } else {
        BASE_OFFSET
    };
    let behind: u32 = if repair || elapsed >= 630 {
        1
    } else {
        BASE_OFFSET
    };
    if up_ahead {
        (ahead, behind)
    } else {
        (behind, ahead)
    }
}

/// Repair mode after a look at the shares.
pub open spec fn repair_after(repair: bool, full: int, weak: int) -> bool {
    if repair {
        !matched(weak, full)
    } else {
        full >= MIN_ORDER && 100 * weak < 60 * full
    }
}

/// Whether the second phase is due: a side is full, or it is late and the sides
/// are unequal.
pub open spec fn phase2_due(held: Inventory, elapsed: int) -> bool {
    let full = held.full();
    ||| full >= PRACTICAL_FULL
    ||| elapsed >= 630 && full >= MIN_ORDER && 100 * held.weak() < 95 * max_of(
        full,
        LEAST_SHARES as int,
    )
}

/// What a side still lacks of its two hundred shares.
pub open spec fn needs(shares: int) -> int {
    max_of(MAX_SHARES_PER_SIDE - shares, 0)
}

impl FlashLadder {
    pub open spec fn wf(self) -> bool {
        self.held.wf()
    }

    /// The state in which the bot starts.
    pub open spec fn initial() -> FlashLadder {
        FlashLadder {
            last_window_ts: 0,
            pair_done: false,
            held: Inventory::none(),
            matching_gtc_posted: false,
            repair_mode: false,
            phase2_mode: false,
            latest_obi: 0,
            window_skip: false,
            cancel_delay_ms: 2000,
            next_post_interval_ms: 0,
            last_cancel_ts: 0,
            last_post_ts: 0,
            orders_live: false,
        }
    }

    /// Whether a market opens a window that is not this one.
    pub open spec fn is_new_window(self, window_start_ts: i64) -> bool {
        window_start_ts > 0 && window_start_ts != self.last_window_ts
    }

    /// The state at the start of a window: nothing held, nothing posted. A roll
    /// of up to twenty-five skips the window.
    pub open spec fn in_window(self, window_start_ts: i64, interval_ms: u32, roll: u32) -> FlashLadder {
        FlashLadder {
            last_window_ts: window_start_ts,
            next_post_interval_ms: interval_ms as i64,
            window_skip: roll <= 25,
            latest_obi: self.latest_obi,
            cancel_delay_ms: self.cancel_delay_ms,
            ..FlashLadder::initial()
        }
    }

    /// Whether a fill ends the window: a side is full, and the other within five
    /// per cent of it.
    pub open spec fn completes(self) -> bool {
        !self.pair_done && self.held.full() >= FILL_FULL && matched(
            self.held.weak(),
            self.held.full(),
        )
    }

    /// The state after a fill of a side.
    pub open spec fn filled(self, side: Side, size: i64, price: i64) -> Step {
        let s = FlashLadder { held: self.held.with(side, size, price), ..self };
        if s.completes() {
            Step {
                state: FlashLadder { pair_done: true, ..s },
                commands: seq![cancelling("matched_pair_done"@)],
            }
        } else {
            quiet(s)
        }
    }

    /// Cancels the bids on a spike of the imbalance.
    pub open spec fn spiked(self, now_ms: i64, interval_ms: u32) -> Step {
        if self.orders_live && magnitude(self.latest_obi as int) > OBI_SPIKE {
            Step {
                state: FlashLadder {
                    orders_live: false,
                    last_cancel_ts: now_ms,
                    next_post_interval_ms: interval_ms as i64,
                    ..self
                },
                commands: seq![cancelling("obi_spike"@)],
            }
        } else {
            quiet(self)
        }
    }

    /// Cancels the bids at the end of their life.
    pub open spec fn flashed(self, now_ms: i64, interval_ms: u32) -> Step {
        if self.orders_live && now_ms - self.last_post_ts >= self.cancel_delay_ms {
            Step {
                state: FlashLadder {
                    orders_live: false,
                    last_cancel_ts: now_ms,
                    next_post_interval_ms: interval_ms as i64,
                    ..self
                },
                commands: seq![cancelling("flash_cancel"@)],
            }
        } else {
            quiet(self)
        }
    }

    /// Repair mode switched on or off.
    pub open spec fn weighed(self) -> FlashLadder {
        FlashLadder {
            repair_mode: repair_after(self.repair_mode, self.held.full(), self.held.weak()),
            ..self
        }
    }

    /// The second phase entered, where it is due.
    pub open spec fn latched(self, now_ms: i64, elapsed: int) -> Step {
        if !self.phase2_mode && phase2_due(self.held, elapsed) {
            Step {
                state: FlashLadder {
                    phase2_mode: true,
                    orders_live: false,
                    last_cancel_ts: now_ms,
                    ..self
                },
                commands: seq![cancelling("phase2_start"@)],
            }
        } else {
            quiet(self)
        }
    }

    /// Whether bids may be posted: none rest, and the pause is over.
    pub open spec fn may_post(self, now_ms: i64) -> bool {
        !self.orders_live && now_ms - self.last_cancel_ts >= self.next_post_interval_ms
    }

    /// The state once bids were posted, if any were.
    pub open spec fn posted(self, now_ms: i64, delay_ms: u32, commands: Seq<CommandView>) -> Step {
        if commands.len() > 0 {
            Step {
                state: FlashLadder {
                    orders_live: true,
                    last_post_ts: now_ms,
                    cancel_delay_ms: delay_ms as i64,
                    ..self
                },
                commands,
            }
        } else {
            quiet(self)
        }
    }

    /// The bids of one side in the first phase.
    pub open spec fn side_bids(self, m: MarketView, q: Quotes, side: Side, offset: u32, sizes: Seq<u32>) -> Seq<
        CommandView,
    > {
        ladder_commands(
            m,
            side,
            match side {
                Side::Up => "up:"@,
                Side::Down => "dn:"@,
            },
            rungs(
                q.bid(side) as int,
                q.ask(side) as int,
                None,
                offset as int,
                sizes,
                0,
                needs(self.held.shares(side) as int),
            ),
            Some(q.ask(side) < q.ask(opposite(side))),
        )
    }

    /// The first phase: ladders on both sides.
    pub open spec fn both_sides(self, now_ms: i64, elapsed: int, m: MarketView, q: Quotes, d: Draws) -> Step {
        if self.may_post(now_ms) {
            let (up_offset, dn_offset) = offsets(
                self.repair_mode,
                self.held.up_shares >= self.held.dn_shares,
                elapsed,
            );
            self.posted(
                now_ms,
                d.cancel_delay_ms,
                self.side_bids(m, q, Side::Up, up_offset, d.up_sizes@) + self.side_bids(
                    m,
                    q,
                    Side::Down,
                    dn_offset,
                    d.dn_sizes@,
                ),
            )
        } else {
            quiet(self)
        }
    }

    /// The side that is ahead; Up where both are equal.
    pub open spec fn ahead(self) -> Side {
        if self.held.up_shares >= self.held.dn_shares {
            Side::Up
        } else {
            Side::Down
        }
    }

    /// What a repairing bid may pay.
    pub open spec fn repair_cap(self) -> RepairCap {
        let full = max_of(self.held.full(), LEAST_SHARES as int);
        RepairCap {
            target: pair_cost_target(self.held.weak(), full) as i128,
            cost: match self.ahead() {
                Side::Up => self.held.up_cost,
                Side::Down => self.held.dn_cost,
            },
            shares: full as i128,
        }
    }

    /// The bids of the second phase: on the side behind only, one cent below its
    /// bid and less, for what it lacks.
    pub open spec fn repair_bids(self, m: MarketView, q: Quotes, d: Draws) -> Seq<CommandView> {
        let side = opposite(self.ahead());
        ladder_commands(
            m,
            side,
            match side {
                Side::Up => "p2_up:"@,
                Side::Down => "p2_dn:"@,
            },
            rungs(
                q.bid(side) as int,
                q.ask(side) as int,
                Some(self.repair_cap()),
                1,
                d.need_sizes@,
                0,
                min_of(self.held.full() - self.held.weak(), MAX_SHARES_PER_SIDE - self.held.weak()),
            ),
            None,
        )
    }

    /// The second phase: done where the sides match or lack less than the
    /// smallest order, else bids on the side behind.
    pub open spec fn one_side(self, now_ms: i64, m: MarketView, q: Quotes, d: Draws) -> Step {
        if matched(self.held.weak(), self.held.full()) {
            Step {
                state: FlashLadder { pair_done: true, ..self },
                commands: seq![cancelling("matched_within_tolerance"@)],
            }
        } else if self.held.full() - self.held.weak() < MIN_ORDER {
            Step {
                state: FlashLadder { pair_done: true, ..self },
                commands: seq![cancelling("close_enough_sub5"@)],
            }
        } else if self.may_post(now_ms) {
            self.posted(now_ms, d.cancel_delay_ms, self.repair_bids(m, q, d))
        } else {
            quiet(self)
        }
    }

    /// A tick in an open window with all prices known: cancels, then the modes,
    /// then new bids, unless the window is skipped.
    pub open spec fn quoted(self, now_ms: i64, elapsed: int, m: MarketView, q: Quotes, d: Draws) -> Step {
        let a = self.spiked(now_ms, d.spike_interval_ms);
        let b = a.state.flashed(now_ms, d.flash_interval_ms);
        let c = b.state.weighed().latched(now_ms, elapsed);
        let s = c.state;
        let last = if s.window_skip {
            quiet(s)
        } else if s.phase2_mode {
            s.one_side(now_ms, m, q, d)
        } else {
            s.both_sides(now_ms, elapsed, m, q, d)
        };
        Step {
            state: last.state,
            commands: a.commands + b.commands + c.commands + last.commands,
        }
    }

    /// A tick. From the last eighth of the window on, a weak side of eighty-five
    /// per cent is accepted; the window closes after fourteen minutes.
    pub open spec fn ticked(self, now_ms: i64, m: MarketView, top: PolymarketTop, d: Draws) -> Step {
        let e = elapsed(now_ms as int, m.window_start_ts as int);
        if self.pair_done || m.up_token_id.len() == 0 || e < -60 {
            quiet(self)
        } else if e >= 735 && self.held.full() > 0 && 100 * self.held.weak() >= 85
            * self.held.full() {
            Step {
                state: FlashLadder { pair_done: true, ..self },
                commands: seq![cancelling("late_accept"@)],
            }
        } else if e >= 840 {
            quiet(FlashLadder { pair_done: true, ..self })
        } else {
            match quotes_of(top) {
                None => quiet(self),
                Some(q) => self.quoted(now_ms, e, m, q, d),
            }
        }
    }
}

impl FlashLadder {
    /// The state in which the bot starts.
    pub fn new() -> (r: FlashLadder)
        ensures
            r == FlashLadder::initial(),
            r.wf(),
    {
        FlashLadder {
            last_window_ts: 0,
            pair_done: false,
            held: Inventory::new(),
            matching_gtc_posted: false,
            repair_mode: false,
            phase2_mode: false,
            latest_obi: 0,
            window_skip: false,
            cancel_delay_ms: 2000,
            next_post_interval_ms: 0,
            last_cancel_ts: 0,
            last_post_ts: 0,
            orders_live: false,
        }
    }

    /// Enters a window with the numbers drawn for it.
    pub fn enter_window(&mut self, window_start_ts: i64, interval_ms: u32, roll: u32) -> (r: Vec<
        ExecutionCommand,
    >)
        ensures
            old(self).is_new_window(window_start_ts) ==> *final(self) == old(self).in_window(
                window_start_ts,
                interval_ms,
                roll,
            ) && command_views(r@) == seq![cancelling("new_window"@)],
            !old(self).is_new_window(window_start_ts) ==> *final(self) == *old(self) && r@.len()
                == 0,
            old(self).wf() ==> final(self).wf(),
    {
        let mut out: Vec<ExecutionCommand> = Vec::new();
        if window_start_ts > 0 && window_start_ts != self.last_window_ts {
            let fresh: FlashLadder = FlashLadder::new();
            *self = FlashLadder {
                last_window_ts: window_start_ts,
                next_post_interval_ms: interval_ms as i64,
                window_skip: roll <= 25,
                latest_obi: self.latest_obi,
                cancel_delay_ms: self.cancel_delay_ms,
                ..fresh
            };
            out.push(cancel_all("new_window"));
            assert(command_views(out@) =~= seq![cancelling("new_window"@)]);
        }
        out
    }

    /// Enters a window where the market opened a new one. The pause before the
    /// first post and the roll that may skip the window are drawn.
    pub fn on_market(&mut self, window_start_ts: i64) -> (r: Vec<ExecutionCommand>)
        ensures
            old(self).is_new_window(window_start_ts) ==> exists|interval_ms: u32, roll: u32|
                500 <= interval_ms <= 2000 && 1 <= roll <= 100 && *final(self)
                    == #[trigger] old(self).in_window(window_start_ts, interval_ms, roll),
            old(self).is_new_window(window_start_ts) ==> command_views(r@) == seq![
                cancelling("new_window"@),
            ],
            !old(self).is_new_window(window_start_ts) ==> *final(self) == *old(self) && r@.len()
                == 0,
            old(self).wf() ==> final(self).wf(),
    {
        let interval_ms: u32 = draw(500, 2000);
        let roll: u32 = draw(1, 100);
        self.enter_window(window_start_ts, interval_ms, roll)
    }

    /// Stores the latest imbalance.
    pub fn on_signal(&mut self, obi_ema: i128)
        ensures
            *final(self) == (FlashLadder { latest_obi: obi_ema, ..*old(self) }),
    {
        self.latest_obi = obi_ema;
    }

    /// Notes that the matching order rests.
    pub fn on_event(&mut self, event: &ExecutionEvent)
        ensures
            *final(self) == (FlashLadder {
                matching_gtc_posted: old(self).matching_gtc_posted || match event@ {
                    ExecutionEventView::MakerOrderPosted { ladder_key, .. } => ladder_key
                        == "matching_gtc"@,
                    _ => false,
                },
                ..*old(self)
            }),
    {
        match event {
            ExecutionEvent::MakerOrderPosted { ladder_key, .. } => {
                if same(ladder_key.as_str(), "matching_gtc") {
                    self.matching_gtc_posted = true;
                }
            },
            _ => {},
        }
    }

    /// Adds a fill of one of the market's tokens; others are passed over. Says
    /// which side it added to.
    pub fn on_fill(&mut self, fill: &UserFillEvent, market: &MarketDescriptor) -> (r: (
        Option<Side>,
        Vec<ExecutionCommand>,
    ))
        requires
            old(self).wf(),
            bought_side(fill.asset_id@, fill.side@, market@) matches Some(side) ==> old(
                self,
            ).held.has_room(side, fill.size, fill.price),
        ensures
            r.0 == bought_side(fill.asset_id@, fill.side@, market@),
            match r.0 {
                Some(side) => {
                    let step = old(self).filled(side, fill.size, fill.price);
                    *final(self) == step.state && command_views(r.1@) == step.commands
                },
                None => *final(self) == *old(self) && r.1@.len() == 0,
            },
            final(self).wf(),
    {
        let mut out: Vec<ExecutionCommand> = Vec::new();
        let side: Option<Side> = side_bought(fill.asset_id.as_str(), fill.side.as_str(), market);
        if let Some(s) = side {
            self.held.record(s, fill.size, fill.price);
            let full: i128 = self.held.most();
            let weak: i128 = self.held.least();
            if !self.pair_done && full >= FILL_FULL && 100 * weak >= 95 * full {
                self.pair_done = true;
                out.push(cancel_all("matched_pair_done"));
                assert(command_views(out@) =~= seq![cancelling("matched_pair_done"@)]);
            } else {
                assert(command_views(out@) =~= Seq::empty());
            }
        }
        (side, out)
    }

    fn step_spike(&mut self, now_ms: i64, interval_ms: u32, out: &mut Vec<ExecutionCommand>)
        requires
            old(self).wf(),
        ensures
            *final(self) == old(self).spiked(now_ms, interval_ms).state,
            command_views(final(out)@) == command_views(old(out)@) + old(self).spiked(
                now_ms,
                interval_ms,
            ).commands,
    {
        if self.orders_live && (self.latest_obi > OBI_SPIKE || self.latest_obi < -OBI_SPIKE) {
            out.push(cancel_all("obi_spike"));
            self.orders_live = false;
            self.last_cancel_ts = now_ms;
            self.next_post_interval_ms = interval_ms as i64;
        }
        assert(command_views(out@) =~= command_views(old(out)@) + old(self).spiked(
            now_ms,
            interval_ms,
        ).commands);
    }

    fn step_flash(&mut self, now_ms: i64, interval_ms: u32, out: &mut Vec<ExecutionCommand>)
        ensures
            *final(self) == old(self).flashed(now_ms, interval_ms).state,
            command_views(final(out)@) == command_views(old(out)@) + old(self).flashed(
                now_ms,
                interval_ms,
            ).commands,
    {
        if self.orders_live && now_ms as i128 - self.last_post_ts as i128
            >= self.cancel_delay_ms as i128 {
            out.push(cancel_all("flash_cancel"));
            self.orders_live = false;
            self.last_cancel_ts = now_ms;
            self.next_post_interval_ms = interval_ms as i64;
        }
        assert(command_views(out@) =~= command_views(old(out)@) + old(self).flashed(
            now_ms,
            interval_ms,
        ).commands);
    }

    fn step_repair(&mut self)
        requires
            old(self).wf(),
        ensures
            *final(self) == old(self).weighed(),
    {
        let full: i128 = self.held.most();
        let weak: i128 = self.held.least();
        if !self.repair_mode {
            if full >= MIN_ORDER && 100 * weak < 60 * full {
                self.repair_mode = true;
            }
        } else if 100 * weak >= 95 * full {
            self.repair_mode = false;
        }
    }

    fn step_latch(&mut self, now_ms: i64, elapsed: i128, out: &mut Vec<ExecutionCommand>)
        requires
            old(self).wf(),
        ensures
            *final(self) == old(self).latched(now_ms, elapsed as int).state,
            command_views(final(out)@) == command_views(old(out)@) + old(self).latched(
                now_ms,
                elapsed as int,
            ).commands,
    {
        if !self.phase2_mode {
            let full: i128 = self.held.most();
            let weak: i128 = self.held.least();
            let capped: bool = self.held.up_shares >= PRACTICAL_FULL || self.held.dn_shares
                >= PRACTICAL_FULL;
            let emergency: bool = elapsed >= 630 && full >= MIN_ORDER && 100 * weak < 95 * max(
                full,
                LEAST_SHARES,
            );
            if capped || emergency {
                self.phase2_mode = true;
                out.push(cancel_all("phase2_start"));
                self.orders_live = false;
                self.last_cancel_ts = now_ms;
            }
        }
        assert(command_views(out@) =~= command_views(old(out)@) + old(self).latched(
            now_ms,
            elapsed as int,
        ).commands);
    }

    fn ready_to_post(&self, now_ms: i64) -> (r: bool)
        ensures
            r == self.may_post(now_ms),
    {
        !self.orders_live && now_ms as i128 - self.last_cancel_ts as i128
            >= self.next_post_interval_ms as i128
    }

    fn step_both_sides(
        &mut self,
        now_ms: i64,
        elapsed: i128,
        market: &MarketDescriptor,
        q: &Quotes,
        d: &Draws,
        out: &mut Vec<ExecutionCommand>,
    )
        requires
            old(self).wf(),
            q.wf(),
        ensures
            *final(self) == old(self).both_sides(now_ms, elapsed as int, market@, *q, *d).state,
            command_views(final(out)@) == command_views(old(out)@) + old(self).both_sides(
                now_ms,
                elapsed as int,
                market@,
                *q,
                *d,
            ).commands,
    {
        let ghost before = command_views(out@);
        if self.ready_to_post(now_ms) {
            let up_ahead: bool = self.held.up_shares >= self.held.dn_shares;
            let ahead: u32 = if self.repair_mode {
                5
            } else {
                BASE_OFFSET
            };
            let behind: u32 = if self.repair_mode || elapsed >= 630 {
                1
            } else {
                BASE_OFFSET
            };
            let (up_offset, dn_offset): (u32, u32) = if up_ahead {
                (ahead, behind)
            } else {
                (behind, ahead)
            };
            let up: Vec<Rung> = ladder(
                q.up_bid,
                q.up_ask,
                None,
                up_offset,
                &d.up_sizes,
                max(MAX_SHARES_PER_SIDE - self.held.up_shares, 0),
            );
            post_ladder(market, Side::Up, "up:", &up, Some(q.up_ask < q.dn_ask), out);
            let dn: Vec<Rung> = ladder(
                q.dn_bid,
                q.dn_ask,
                None,
                dn_offset,
                &d.dn_sizes,
                max(MAX_SHARES_PER_SIDE - self.held.dn_shares, 0),
            );
            post_ladder(market, Side::Down, "dn:", &dn, Some(q.dn_ask < q.up_ask), out);
            if up.len() > 0 || dn.len() > 0 {
                self.orders_live = true;
                self.last_post_ts = now_ms;
                self.cancel_delay_ms = d.cancel_delay_ms as i64;
            }
        }
        assert(command_views(out@) =~= before + old(self).both_sides(
            now_ms,
            elapsed as int,
            market@,
            *q,
            *d,
        ).commands);
    }

    fn step_one_side(
        &mut self,
        now_ms: i64,
        market: &MarketDescriptor,
        q: &Quotes,
        d: &Draws,
        out: &mut Vec<ExecutionCommand>,
    )
        requires
            old(self).wf(),
            q.wf(),
        ensures
            *final(self) == old(self).one_side(now_ms, market@, *q, *d).state,
            command_views(final(out)@) == command_views(old(out)@) + old(self).one_side(
                now_ms,
                market@,
                *q,
                *d,
            ).commands,
    {
        let ghost before = command_views(out@);
        let full: i128 = self.held.most();
        let weak: i128 = self.held.least();
        if 100 * weak >= 95 * full {
            self.pair_done = true;
            out.push(cancel_all("matched_within_tolerance"));
        } else if full - weak < MIN_ORDER {
            self.pair_done = true;
            out.push(cancel_all("close_enough_sub5"));
        } else if self.ready_to_post(now_ms) {
            let base: i128 = max(full, LEAST_SHARES);
            let up_ahead: bool = self.held.up_shares >= self.held.dn_shares;
            let cap: RepairCap = RepairCap {
                target: repair_pair_cost_target(weak, base),
                cost: if up_ahead {
                    self.held.up_cost
                } else {
                    self.held.dn_cost
                },
                shares: base,
            };
            let wanted: i128 = min(full - weak, MAX_SHARES_PER_SIDE - weak);
            let side: Side = if up_ahead {
                Side::Down
            } else {
                Side::Up
            };
            let all: Vec<Rung> = if up_ahead {
                ladder(q.dn_bid, q.dn_ask, Some(cap), 1, &d.need_sizes, wanted)
            } else {
                ladder(q.up_bid, q.up_ask, Some(cap), 1, &d.need_sizes, wanted)
            };
            let prefix: &str = if up_ahead {
                "p2_dn:"
            } else {
                "p2_up:"
            };
            assert(cap == self.repair_cap());
            post_ladder(market, side, prefix, &all, None, out);
            if all.len() > 0 {
                self.orders_live = true;
                self.last_post_ts = now_ms;
                self.cancel_delay_ms = d.cancel_delay_ms as i64;
            }
        }
        assert(command_views(out@) =~= before + old(self).one_side(
            now_ms,
            market@,
            *q,
            *d,
        ).commands);
    }

    /// A tick, with the numbers that it may draw.
    pub fn tick(
        &mut self,
        now_ms: i64,
        market: &MarketDescriptor,
        top: &PolymarketTop,
        d: &Draws,
    ) -> (r: Vec<ExecutionCommand>)
        requires
            old(self).wf(),
            top.wf(),
        ensures
            *final(self) == old(self).ticked(now_ms, market@, *top, *d).state,
            command_views(r@) == old(self).ticked(now_ms, market@, *top, *d).commands,
            final(self).wf(),
    {
        let mut out: Vec<ExecutionCommand> = Vec::new();
        assert(command_views(out@) =~= Seq::empty());
        if self.pair_done || market.up_token_id.as_str().is_empty() {
            return out;
        }
        let e: i128 = elapsed_s(now_ms, market.window_start_ts);
        if e < -60 {
            return out;
        }
        let full: i128 = self.held.most();
        let weak: i128 = self.held.least();
        if e >= 735 && full > 0 && 100 * weak >= 85 * full {
            self.pair_done = true;
            out.push(cancel_all("late_accept"));
            assert(command_views(out@) =~= seq![cancelling("late_accept"@)]);
            return out;
        }
        if e >= 840 {
            self.pair_done = true;
            return out;
        }
        let q: Quotes = match read_quotes(top) {
            None => {
                return out;
            },
            Some(q) => q,
        };
        self.step_spike(now_ms, d.spike_interval_ms, &mut out);
        self.step_flash(now_ms, d.flash_interval_ms, &mut out);
        self.step_repair();
        self.step_latch(now_ms, e, &mut out);
        if !self.window_skip {
            if self.phase2_mode {
                self.step_one_side(now_ms, market, &q, d, &mut out);
            } else {
                self.step_both_sides(now_ms, e, market, &q, d, &mut out);
            }
        }
        assert(command_views(out@) =~= old(self).ticked(now_ms, market@, *top, *d).commands);
        out
    }

    /// A tick.
    pub fn on_tick(&mut self, now_ms: i64, market: &MarketDescriptor, top: &PolymarketTop) -> (r: Vec<
        ExecutionCommand,
    >)
        requires
            old(self).wf(),
            top.wf(),
        ensures
            exists|d: Draws|
                draws_in_range(d) && *final(self) == (#[trigger] old(self).ticked(
                    now_ms,
                    market@,
                    *top,
                    d,
                )).state && command_views(r@) == old(self).ticked(now_ms, market@, *top, d).commands,
            final(self).wf(),
    {
        let d: Draws = draw_all();
        self.tick(now_ms, market, top, &d)
    }
}

/// Three sizes of five to eight shares.
pub open spec fn sizes_in_range(sizes: [u32; 3]) -> bool {
    forall|i: int| 0 <= i < 3 ==> 5 <= #[trigger] sizes@[i] <= 8
}

/// Every number is within the range that it is drawn from.
pub open spec fn draws_in_range(d: Draws) -> bool {
    &&& 500 <= d.spike_interval_ms <= 2000
    &&& 500 <= d.flash_interval_ms <= 2000
    &&& sizes_in_range(d.up_sizes)
    &&& sizes_in_range(d.dn_sizes)
    &&& sizes_in_range(d.need_sizes)
    &&& 500 <= d.cancel_delay_ms <= 2000
}

fn draw_sizes() -> (r: [u32; 3])
    ensures
        sizes_in_range(r),
{
    [draw(5, 8), draw(5, 8), draw(5, 8)]
}

/// Draws the numbers of a tick.
fn draw_all() -> (r: Draws)
    ensures
        draws_in_range(r),
{
    Draws {
        spike_interval_ms: draw(500, 2000),
        flash_interval_ms: draw(500, 2000),
        up_sizes: draw_sizes(),
        dn_sizes: draw_sizes(),
        need_sizes: draw_sizes(),
        cancel_delay_ms: draw(500, 2000),
    }
}

// ── Laws ────────────────────────────────────────────────────────

/// A finished window sends nothing more and stays as it is.
pub proof fn finished_window_is_quiet(
    s: FlashLadder,
    now_ms: i64,
    m: MarketView,
    top: PolymarketTop,
    d: Draws,
)
    requires
        s.pair_done,
    ensures
        s.ticked(now_ms, m, top, d) == quiet(s),
{
}

/// A tick leaves what is held alone. The second phase and the end of the window
/// are final: no tick and no fill takes them back.
pub proof fn phases_are_one_way(
    s: FlashLadder,
    now_ms: i64,
    m: MarketView,
    top: PolymarketTop,
    d: Draws,
    side: Side,
    size: i64,
    price: i64,
)
    ensures
        s.ticked(now_ms, m, top, d).state.held == s.held,
        s.phase2_mode ==> s.ticked(now_ms, m, top, d).state.phase2_mode,
        s.pair_done ==> s.ticked(now_ms, m, top, d).state.pair_done,
        s.phase2_mode ==> s.filled(side, size, price).state.phase2_mode,
        s.pair_done ==> s.filled(side, size, price).state.pair_done,
{
}

/// Repair mode has two thresholds: between sixty and ninety-five per cent it
/// stays as it is.
pub proof fn repair_mode_has_hysteresis(repair: bool, full: int, weak: int)
    requires
        full >= MIN_ORDER,
    ensures
        100 * weak < 60 * full ==> repair_after(repair, full, weak),
        100 * weak >= 95 * full ==> !repair_after(repair, full, weak),
        60 * full <= 100 * weak < 95 * full ==> repair_after(repair, full, weak) == repair,
{
}

/// Whether a command of a tick is a cancel, or a bid that rests in a side's book
/// below its ask.
pub open spec fn sound_command(c: CommandView, m: MarketView, q: Quotes) -> bool {
    c is CancelAll || resting_bid(c, m, Side::Up, q.up_ask as int) || resting_bid(
        c,
        m,
        Side::Down,
        q.dn_ask as int,
    )
}

proof fn lemma_side_bids(s: FlashLadder, m: MarketView, q: Quotes, side: Side, offset: u32, sizes: Seq<u32>)
    requires
        q.wf(),
    ensures
        forall|i: int|
            0 <= i < s.side_bids(m, q, side, offset, sizes).len() ==> resting_bid(
                #[trigger] s.side_bids(m, q, side, offset, sizes)[i],
                m,
                side,
                q.ask(side) as int,
            ),
        bid_total(s.side_bids(m, q, side, offset, sizes), side) <= needs(s.held.shares(side) as int),
        bid_total(s.side_bids(m, q, side, offset, sizes), opposite(side)) == 0,
{
    let prefix = match side {
        Side::Up => "up:"@,
        Side::Down => "dn:"@,
    };
    lemma_ladder_bids(
        m,
        side,
        prefix,
        q.bid(side) as int,
        q.ask(side) as int,
        None,
        offset as int,
        sizes,
        needs(s.held.shares(side) as int),
        Some(q.ask(side) < q.ask(opposite(side))),
    );
}

proof fn lemma_repair_bids(s: FlashLadder, m: MarketView, q: Quotes, d: Draws)
    requires
        q.wf(),
    ensures
        forall|i: int|
            0 <= i < s.repair_bids(m, q, d).len() ==> resting_bid(
                #[trigger] s.repair_bids(m, q, d)[i],
                m,
                opposite(s.ahead()),
                q.ask(opposite(s.ahead())) as int,
            ),
        bid_total(s.repair_bids(m, q, d), opposite(s.ahead())) <= needs(s.held.weak()),
        bid_total(s.repair_bids(m, q, d), s.ahead()) == 0,
{
    let side = opposite(s.ahead());
    let prefix = match side {
        Side::Up => "p2_up:"@,
        Side::Down => "p2_dn:"@,
    };
    lemma_ladder_bids(
        m,
        side,
        prefix,
        q.bid(side) as int,
        q.ask(side) as int,
        Some(s.repair_cap()),
        1,
        d.need_sizes@,
        min_of(s.held.full() - s.held.weak(), MAX_SHARES_PER_SIDE - s.held.weak()),
        None,
    );
}

/// The accumulator only cancels and bids: every bid is post-only, in whole cents
/// above one cent and below the ask of its own side, for at least five shares of
/// that side's token. It sells nothing and takes nothing.
pub proof fn ticks_only_cancel_and_bid(
    s: FlashLadder,
    now_ms: i64,
    m: MarketView,
    top: PolymarketTop,
    d: Draws,
)
    requires
        top.wf(),
    ensures
        ({
            let commands = s.ticked(now_ms, m, top, d).commands;
            forall|i: int|
                0 <= i < commands.len() ==> (#[trigger] commands[i]) is CancelAll || (quotes_of(
                    top,
                ) is Some && sound_command(commands[i], m, quotes_of(top)->0))
        }),
{
    if let Some(q) = quotes_of(top) {
        let e = elapsed(now_ms as int, m.window_start_ts as int);
        let a = s.spiked(now_ms, d.spike_interval_ms).state;
        let b = a.flashed(now_ms, d.flash_interval_ms).state;
        let c = b.weighed().latched(now_ms, e).state;
        let (up_offset, dn_offset) = offsets(
            c.repair_mode,
            c.held.up_shares >= c.held.dn_shares,
            e,
        );
        lemma_side_bids(c, m, q, Side::Up, up_offset, d.up_sizes@);
        lemma_side_bids(c, m, q, Side::Down, dn_offset, d.dn_sizes@);
        lemma_repair_bids(c, m, q, d);
    }
}

/// A tick never bids for more than a side lacks of two hundred shares.
pub proof fn ticks_respect_the_share_limit(
    s: FlashLadder,
    now_ms: i64,
    m: MarketView,
    top: PolymarketTop,
    d: Draws,
    side: Side,
)
    requires
        top.wf(),
    ensures
        bid_total(s.ticked(now_ms, m, top, d).commands, side) <= needs(s.held.shares(side) as int),
{
    let e = elapsed(now_ms as int, m.window_start_ts as int);
    let commands = s.ticked(now_ms, m, top, d).commands;
    let none = Seq::<CommandView>::empty();
    reveal_with_fuel(bid_total, 3);
    if s.pair_done || m.up_token_id.len() == 0 || e < -60 || (e >= 735 && s.held.full() > 0 && 100
        * s.held.weak() >= 85 * s.held.full()) || e >= 840 {
    } else if let Some(q) = quotes_of(top) {
        let a = s.spiked(now_ms, d.spike_interval_ms);
        let b = a.state.flashed(now_ms, d.flash_interval_ms);
        let c = b.state.weighed().latched(now_ms, e);
        let t = c.state;
        let (up_offset, dn_offset) = offsets(
            t.repair_mode,
            t.held.up_shares >= t.held.dn_shares,
            e,
        );
        let up = t.side_bids(m, q, Side::Up, up_offset, d.up_sizes@);
        let dn = t.side_bids(m, q, Side::Down, dn_offset, d.dn_sizes@);
        lemma_side_bids(t, m, q, Side::Up, up_offset, d.up_sizes@);
        lemma_side_bids(t, m, q, Side::Down, dn_offset, d.dn_sizes@);
        lemma_repair_bids(t, m, q, d);
        lemma_total_of_sum(up, dn, side);
        let last = if t.window_skip {
            quiet(t)
        } else if t.phase2_mode {
            t.one_side(now_ms, m, q, d)
        } else {
            t.both_sides(now_ms, e, m, q, d)
        };
        assert(bid_total(last.commands, side) <= needs(s.held.shares(side) as int));
        lemma_total_of_sum(a.commands, b.commands, side);
        lemma_total_of_sum(a.commands + b.commands, c.commands, side);
        lemma_total_of_sum(a.commands + b.commands + c.commands, last.commands, side);
    }
}

/// In the second phase only the side behind is bid for.
pub proof fn second_phase_bids_the_side_behind(
    s: FlashLadder,
    now_ms: i64,
    m: MarketView,
    top: PolymarketTop,
    d: Draws,
)
    requires
        top.wf(),
        s.phase2_mode,
    ensures
        ({
            let commands = s.ticked(now_ms, m, top, d).commands;
            forall|i: int|
                0 <= i < commands.len() ==> match #[trigger] commands[i] {
                    CommandView::PostMakerBid { side, .. } => side == opposite(s.ahead()),
                    _ => true,
                }
        }),
{
    if let Some(q) = quotes_of(top) {
        let e = elapsed(now_ms as int, m.window_start_ts as int);
        let a = s.spiked(now_ms, d.spike_interval_ms).state;
        let b = a.flashed(now_ms, d.flash_interval_ms).state;
        let c = b.weighed().latched(now_ms, e).state;
        lemma_repair_bids(c, m, q, d);
    }
}

/// Bids are posted only from a minute before the window to fourteen minutes into
/// it, with all four prices known, and never in a window that is skipped.
pub proof fn bids_keep_to_the_window(
    s: FlashLadder,
    now_ms: i64,
    m: MarketView,
    top: PolymarketTop,
    d: Draws,
    i: int,
)
    requires
        0 <= i < s.ticked(now_ms, m, top, d).commands.len(),
        s.ticked(now_ms, m, top, d).commands[i] is PostMakerBid,
    ensures
        -60 <= elapsed(now_ms as int, m.window_start_ts as int) < 840,
        quotes_of(top) is Some,
        !s.window_skip,
        !s.pair_done,
        m.up_token_id.len() > 0,
{
}

/// Outside of repair, and not late in the window, both ladders start three cents
/// below their bids; while repairing, the side ahead starts five cents below and
/// the other one cent.
pub proof fn ladders_start_below_the_bid(up_ahead: bool, elapsed: int)
    ensures
        elapsed < 630 ==> offsets(false, up_ahead, elapsed) == (3u32, 3u32),
        offsets(true, up_ahead, elapsed) == if up_ahead {
            (5u32, 1u32)
        } else {
            (1u32, 5u32)
        },
{
}

/// A new window starts from nothing: whatever went before, only the imbalance,
/// the length of the last bids' life and the draws tell two fresh windows apart.
pub proof fn windows_start_afresh(a: FlashLadder, b: FlashLadder, start: i64, interval_ms: u32, roll: u32)
    requires
        a.latest_obi == b.latest_obi,
        a.cancel_delay_ms == b.cancel_delay_ms,
    ensures
        a.in_window(start, interval_ms, roll) == b.in_window(start, interval_ms, roll),
        a.in_window(start, interval_ms, roll).held == Inventory::none(),
        !a.in_window(start, interval_ms, roll).is_new_window(start),
{
}

/// No second ladder rests beside a first: while bids are live, a tick that bids
/// has cancelled before; and after a tick that bids, bids are live.
pub proof fn ladders_do_not_overlap(
    s: FlashLadder,
    now_ms: i64,
    m: MarketView,
    top: PolymarketTop,
    d: Draws,
    i: int,
)
    requires
        0 <= i < s.ticked(now_ms, m, top, d).commands.len(),
        s.ticked(now_ms, m, top, d).commands[i] is PostMakerBid,
    ensures
        s.orders_live ==> s.ticked(now_ms, m, top, d).commands[0] is CancelAll,
        s.ticked(now_ms, m, top, d).state.orders_live,
        s.ticked(now_ms, m, top, d).state.last_post_ts == now_ms,
{
}

// ── What a tick does, case by case ──────────────────────────────

/// Whether a tick may trade: the window is not done, the market and all four prices are
/// known, and it is between a minute before the window and fourteen minutes into it, with
/// no late match to accept.
pub open spec fn is_trading(s: FlashLadder, now_ms: i64, m: MarketView, top: PolymarketTop) -> bool {
    let e = elapsed(now_ms as int, m.window_start_ts as int);
    let (full, weak) = if s.held.up_shares >= s.held.dn_shares {
        (s.held.up_shares, s.held.dn_shares)
    } else {
        (s.held.dn_shares, s.held.up_shares)
    };
    &&& !s.pair_done
    &&& m.up_token_id.len() > 0
    &&& -60 <= e < 840
    &&& !(e >= 735 && full > 0 && 100 * weak >= 85 * full)
    &&& top.up_bid is Some && top.up_ask is Some && top.down_bid is Some && top.down_ask is Some
}

/// Whether the second phase is due: a side has 198 shares, or it is ten and a half minutes
/// into the window and the side behind, of five shares or more ahead, has less than
/// ninety-five per cent.
pub open spec fn is_one_sided(held: Inventory, e: int) -> bool {
    let (full, weak) = if held.up_shares >= held.dn_shares {
        (held.up_shares, held.dn_shares)
    } else {
        (held.dn_shares, held.up_shares)
    };
    full >= 198_000_000 || (e >= 630 && full >= 5_000_000 && 100 * weak < 95 * full)
}

/// The phase that a window ends in: late in the window a side behind by fifteen per cent at
/// most is accepted and everything cancelled; after fourteen minutes the window is done.
pub proof fn windows_end_late(s: FlashLadder, now_ms: i64, m: MarketView, top: PolymarketTop, d: Draws)
    requires
        !s.pair_done,
        m.up_token_id.len() > 0,
    ensures
        ({
            let e = elapsed(now_ms as int, m.window_start_ts as int);
            let step = s.ticked(now_ms, m, top, d);
            let (full, weak) = if s.held.up_shares >= s.held.dn_shares {
                (s.held.up_shares, s.held.dn_shares)
            } else {
                (s.held.dn_shares, s.held.up_shares)
            };
            let near = e >= 735 && full > 0 && 100 * weak >= 85 * full;
            &&& near ==> step.commands == seq![CommandView::CancelAll { reason: "late_accept"@ }]
                && step.state == FlashLadder { pair_done: true, ..s }
            &&& !near && e >= 840 ==> step.commands.len() == 0 && step.state == FlashLadder {
                pair_done: true,
                ..s
            }
            &&& e < -60 ==> step.commands.len() == 0 && step.state == s
            &&& !near && e < 840 && (top.up_bid is None || top.up_ask is None || top.down_bid is None
                || top.down_ask is None) ==> step.commands.len() == 0 && step.state == s
        }),
{
    let step = s.ticked(now_ms, m, top, d);
    if step.commands.len() == 1 {
        assert(step.commands =~= seq![step.commands[0]]);
    }
}

/// Live bids in the first phase: they are cancelled on an imbalance beyond fifty-five
/// hundredths either way, or at the end of their life, and the pause that was drawn for
/// that begins; else they stay. None is posted beside them.
pub proof fn live_bids_are_cancelled_in_time(
    s: FlashLadder,
    now_ms: i64,
    m: MarketView,
    top: PolymarketTop,
    d: Draws,
)
    requires
        is_trading(s, now_ms, m, top),
        draws_in_range(d),
        s.orders_live,
        !s.phase2_mode,
        !is_one_sided(s.held, elapsed(now_ms as int, m.window_start_ts as int)),
    ensures
        ({
            let step = s.ticked(now_ms, m, top, d);
            let spike = s.latest_obi > 550_000 || s.latest_obi < -550_000;
            let over = now_ms - s.last_post_ts >= s.cancel_delay_ms;
            &&& step.state.held == s.held
            &&& !step.state.pair_done && !step.state.phase2_mode
            &&& !spike && !over ==> step.commands.len() == 0 && step.state.orders_live
                && step.state.last_cancel_ts == s.last_cancel_ts
            &&& spike || over ==> {
                &&& step.commands.len() == 1
                &&& step.commands[0] == CommandView::CancelAll {
                    reason: if spike {
                        "obi_spike"@
                    } else {
                        "flash_cancel"@
                    },
                }
                &&& !step.state.orders_live
                &&& step.state.last_cancel_ts == now_ms
                &&& step.state.next_post_interval_ms == if spike {
                    d.spike_interval_ms
                } else {
                    d.flash_interval_ms
                }
            }
        }),
{
}

/// Without live bids in the first phase, once the pause is over, a ladder is posted on each
/// side for what it lacks of two hundred shares: three cents below its bid; late in the
/// window one cent on the side behind; and while repairing five cents on the side ahead and
/// one on the side behind. Repair is on from where the side behind falls below sixty per
/// cent until it is at ninety-five. In a window that is skipped nothing is posted.
pub proof fn both_sides_get_a_ladder(
    s: FlashLadder,
    now_ms: i64,
    m: MarketView,
    top: PolymarketTop,
    d: Draws,
)
    requires
        is_trading(s, now_ms, m, top),
        !s.orders_live,
        !s.phase2_mode,
        !is_one_sided(s.held, elapsed(now_ms as int, m.window_start_ts as int)),
    ensures
        ({
            let e = elapsed(now_ms as int, m.window_start_ts as int);
            let step = s.ticked(now_ms, m, top, d);
            let up_ahead = s.held.up_shares >= s.held.dn_shares;
            let (full, weak) = if up_ahead {
                (s.held.up_shares, s.held.dn_shares)
            } else {
                (s.held.dn_shares, s.held.up_shares)
            };
            let repair = if s.repair_mode {
                100 * weak < 95 * full
            } else {
                full >= 5_000_000 && 100 * weak < 60 * full
            };
            let ahead: int = if repair {
                5
            } else {
                3
            };
            let behind: int = if repair || e >= 630 {
                1
            } else {
                3
            };
            let lack = |shares: i128|
                if shares < 200_000_000 {
                    200_000_000 - shares
                } else {
                    0
                };
            let up = ladder_commands(
                m,
                Side::Up,
                "up:"@,
                rungs(
                    top.up_bid->0 as int,
                    top.up_ask->0 as int,
                    None,
                    if up_ahead {
                        ahead
                    } else {
                        behind
                    },
                    d.up_sizes@,
                    0,
                    lack(s.held.up_shares),
                ),
                Some(top.up_ask->0 < top.down_ask->0),
            );
            let dn = ladder_commands(
                m,
                Side::Down,
                "dn:"@,
                rungs(
                    top.down_bid->0 as int,
                    top.down_ask->0 as int,
                    None,
                    if up_ahead {
                        behind
                    } else {
                        ahead
                    },
                    d.dn_sizes@,
                    0,
                    lack(s.held.dn_shares),
                ),
                Some(top.down_ask->0 < top.up_ask->0),
            );
            let posts = !s.window_skip && now_ms - s.last_cancel_ts >= s.next_post_interval_ms;
            let live = posts && (up.len() > 0 || dn.len() > 0);
            &&& posts ==> step.commands =~= up + dn
            &&& !posts ==> step.commands.len() == 0
            &&& live ==> step.state == FlashLadder {
                repair_mode: repair,
                orders_live: true,
                last_post_ts: now_ms,
                cancel_delay_ms: d.cancel_delay_ms as i64,
                ..s
            }
            &&& !live ==> step.state == FlashLadder { repair_mode: repair, ..s }
        }),
{
}

/// Where the second phase falls due, all bids are cancelled and the phase begins.
pub proof fn the_second_phase_begins_with_a_cancel(
    s: FlashLadder,
    now_ms: i64,
    m: MarketView,
    top: PolymarketTop,
    d: Draws,
)
    requires
        is_trading(s, now_ms, m, top),
        !s.orders_live,
        !s.phase2_mode,
        is_one_sided(s.held, elapsed(now_ms as int, m.window_start_ts as int)),
    ensures
        ({
            let step = s.ticked(now_ms, m, top, d);
            &&& step.commands.len() > 0
            &&& step.commands[0] == CommandView::CancelAll { reason: "phase2_start"@ }
            &&& step.state.phase2_mode
            &&& step.state.last_cancel_ts == now_ms
            &&& step.state.held == s.held
        }),
{
}

/// The second phase without live bids: done where the side behind has ninety-five per cent
/// of the other or lacks less than five shares; else, once the pause is over, a ladder one
/// cent below the bid of the side behind, for what it lacks of the other side and of two
/// hundred shares, under a cap: the pair's target less what the side ahead cost on average.
pub proof fn the_side_behind_gets_a_capped_ladder(
    s: FlashLadder,
    now_ms: i64,
    m: MarketView,
    top: PolymarketTop,
    d: Draws,
)
    requires
        is_trading(s, now_ms, m, top),
        !s.orders_live,
        s.phase2_mode,
        !s.window_skip,
    ensures
        ({
            let step = s.ticked(now_ms, m, top, d);
            let up_ahead = s.held.up_shares >= s.held.dn_shares;
            let (full, weak, cost, side, bid, ask) = if up_ahead {
                (
                    s.held.up_shares,
                    s.held.dn_shares,
                    s.held.up_cost,
                    Side::Down,
                    top.down_bid->0,
                    top.down_ask->0,
                )
            } else {
                (
                    s.held.dn_shares,
                    s.held.up_shares,
                    s.held.dn_cost,
                    Side::Up,
                    top.up_bid->0,
                    top.up_ask->0,
                )
            };
            let base: int = if full > 1_000 {
                full as int
            } else {
                1_000
            };
            let cap = RepairCap {
                target: pair_cost_target(weak as int, base) as i128,
                cost,
                shares: base as i128,
            };
            let wanted = if full < 200_000_000 {
                full - weak
            } else {
                200_000_000 - weak
            };
            let bids = ladder_commands(
                m,
                side,
                if up_ahead {
                    "p2_dn:"@
                } else {
                    "p2_up:"@
                },
                rungs(bid as int, ask as int, Some(cap), 1, d.need_sizes@, 0, wanted),
                None,
            );
            let posts = now_ms - s.last_cancel_ts >= s.next_post_interval_ms;
            if 100 * weak >= 95 * full {
                step.state.pair_done && step.commands =~= seq![
                    CommandView::CancelAll { reason: "matched_within_tolerance"@ },
                ]
            } else if full - weak < 5_000_000 {
                step.state.pair_done && step.commands =~= seq![
                    CommandView::CancelAll { reason: "close_enough_sub5"@ },
                ]
            } else {
                &&& !step.state.pair_done
                &&& posts ==> step.commands =~= bids
                &&& !posts ==> step.commands.len() == 0
                &&& posts && bids.len() > 0 ==> step.state.orders_live && step.state.last_post_ts
                    == now_ms && step.state.cancel_delay_ms == d.cancel_delay_ms
            }
        }),
{
}

/// In the second phase every bid above thirty cents keeps the pair within its target: the
/// bid and the average price of the side ahead, its own cost over its own shares, come to
/// the target at most.
pub proof fn repairing_bids_keep_the_pair_cost(
    s: FlashLadder,
    now_ms: i64,
    m: MarketView,
    top: PolymarketTop,
    d: Draws,
    i: int,
)
    requires
        s.wf(),
        top.wf(),
        s.ticked(now_ms, m, top, d).state.phase2_mode,
        0 <= i < s.ticked(now_ms, m, top, d).commands.len(),
    ensures
        ({
            let up_ahead = s.held.up_shares >= s.held.dn_shares;
            let (shares, cost, weak, behind, token, bid, ask) = if up_ahead {
                (
                    s.held.up_shares,
                    s.held.up_cost,
                    s.held.dn_shares,
                    Side::Down,
                    m.down_token_id,
                    top.down_bid,
                    top.down_ask,
                )
            } else {
                (
                    s.held.dn_shares,
                    s.held.dn_cost,
                    s.held.up_shares,
                    Side::Up,
                    m.up_token_id,
                    top.up_bid,
                    top.up_ask,
                )
            };
            match s.ticked(now_ms, m, top, d).commands[i] {
                CommandView::PostMakerBid { side, token_id, price, size, post_only, .. } => {
                    &&& side == behind
                    &&& token_id == token
                    &&& post_only
                    &&& price < ask->0 && price <= bid->0 - 10_000 + 5_000
                    &&& 5_000_000 <= size <= shares - weak
                    &&& price > 300_000 && shares >= 1_000 ==> price * shares + cost
                        <= pair_cost_target(weak as int, shares as int) * shares
                },
                CommandView::CancelAll { .. } => true,
                _ => false,
            }
        }),
{
    if let Some(q) = quotes_of(top) {
        let e = elapsed(now_ms as int, m.window_start_ts as int);
        let a = s.spiked(now_ms, d.spike_interval_ms).state;
        let b = a.flashed(now_ms, d.flash_interval_ms).state;
        let c = b.weighed().latched(now_ms, e).state;
        let side = opposite(c.ahead());
        let wanted = min_of(
            c.held.full() - c.held.weak(),
            MAX_SHARES_PER_SIDE - c.held.weak(),
        );
        let all = rungs(
            q.bid(side) as int,
            q.ask(side) as int,
            Some(c.repair_cap()),
            1,
            d.need_sizes@,
            0,
            wanted,
        );
        crate::ladder::ladder_is_sound(
            q.bid(side) as int,
            q.ask(side) as int,
            Some(c.repair_cap()),
            1,
            d.need_sizes@,
            0,
            wanted,
        );
        assert forall|j: int| 0 <= j < all.len() implies {
            &&& #[trigger] all[j].size <= wanted
            &&& all[j].price <= q.bid(side) - 5_000
            &&& crate::ladder::restable(all[j].price as int, q.ask(side) as int, Some(c.repair_cap()))
            &&& all[j].size >= MIN_ORDER
        } by {
            lemma_rung_within_total(all, j);
            crate::ladder::rungs_stand_below_the_bid(
                q.bid(side) as int,
                1,
                all[j].level as int,
            );
            crate::ladder::resting_prices_keep_the_target(
                all[j].price as int,
                q.ask(side) as int,
                c.repair_cap(),
            );
        }
        assert forall|price: int|
            #[trigger] crate::ladder::restable(price, q.ask(side) as int, Some(c.repair_cap()))
            implies price <= 300_000 || price * c.repair_cap().shares + c.repair_cap().cost
            <= c.repair_cap().target * c.repair_cap().shares by {
            crate::ladder::resting_prices_keep_the_target(
                price,
                q.ask(side) as int,
                c.repair_cap(),
            );
        }
    }
}

proof fn lemma_rung_within_total(all: Seq<Rung>, j: int)
    requires
        0 <= j < all.len(),
        forall|i: int| 0 <= i < all.len() ==> (#[trigger] all[i]).size >= 0,
    ensures
        all[j].size <= crate::ladder::ladder_total(all),
    decreases all.len(),
{
    lemma_total_is_nonneg(all.skip(1));
    if j > 0 {
        assert(all.skip(1)[j - 1] == all[j]);
        lemma_rung_within_total(all.skip(1), j - 1);
    }
}

proof fn lemma_total_is_nonneg(all: Seq<Rung>)
    requires
        forall|i: int| 0 <= i < all.len() ==> (#[trigger] all[i]).size >= 0,
    ensures
        crate::ladder::ladder_total(all) >= 0,
    decreases all.len(),
{
    if all.len() > 0 {
        assert(all[0].size >= 0);
        lemma_total_is_nonneg(all.skip(1));
    }
}

/// A pair may cost ninety-seven cents where the sides nearly match; below eighty-five,
/// seventy and fifty per cent it may cost ninety-nine cents, a dollar, and two cents more.
pub proof fn targets_have_their_steps(have: int, full: int)
    ensures
        pair_cost_target(have, full) == 970_000 <==> 100 * have >= 85 * full,
        pair_cost_target(have, full) == 990_000 <==> 100 * have < 85 * full && 100 * have >= 70 * full,
        pair_cost_target(have, full) == 1_000_000 <==> 100 * have < 85 * full && 100 * have < 70
            * full && 100 * have >= 50 * full,
        pair_cost_target(have, full) == 1_020_000 <==> 100 * have < 85 * full && 100 * have < 70
            * full && 100 * have < 50 * full,
{
}

/// A fill adds to its side. It ends the window exactly where a side has come to 196 shares
/// and the other to ninety-five per cent of it; then everything is cancelled.
pub proof fn fills_end_matched_windows(s: FlashLadder, side: Side, size: i64, price: i64)
    ensures
        ({
            let step = s.filled(side, size, price);
            let h = s.held.with(side, size, price);
            let (full, weak) = if h.up_shares >= h.dn_shares {
                (h.up_shares, h.dn_shares)
            } else {
                (h.dn_shares, h.up_shares)
            };
            let ends = !s.pair_done && full >= 196_000_000 && 100 * weak >= 95 * full;
            &&& step.state == FlashLadder { held: h, pair_done: s.pair_done || ends, ..s }
            &&& ends ==> step.commands =~= seq![
                CommandView::CancelAll { reason: "matched_pair_done"@ },
            ]
            &&& !ends ==> step.commands.len() == 0
        }),
{
}

/// A window begins with nothing held, nothing live and no mode on, after the drawn pause;
/// a roll of up to twenty-five of a hundred skips it.
pub proof fn windows_are_skipped_by_the_roll(s: FlashLadder, start: i64, interval_ms: u32, roll: u32)
    ensures
        ({
            let t = s.in_window(start, interval_ms, roll);
            &&& t.window_skip <==> roll <= 25
            &&& t.next_post_interval_ms == interval_ms
            &&& t.last_window_ts == start
            &&& !t.pair_done && !t.repair_mode && !t.phase2_mode && !t.orders_live
                && !t.matching_gtc_posted
            &&& t.last_cancel_ts == 0 && t.last_post_ts == 0
            &&& t.held.up_shares == 0 && t.held.dn_shares == 0 && t.held.up_cost == 0 && t.held.dn_cost
                == 0
            &&& t.latest_obi == s.latest_obi
        }),
{
}

/// A markout compares a fill with the middle of its own side's prices, up to half a
/// millionth; a price that is not known counts as zero.
pub proof fn markouts_look_at_the_same_side(top: PolymarketTop, price: int)
    ensures
        ({
            let p = |x: Option<i64>|
                match x {
                    Some(v) => v as int,
                    None => 0,
                };
            let (up_mid, up_diff) = markout_of(top, Side::Up, price);
            let (dn_mid, dn_diff) = markout_of(top, Side::Down, price);
            &&& -1 <= 2 * up_mid - (p(top.up_bid) + p(top.up_ask)) <= 1
            &&& -1 <= 2 * dn_mid - (p(top.down_bid) + p(top.down_ask)) <= 1
            &&& up_diff == up_mid - price && dn_diff == dn_mid - price
        }),
{
    let p = |x: Option<i64>|
        match x {
            Some(v) => v as int,
            None => 0,
        };
    crate::fixed::rounding_is_nearest(p(top.up_bid) + p(top.up_ask), 2);
    crate::fixed::rounding_is_nearest(p(top.down_bid) + p(top.down_ask), 2);
}

/// A window is new where its start is a time and not that of the last one.
pub proof fn windows_are_new_once(s: FlashLadder, start: i64, interval_ms: u32, roll: u32)
    ensures
        start <= 0 ==> !s.is_new_window(start),
        start > 0 ==> (s.is_new_window(start) <==> s.last_window_ts != start),
        !s.in_window(start, interval_ms, roll).is_new_window(start),
        s.in_window(start, interval_ms, roll).cancel_delay_ms == s.cancel_delay_ms,
        FlashLadder::initial().cancel_delay_ms == 2000,
{
}

} // verus!
