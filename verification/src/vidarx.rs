//! The accumulator for five-minute windows that bids in rounds.
//!
//! Ten rounds, one every twenty-five seconds from ten seconds into the window:
//! five shares of each side, the expensive one at its bid and the cheap one so
//! that the pair costs ninety-six cents. The bids rest to the end; nothing is
//! cancelled within the window, and nothing is sold.

use vstd::prelude::*;

use crate::clock::{elapsed, elapsed_s};
use crate::feeds::user_ws::UserFillEvent;
use crate::fixed::{max, max_of, min, min_of, round_cents, to_cents, CENT};
use crate::inventory::{bought_side, side_bought, Inventory, SHARE_LIMIT};
use crate::ladder::resting_bid;
use crate::text::{join, nat_string, nat_text};
use crate::types_v2::{
    cancel_all, command_views, CommandView, ExecutionCommand, MarketDescriptor, MarketView,
    PolymarketTop, Side,
};
use crate::vidarx_btc15::{cancelling, quotes_of, read_quotes, Quotes};

verus! {

/// The number of rounds in a window.
pub const TOTAL_ROUNDS: u32 = 10;

/// The size of a bid: five shares.
pub const ROUND_SIZE: i128 = 5_000_000;

/// What a pair may cost: ninety-six cents.
pub const PAIR_TARGET: i128 = 960_000;

/// The target for the cost of a pair, by the share of the missing side that is
/// held already: the more is missing, the more a pair may cost. Given in shares
/// of the missing side and of the full side.
pub open spec fn pair_cost_target(have: int, full: int) -> int {
    if 100 * have >= 85 * full {
        960_000
    } else if 100 * have >= 70 * full {
        970_000
    } else if 100 * have >= 50 * full {
        980_000
    } else {
        990_000
    }
}

/// The target for the cost of a pair while repairing an imbalance.
pub fn repair_pair_cost_target(have: i128, full: i128) -> (r: i128)
    requires
        -2 * SHARE_LIMIT <= have <= 2 * SHARE_LIMIT,
        -2 * SHARE_LIMIT <= full <= 2 * SHARE_LIMIT,
    ensures
        r == pair_cost_target(have as int, full as int),
{
    if 100 * have >= 85 * full {
        960_000
    } else if 100 * have >= 70 * full {
        970_000
    } else if 100 * have >= 50 * full {
        980_000
    } else {
        990_000
    }
}

/// The better the sides match, the lower the target; a pair stays below a dollar.
pub proof fn target_falls_with_match(have: int, more: int, full: int)
    requires
        have <= more,
    ensures
        pair_cost_target(more, full) <= pair_cost_target(have, full),
        960_000 <= pair_cost_target(have, full) <= 990_000,
{
}

/// The number of rounds that are due so many seconds into a window.
pub open spec fn rounds_due(elapsed: int) -> int {
    if elapsed < 10 {
        0
    } else {
        min_of((elapsed - 10) / 25 + 1, TOTAL_ROUNDS as int)
    }
}

/// The number of rounds that are due.
pub fn due_rounds(elapsed: i128) -> (r: u32)
    ensures
        r == rounds_due(elapsed as int),
{
    if elapsed < 10 {
        0
    } else {
        let n: i128 = (elapsed - 10) / 25;
        if n >= 9 {
            10
        } else {
            (n + 1) as u32
        }
    }
}

/// Round `n` (from zero) is due from `10 + 25 n` seconds on, up to ten rounds;
/// none becomes due again.
pub proof fn rounds_fall_due_in_turn(elapsed: int, later: int, n: int)
    requires
        elapsed <= later,
        0 <= n < TOTAL_ROUNDS,
    ensures
        rounds_due(elapsed) <= rounds_due(later) <= TOTAL_ROUNDS,
        n < rounds_due(elapsed) <==> elapsed >= 10 + 25 * n,
{
}

/// The state of the accumulator in a window.
#[derive(Debug, Clone, Copy)]
pub struct Rounds {
    pub last_window_ts: i64,
    pub held: Inventory,
    pub rounds_posted: u32,
    pub latest_obi: i128,
}

pub ghost struct RoundsStep {
    pub state: Rounds,
    pub commands: Seq<CommandView>,
}

/// A state with nothing sent.
pub open spec fn quiet(state: Rounds) -> RoundsStep {
    RoundsStep { state, commands: Seq::empty() }
}

/// Whether the up token is the expensive one.
pub open spec fn exp_is_up(q: Quotes) -> bool {
    q.up_ask >= q.dn_ask
}

/// The bid for the expensive side: its own best bid.
pub open spec fn exp_price(q: Quotes) -> int {
    to_cents(
        if exp_is_up(q) {
            q.up_bid as int
        } else {
            q.dn_bid as int
        },
    )
}

/// The bid for the cheap side: what the pair target leaves, at least one cent
/// and at most one cent below its ask.
pub open spec fn cheap_price(q: Quotes) -> int {
    let (exp_bid, cheap_ask) = if exp_is_up(q) {
        (q.up_bid as int, q.dn_ask as int)
    } else {
        (q.dn_bid as int, q.up_ask as int)
    };
    to_cents(min_of(max_of(PAIR_TARGET - exp_bid, CENT as int), cheap_ask - CENT))
}

/// The bid for a side.
pub open spec fn side_price(q: Quotes, side: Side) -> int {
    if exp_is_up(q) == (side == Side::Up) {
        exp_price(q)
    } else {
        cheap_price(q)
    }
}

/// The bids of a round on one side: one, where its price is above one cent and
/// below the ask.
pub open spec fn round_bids(m: MarketView, q: Quotes, side: Side, round: int) -> Seq<CommandView> {
    let price = side_price(q, side);
    if CENT < price < q.ask(side) {
        seq![
            CommandView::PostMakerBid {
                market_slug: m.slug,
                token_id: m.token(side),
                side,
                price: price as i128,
                size: ROUND_SIZE,
                post_only: true,
                ladder_key: match side {
                    Side::Up => "up:r"@,
                    Side::Down => "dn:r"@,
                } + nat_text(round as nat),
                was_cheap: exp_is_up(q) != (side == Side::Up),
            },
        ]
    } else {
        Seq::empty()
    }
}

impl Rounds {
    pub open spec fn wf(self) -> bool {
        self.held.wf() && self.rounds_posted <= TOTAL_ROUNDS
    }

    /// The state in which the bot starts.
    pub open spec fn initial() -> Rounds {
        Rounds { last_window_ts: 0, held: Inventory::none(), rounds_posted: 0, latest_obi: 0 }
    }

    /// Whether a market opens a window that is not this one.
    pub open spec fn is_new_window(self, window_start_ts: i64) -> bool {
        window_start_ts > 0 && window_start_ts != self.last_window_ts
    }

    /// The state at the start of a window.
    pub open spec fn in_window(self, window_start_ts: i64) -> Rounds {
        Rounds {
            last_window_ts: window_start_ts,
            latest_obi: self.latest_obi,
            ..Rounds::initial()
        }
    }

    /// A tick: the bids of the next round, where one is due.
    pub open spec fn ticked(self, now_ms: i64, m: MarketView, top: PolymarketTop) -> RoundsStep {
        let e = elapsed(now_ms as int, m.window_start_ts as int);
        match quotes_of(top) {
            Some(q) if m.up_token_id.len() > 0 && self.rounds_posted < rounds_due(e) => {
                let commands = round_bids(m, q, Side::Up, self.rounds_posted + 1) + round_bids(
                    m,
                    q,
                    Side::Down,
                    self.rounds_posted + 1,
                );
                if commands.len() > 0 {
                    RoundsStep {
                        state: Rounds { rounds_posted: (self.rounds_posted + 1) as u32, ..self },
                        commands,
                    }
                } else {
                    quiet(self)
                }
            },
            _ => quiet(self),
        }
    }

    /// The state in which the bot starts.
    pub fn new() -> (r: Rounds)
        ensures
            r == Rounds::initial(),
            r.wf(),
    {
        Rounds { last_window_ts: 0, held: Inventory::new(), rounds_posted: 0, latest_obi: 0 }
    }

    /// Enters a window where the market opened a new one.
    pub fn on_market(&mut self, window_start_ts: i64) -> (r: Vec<ExecutionCommand>)
        ensures
            old(self).is_new_window(window_start_ts) ==> *final(self) == old(self).in_window(
                window_start_ts,
            ) && command_views(r@) == seq![cancelling("new_window"@)],
            !old(self).is_new_window(window_start_ts) ==> *final(self) == *old(self) && r@.len()
                == 0,
            old(self).wf() ==> final(self).wf(),
    {
        let mut out: Vec<ExecutionCommand> = Vec::new();
        if window_start_ts > 0 && window_start_ts != self.last_window_ts {
            *self = Rounds {
                last_window_ts: window_start_ts,
                held: Inventory::new(),
                rounds_posted: 0,
                latest_obi: self.latest_obi,
            };
            out.push(cancel_all("new_window"));
            assert(command_views(out@) =~= seq![cancelling("new_window"@)]);
        }
        out
    }

    /// Stores the latest imbalance.
    pub fn on_signal(&mut self, obi_ema: i128)
        ensures
            *final(self) == (Rounds { latest_obi: obi_ema, ..*old(self) }),
    {
        self.latest_obi = obi_ema;
    }

    /// Adds a fill of one of the market's tokens; others are passed over. Says
    /// which side it added to.
    pub fn on_fill(&mut self, fill: &UserFillEvent, market: &MarketDescriptor) -> (r: Option<Side>)
        requires
            old(self).wf(),
            bought_side(fill.asset_id@, fill.side@, market@) matches Some(side) ==> old(
                self,
            ).held.has_room(side, fill.size, fill.price),
        ensures
            r == bought_side(fill.asset_id@, fill.side@, market@),
            *final(self) == match r {
                Some(side) => Rounds {
                    held: old(self).held.with(side, fill.size, fill.price),
                    ..*old(self)
                },
                None => *old(self),
            },
            final(self).wf(),
    {
        let side: Option<Side> = side_bought(fill.asset_id.as_str(), fill.side.as_str(), market);
        if let Some(s) = side {
            self.held.record(s, fill.size, fill.price);
        }
        side
    }

    /// A tick.
    pub fn on_tick(&mut self, now_ms: i64, market: &MarketDescriptor, top: &PolymarketTop) -> (r: Vec<
        ExecutionCommand,
    >)
        requires
            old(self).wf(),
            top.wf(),
        ensures
            *final(self) == old(self).ticked(now_ms, market@, *top).state,
            command_views(r@) == old(self).ticked(now_ms, market@, *top).commands,
            final(self).wf(),
    {
        let mut out: Vec<ExecutionCommand> = Vec::new();
        assert(command_views(out@) =~= Seq::empty());
        if market.up_token_id.as_str().is_empty() {
            return out;
        }
        let due: u32 = due_rounds(elapsed_s(now_ms, market.window_start_ts));
        if self.rounds_posted >= due {
            return out;
        }
        let q: Quotes = match read_quotes(top) {
            None => {
                return out;
            },
            Some(q) => q,
        };
        let round: u32 = self.rounds_posted + 1;
        push_round(market, &q, Side::Up, round, &mut out);
        push_round(market, &q, Side::Down, round, &mut out);
        assert(command_views(out@) =~= round_bids(market@, q, Side::Up, round as int) + round_bids(
            market@,
            q,
            Side::Down,
            round as int,
        ));
        assert(out@.len() == command_views(out@).len());
        if out.len() > 0 {
            self.rounds_posted = round;
        }
        out
    }
}

/// The bid for a side.
pub fn price_for(q: &Quotes, side: Side) -> (r: i128)
    requires
        q.wf(),
    ensures
        r == side_price(*q, side),
{
    let up_is_exp: bool = q.up_ask >= q.dn_ask;
    let (exp_bid, cheap_ask): (i128, i128) = if up_is_exp {
        (q.up_bid as i128, q.dn_ask as i128)
    } else {
        (q.dn_bid as i128, q.up_ask as i128)
    };
    let wants_up: bool = match side {
        Side::Up => true,
        Side::Down => false,
    };
    if up_is_exp == wants_up {
        round_cents(exp_bid)
    } else {
        round_cents(min(max(PAIR_TARGET - exp_bid, CENT as i128), cheap_ask - CENT as i128))
    }
}

fn push_round(
    market: &MarketDescriptor,
    q: &Quotes,
    side: Side,
    round: u32,
    out: &mut Vec<ExecutionCommand>,
)
    requires
        q.wf(),
    ensures
        command_views(final(out)@) == command_views(old(out)@) + round_bids(
            market@,
            *q,
            side,
            round as int,
        ),
{
    let price: i128 = price_for(q, side);
    let (ask, prefix, cheap): (i64, &str, bool) = match side {
        Side::Up => (q.up_ask, "up:r", !(q.up_ask >= q.dn_ask)),
        Side::Down => (q.dn_ask, "dn:r", q.up_ask >= q.dn_ask),
    };
    if price > CENT as i128 && price < ask as i128 {
        let number: String = nat_string(round as u128);
        out.push(
            ExecutionCommand::PostMakerBid {
                market_slug: market.slug.clone(),
                token_id: market.token(side),
                side,
                price,
                size: ROUND_SIZE,
                post_only: true,
                ladder_key: join(prefix, number.as_str()),
                was_cheap: cheap,
            },
        );
    }
    assert(command_views(out@) =~= command_views(old(out)@) + round_bids(
        market@,
        *q,
        side,
        round as int,
    ));
}

// ── Laws ────────────────────────────────────────────────────────

/// A tick bids for one round at most, never beyond the tenth, with at most one
/// bid a side; every bid is post-only, above one cent and below its side's ask.
pub proof fn rounds_are_bounded(s: Rounds, now_ms: i64, m: MarketView, top: PolymarketTop)
    requires
        s.wf(),
        top.wf(),
    ensures
        ({
            let step = s.ticked(now_ms, m, top);
            &&& s.rounds_posted <= step.state.rounds_posted <= s.rounds_posted + 1
            &&& step.state.rounds_posted <= TOTAL_ROUNDS
            &&& step.commands.len() <= 2
            &&& step.commands.len() > 0 <==> step.state.rounds_posted == s.rounds_posted + 1
            &&& step.state.held == s.held
            &&& forall|i: int|
                0 <= i < step.commands.len() ==> match #[trigger] step.commands[i] {
                    CommandView::PostMakerBid { side, .. } => quotes_of(top) is Some
                        && resting_bid(
                        step.commands[i],
                        m,
                        side,
                        quotes_of(top)->0.ask(side) as int,
                    ),
                    _ => false,
                }
        }),
{
    if let Some(q) = quotes_of(top) {
        let up = round_bids(m, q, Side::Up, s.rounds_posted + 1);
        let dn = round_bids(m, q, Side::Down, s.rounds_posted + 1);
        assert forall|side: Side| #[trigger] side_price(q, side) % (CENT as int) == 0 by {
            let x = if exp_is_up(q) == (side == Side::Up) {
                if exp_is_up(q) {
                    q.up_bid as int
                } else {
                    q.dn_bid as int
                }
            } else if exp_is_up(q) {
                min_of(max_of(PAIR_TARGET - q.up_bid, CENT as int), q.dn_ask - CENT)
            } else {
                min_of(max_of(PAIR_TARGET - q.dn_bid, CENT as int), q.up_ask - CENT)
            };
            assert(side_price(q, side) == to_cents(x));
            crate::fixed::lemma_whole_cents(x);
        }
    }
}

/// Nothing is bid for in the first ten seconds, and no round before its time:
/// after a tick no more rounds are posted than are due or were posted before.
pub proof fn rounds_keep_their_time(s: Rounds, now_ms: i64, m: MarketView, top: PolymarketTop)
    requires
        s.wf(),
    ensures
        ({
            let e = elapsed(now_ms as int, m.window_start_ts as int);
            let step = s.ticked(now_ms, m, top);
            &&& e < 10 ==> step == quiet(s)
            &&& step.commands.len() > 0 ==> step.state.rounds_posted <= rounds_due(e)
        }),
{
}

/// Where the expensive side's bid is in whole cents, a pair of bids costs at most
/// ninety-six cents.
pub proof fn pairs_cost_at_most_the_target(q: Quotes)
    requires
        q.wf(),
        exists|n: int|
            (if exp_is_up(q) {
                q.up_bid
            } else {
                q.dn_bid
            }) == #[trigger] (n * CENT),
        side_price(q, Side::Up) > CENT,
        side_price(q, Side::Down) > CENT,
    ensures
        side_price(q, Side::Up) + side_price(q, Side::Down) <= PAIR_TARGET,
{
    let bid = if exp_is_up(q) {
        q.up_bid as int
    } else {
        q.dn_bid as int
    };
    let n = choose|n: int| bid == #[trigger] (n * CENT);
    crate::fixed::lemma_cents_are_fixed(n);
    crate::fixed::lemma_cents_are_fixed(96 - n);
    assert(PAIR_TARGET - bid == (96 - n) * CENT);
    let cheap_ask = if exp_is_up(q) {
        q.dn_ask as int
    } else {
        q.up_ask as int
    };
    let wanted = max_of(PAIR_TARGET - bid, CENT as int);
    let x = min_of(wanted, cheap_ask - CENT);
    crate::fixed::lemma_cents_are_fixed(1);
    crate::fixed::lemma_cents_grow(x, wanted);
}

/// Whether a command is the bid of a round for a token of a side at a price.
pub open spec fn bids_in_round(c: CommandView, m: MarketView, of: Side, token: Seq<char>, at: int) -> bool {
    match c {
        CommandView::PostMakerBid { market_slug, token_id, side, price, size, post_only, .. } => {
            &&& market_slug == m.slug
            &&& side == of
            &&& token_id == token
            &&& price == at
            &&& size == 5_000_000
            &&& post_only
        },
        _ => false,
    }
}

/// A round is posted exactly where one is due, all four prices and the market are known,
/// and one of its two bids can rest: above a cent and below its own side's ask. A bid is
/// for five shares of its side's token.
pub proof fn due_rounds_are_posted(s: Rounds, now_ms: i64, m: MarketView, top: PolymarketTop)
    requires
        s.wf(),
        top.wf(),
    ensures
        ({
            let e = elapsed(now_ms as int, m.window_start_ts as int);
            let step = s.ticked(now_ms, m, top);
            let known = m.up_token_id.len() > 0 && top.up_bid is Some && top.up_ask is Some
                && top.down_bid is Some && top.down_ask is Some;
            let due = known && s.rounds_posted < 10 && e >= 10 + 25 * s.rounds_posted;
            let q = Quotes {
                up_bid: top.up_bid->0,
                up_ask: top.up_ask->0,
                dn_bid: top.down_bid->0,
                dn_ask: top.down_ask->0,
            };
            let (u, d) = (side_price(q, Side::Up), side_price(q, Side::Down));
            let up = 10_000 < u < q.up_ask;
            let dn = 10_000 < d < q.dn_ask;
            &&& !(due && (up || dn)) ==> step.commands.len() == 0 && step.state == s
            &&& due && (up || dn) ==> step.state == Rounds {
                rounds_posted: (s.rounds_posted + 1) as u32,
                ..s
            }
            &&& due && up && dn ==> step.commands.len() == 2 && bids_in_round(
                step.commands[0],
                m,
                Side::Up,
                m.up_token_id,
                u,
            ) && bids_in_round(step.commands[1], m, Side::Down, m.down_token_id, d)
            &&& due && up && !dn ==> step.commands.len() == 1 && bids_in_round(
                step.commands[0],
                m,
                Side::Up,
                m.up_token_id,
                u,
            )
            &&& due && !up && dn ==> step.commands.len() == 1 && bids_in_round(
                step.commands[0],
                m,
                Side::Down,
                m.down_token_id,
                d,
            )
        }),
{
    if let Some(q) = quotes_of(top) {
        lemma_side_prices_fit(q, Side::Up);
        lemma_side_prices_fit(q, Side::Down);
    }
}

proof fn lemma_side_prices_fit(q: Quotes, side: Side)
    requires
        q.wf(),
    ensures
        i128::MIN <= side_price(q, side) <= i128::MAX,
{
    crate::fixed::cents_are_nearest(
        if exp_is_up(q) {
            q.up_bid as int
        } else {
            q.dn_bid as int
        },
    );
    let (exp_bid, cheap_ask) = if exp_is_up(q) {
        (q.up_bid as int, q.dn_ask as int)
    } else {
        (q.dn_bid as int, q.up_ask as int)
    };
    crate::fixed::cents_are_nearest(
        min_of(max_of(PAIR_TARGET - exp_bid, CENT as int), cheap_ask - CENT),
    );
}

/// The dearer side is bid for at its own bid, in whole cents; the other at what
/// ninety-six cents leave over that bid, but at a cent or more and at least a cent below
/// its ask, in whole cents. Up is the dearer side where both ask the same.
pub proof fn rounds_bid_for_a_pair(q: Quotes)
    ensures
        ({
            let (dear, cheap, bid, ask) = if q.up_ask >= q.dn_ask {
                (Side::Up, Side::Down, q.up_bid as int, q.dn_ask as int)
            } else {
                (Side::Down, Side::Up, q.dn_bid as int, q.up_ask as int)
            };
            let left = if 960_000 - bid > 10_000 {
                960_000 - bid
            } else {
                10_000
            };
            let most = if left < ask - 10_000 {
                left
            } else {
                ask - 10_000
            };
            &&& side_price(q, dear) % 10_000 == 0
            &&& bid - 5_000 <= side_price(q, dear) <= bid + 5_000
            &&& side_price(q, cheap) % 10_000 == 0
            &&& most - 5_000 <= side_price(q, cheap) <= most + 5_000
        }),
{
    let (exp_bid, cheap_ask) = if exp_is_up(q) {
        (q.up_bid as int, q.dn_ask as int)
    } else {
        (q.dn_bid as int, q.up_ask as int)
    };
    crate::fixed::cents_are_nearest(exp_bid);
    crate::fixed::cents_are_nearest(
        min_of(max_of(PAIR_TARGET - exp_bid, CENT as int), cheap_ask - CENT),
    );
}

/// With the sides in each other's place, each is bid for at the other's price, where the
/// asks differ.
pub proof fn sides_are_treated_alike(q: Quotes)
    requires
        q.up_ask != q.dn_ask,
    ensures
        ({
            let t = Quotes { up_bid: q.dn_bid, up_ask: q.dn_ask, dn_bid: q.up_bid, dn_ask: q.up_ask };
            side_price(t, Side::Up) == side_price(q, Side::Down) && side_price(t, Side::Down)
                == side_price(q, Side::Up)
        }),
{
}

/// A pair may cost ninety-six cents where the sides nearly match, and a cent more for each
/// of three steps down: below eighty-five, seventy and fifty per cent.
pub proof fn targets_have_their_steps(have: int, full: int)
    ensures
        pair_cost_target(have, full) == 960_000 <==> 100 * have >= 85 * full,
        pair_cost_target(have, full) == 970_000 <==> 100 * have < 85 * full && 100 * have >= 70 * full,
        pair_cost_target(have, full) == 980_000 <==> 100 * have < 85 * full && 100 * have < 70 * full
            && 100 * have >= 50 * full,
        pair_cost_target(have, full) == 990_000 <==> 100 * have < 85 * full && 100 * have < 70 * full
            && 100 * have < 50 * full,
{
}

/// A window begins with nothing held and no round posted; only the imbalance is kept.
pub proof fn rounds_start_afresh(s: Rounds, window_start_ts: i64)
    ensures
        ({
            let t = s.in_window(window_start_ts);
            &&& t.rounds_posted == 0
            &&& t.held.up_shares == 0 && t.held.dn_shares == 0 && t.held.up_cost == 0 && t.held.dn_cost
                == 0 && t.held.fills == 0
            &&& t.latest_obi == s.latest_obi
            &&& t.last_window_ts == window_start_ts
        }),
{
}

/// The bids of a round carry its number behind their side's mark, and a bid is of
/// the cheap side where its token's ask is the lower.
pub proof fn rounds_are_numbered(s: Rounds, now_ms: i64, m: MarketView, top: PolymarketTop, i: int)
    requires
        s.wf(),
        top.wf(),
        0 <= i < s.ticked(now_ms, m, top).commands.len(),
    ensures
        match s.ticked(now_ms, m, top).commands[i] {
            CommandView::PostMakerBid { side, ladder_key, was_cheap, .. } => {
                &&& side == Side::Up ==> ladder_key == "up:r"@ + nat_text(
                    (s.rounds_posted + 1) as nat,
                )
                &&& side == Side::Down ==> ladder_key == "dn:r"@ + nat_text(
                    (s.rounds_posted + 1) as nat,
                )
                &&& side == Side::Up ==> (was_cheap <==> top.up_ask->0 < top.down_ask->0)
                &&& side == Side::Down ==> (was_cheap <==> top.down_ask->0 <= top.up_ask->0)
            },
            _ => false,
        },
{
}

/// A window is new where its start is a time and not that of the last one.
pub proof fn windows_are_new_once(s: Rounds, window_start_ts: i64)
    ensures
        window_start_ts <= 0 ==> !s.is_new_window(window_start_ts),
        window_start_ts > 0 ==> (s.is_new_window(window_start_ts) <==> s.last_window_ts
            != window_start_ts),
        !s.in_window(window_start_ts).is_new_window(window_start_ts),
{
}

} // verus!
