//! What a window's fills have added up to.

use vstd::prelude::*;

use crate::fixed::{div_round, max, max_of, min, min_of, rounded};
use crate::text::same;
use crate::types_v2::{MarketDescriptor, MarketView, Side};

verus! {

/// The largest total of shares, in millionths.
pub const SHARE_LIMIT: i128 = 1_000_000_000_000_000_000_000;

/// The largest total cost, in millionths of millionths.
pub const COST_LIMIT: i128 = 1_000_000_000_000_000_000_000_000_000_000_000_000;

/// The smallest number of shares that an average is taken over: a thousandth.
pub const LEAST_SHARES: i128 = 1_000;

/// Shares held on both sides of a window, what they cost, and the number of
/// fills. Shares count millionths. A cost is a sum of products of a size and a
/// price, so it counts millionths of millionths of a dollar, exactly.
#[derive(Debug, Clone, Copy)]
pub struct Inventory {
    pub up_shares: i128,
    pub dn_shares: i128,
    pub up_cost: i128,
    pub dn_cost: i128,
    pub fills: u32,
}

impl Inventory {
    /// The totals are within range.
    pub open spec fn wf(self) -> bool {
        &&& -SHARE_LIMIT <= self.up_shares <= SHARE_LIMIT
        &&& -SHARE_LIMIT <= self.dn_shares <= SHARE_LIMIT
        &&& -COST_LIMIT <= self.up_cost <= COST_LIMIT
        &&& -COST_LIMIT <= self.dn_cost <= COST_LIMIT
    }

    /// Nothing held.
    pub open spec fn none() -> Inventory {
        Inventory { up_shares: 0, dn_shares: 0, up_cost: 0, dn_cost: 0, fills: 0 }
    }

    /// The inventory with one more fill.
    pub open spec fn with(self, side: Side, size: i64, price: i64) -> Inventory {
        match side {
            Side::Up => Inventory {
                up_shares: (self.up_shares + size) as i128,
                up_cost: (self.up_cost + size * price) as i128,
                fills: (self.fills + 1) as u32,
                ..self
            },
            Side::Down => Inventory {
                dn_shares: (self.dn_shares + size) as i128,
                dn_cost: (self.dn_cost + size * price) as i128,
                fills: (self.fills + 1) as u32,
                ..self
            },
        }
    }

    /// Whether the totals stay within range with one more fill.
    pub open spec fn has_room(self, side: Side, size: i64, price: i64) -> bool {
        let (shares, cost) = match side {
            Side::Up => (self.up_shares + size, self.up_cost + size * price),
            Side::Down => (self.dn_shares + size, self.dn_cost + size * price),
        };
        &&& self.fills < u32::MAX
        &&& -SHARE_LIMIT <= shares <= SHARE_LIMIT
        &&& -COST_LIMIT <= cost <= COST_LIMIT
    }

    /// The shares of a side.
    pub open spec fn shares(self, side: Side) -> i128 {
        match side {
            Side::Up => self.up_shares,
            Side::Down => self.dn_shares,
        }
    }

    /// The shares of the side that holds more.
    pub open spec fn full(self) -> int {
        max_of(self.up_shares as int, self.dn_shares as int)
    }

    /// The shares of the side that holds less: those that form pairs.
    pub open spec fn weak(self) -> int {
        min_of(self.up_shares as int, self.dn_shares as int)
    }

    /// The average cost of a pair: the sum of the two sides' average prices, or
    /// zero while no pair is held.
    pub open spec fn pair_cost(self) -> int {
        if self.weak() > 0 {
            rounded(self.up_cost as int, max_of(self.up_shares as int, LEAST_SHARES as int)) + rounded(
                self.dn_cost as int,
                max_of(self.dn_shares as int, LEAST_SHARES as int),
            )
        } else {
            0
        }
    }

    /// An empty inventory.
    pub fn new() -> (r: Inventory)
        ensures
            r == Inventory::none(),
            r.wf(),
    {
        Inventory { up_shares: 0, dn_shares: 0, up_cost: 0, dn_cost: 0, fills: 0 }
    }

    /// Whether the totals stay within range with one more fill.
    pub fn fits(&self, side: Side, size: i64, price: i64) -> (r: bool)
        requires
            self.wf(),
        ensures
            r == self.has_room(side, size, price),
    {
        proof {
            lemma_cost_fits(size, price);
        }
        let (shares, cost): (i128, i128) = match side {
            Side::Up => (self.up_shares, self.up_cost),
            Side::Down => (self.dn_shares, self.dn_cost),
        };
        let new_shares: i128 = shares + size as i128;
        let new_cost: i128 = cost + size as i128 * price as i128;
        self.fills < u32::MAX && -SHARE_LIMIT <= new_shares && new_shares <= SHARE_LIMIT
            && -COST_LIMIT <= new_cost && new_cost <= COST_LIMIT
    }

    /// Adds a fill.
    pub fn record(&mut self, side: Side, size: i64, price: i64)
        requires
            old(self).wf(),
            old(self).has_room(side, size, price),
        ensures
            *final(self) == old(self).with(side, size, price),
            final(self).wf(),
    {
        proof {
            lemma_cost_fits(size, price);
        }
        let cost: i128 = size as i128 * price as i128;
        match side {
            Side::Up => {
                self.up_shares = self.up_shares + size as i128;
                self.up_cost = self.up_cost + cost;
            },
            Side::Down => {
                self.dn_shares = self.dn_shares + size as i128;
                self.dn_cost = self.dn_cost + cost;
            },
        }
        self.fills = self.fills + 1;
    }

    /// The shares of the side that holds more.
    pub fn most(&self) -> (r: i128)
        ensures
            r == self.full(),
    {
        max(self.up_shares, self.dn_shares)
    }

    /// The shares of the side that holds less.
    pub fn least(&self) -> (r: i128)
        ensures
            r == self.weak(),
    {
        min(self.up_shares, self.dn_shares)
    }

    /// The average cost of a pair, for the log.
    pub fn average_pair_cost(&self) -> (r: i128)
        requires
            self.wf(),
        ensures
            r == self.pair_cost(),
    {
        if self.least() > 0 {
            let up_base: i128 = max(self.up_shares, LEAST_SHARES);
            let dn_base: i128 = max(self.dn_shares, LEAST_SHARES);
            proof {
                lemma_average_fits(self.up_cost as int, up_base as int);
                lemma_average_fits(self.dn_cost as int, dn_base as int);
            }
            div_round(self.up_cost, up_base) + div_round(self.dn_cost, dn_base)
        } else {
            0
        }
    }
}

proof fn lemma_cost_fits(size: i64, price: i64)
    ensures
        -0x4000_0000_0000_0000_0000_0000_0000_0000 <= size * price
            <= 0x4000_0000_0000_0000_0000_0000_0000_0000,
{
    crate::fixed::lemma_product_bounds(
        size as int,
        price as int,
        0x8000_0000_0000_0000,
        0x8000_0000_0000_0000,
    );
    assert(0x8000_0000_0000_0000int * 0x8000_0000_0000_0000
        == 0x4000_0000_0000_0000_0000_0000_0000_0000);
}

proof fn lemma_average_fits(cost: int, base: int)
    requires
        -COST_LIMIT <= cost <= COST_LIMIT,
        base >= 1,
    ensures
        -COST_LIMIT <= rounded(cost, base) <= COST_LIMIT,
{
    assert(-COST_LIMIT * base <= cost <= COST_LIMIT * base) by (nonlinear_arith)
        requires
            -COST_LIMIT <= cost <= COST_LIMIT,
            base >= 1,
    ;
    crate::fixed::rounding_keeps_bounds(cost, base, -COST_LIMIT as int, COST_LIMIT as int);
}

/// The order of two fills does not matter.
pub proof fn fills_commute(
    start: Inventory,
    side: Side,
    size: i64,
    price: i64,
    other_side: Side,
    other_size: i64,
    other_price: i64,
)
    requires
        start.wf(),
        start.fills < u32::MAX - 1,
        start.has_room(side, size, price),
        start.has_room(other_side, other_size, other_price),
        start.with(side, size, price).has_room(other_side, other_size, other_price),
    ensures
        start.with(side, size, price).with(other_side, other_size, other_price) == start.with(
            other_side,
            other_size,
            other_price,
        ).with(side, size, price),
{
}

// ── Which fills count ───────────────────────────────────────────

/// The side that a fill adds to: that of its token, where it bought one of the
/// market's tokens.
pub open spec fn bought_side(asset_id: Seq<char>, side: Seq<char>, m: MarketView) -> Option<Side> {
    if side != "BUY"@ {
        None
    } else if asset_id == m.up_token_id {
        Some(Side::Up)
    } else if asset_id == m.down_token_id {
        Some(Side::Down)
    } else {
        None
    }
}

/// The side that a fill adds to.
pub fn side_bought(asset_id: &str, side: &str, market: &MarketDescriptor) -> (r: Option<Side>)
    ensures
        r == bought_side(asset_id@, side@, market@),
{
    if !same(side, "BUY") {
        None
    } else if same(asset_id, market.up_token_id.as_str()) {
        Some(Side::Up)
    } else if same(asset_id, market.down_token_id.as_str()) {
        Some(Side::Down)
    } else {
        None
    }
}

/// A fill adds to its own side and to no other: its size to the shares, its size times
/// its price to the cost.
pub proof fn fills_add_to_their_own_side(h: Inventory, size: i64, price: i64)
    requires
        h.has_room(Side::Up, size, price),
        h.has_room(Side::Down, size, price),
    ensures
        ({
            let up = h.with(Side::Up, size, price);
            let dn = h.with(Side::Down, size, price);
            &&& up.up_shares == h.up_shares + size
            &&& up.up_cost == h.up_cost + size * price
            &&& up.dn_shares == h.dn_shares && up.dn_cost == h.dn_cost
            &&& dn.dn_shares == h.dn_shares + size
            &&& dn.dn_cost == h.dn_cost + size * price
            &&& dn.up_shares == h.up_shares && dn.up_cost == h.up_cost
            &&& up.fills == h.fills + 1 && dn.fills == h.fills + 1
        }),
{
}

/// The sides are told by their shares: the fuller one has no fewer than the other. A pair
/// costs what a share of each side costs on average, up to a millionth in all.
pub proof fn a_pair_costs_both_averages(h: Inventory, up_price: int, dn_price: int)
    ensures
        h.shares(Side::Up) == h.up_shares,
        h.shares(Side::Down) == h.dn_shares,
        h.full() >= h.up_shares && h.full() >= h.dn_shares,
        h.weak() <= h.up_shares && h.weak() <= h.dn_shares,
        h.full() + h.weak() == h.up_shares + h.dn_shares,
        h.weak() <= 0 ==> h.pair_cost() == 0,
        h.weak() >= 1_000 && h.up_cost == up_price * h.up_shares && h.dn_cost == dn_price
            * h.dn_shares ==> h.pair_cost() == up_price + dn_price,
{
    if h.weak() >= 1_000 && h.up_cost == up_price * h.up_shares && h.dn_cost == dn_price
        * h.dn_shares {
        crate::fixed::rounding_keeps_bounds(
            h.up_cost as int,
            h.up_shares as int,
            up_price,
            up_price,
        );
        crate::fixed::rounding_keeps_bounds(
            h.dn_cost as int,
            h.dn_shares as int,
            dn_price,
            dn_price,
        );
    }
}

/// Only purchases of the market's two tokens count, each for the side of its token.
pub proof fn fills_count_for_their_token(asset_id: Seq<char>, side: Seq<char>, m: MarketView)
    ensures
        bought_side(asset_id, side, m) == Some(Side::Up) <==> side == "BUY"@ && asset_id
            == m.up_token_id,
        bought_side(asset_id, side, m) == Some(Side::Down) <==> side == "BUY"@ && asset_id
            == m.down_token_id && asset_id != m.up_token_id,
{
}

} // verus!
