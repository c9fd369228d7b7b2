//! Ladders of resting bids below the market.

use vstd::prelude::*;

use crate::fixed::{div_floor, min, min_of, round_cents, to_cents, CENT, MAX_AMOUNT, MICRO};
use crate::inventory::{COST_LIMIT, LEAST_SHARES, SHARE_LIMIT};
use crate::text::{join, nat_string, nat_text};
use crate::types_v2::{
    command_views, CommandView, ExecutionCommand, MarketDescriptor, MarketView, Side,
};

verus! {

/// The smallest order that the venue takes: five shares.
pub const MIN_ORDER: i128 = 5_000_000;

/// The number of levels of a ladder.
pub const LEVELS: usize = 3;

/// Thirty cents: what a repairing bid may always pay.
pub const REPAIR_FLOOR: i128 = 300_000;

/// Fifty cents.
pub const HALF: i128 = 500_000;

/// One bid of a ladder.
#[derive(Debug, Clone, Copy)]
pub struct Rung {
    pub level: usize,
    pub price: i128,
    pub size: i128,
}

/// What the missing side of a pair may cost: `target` less the average price
/// `cost / shares` of the side that is held, and never less than thirty cents.
#[derive(Debug, Clone, Copy)]
pub struct RepairCap {
    pub target: i128,
    pub cost: i128,
    pub shares: i128,
}

impl RepairCap {
    pub open spec fn wf(self) -> bool {
        &&& 0 <= self.target <= 2 * MICRO
        &&& -COST_LIMIT <= self.cost <= COST_LIMIT
        &&& LEAST_SHARES <= self.shares <= SHARE_LIMIT
    }

    /// Whether a price is above the cap: above thirty cents, and above the
    /// target less the average price.
    pub open spec fn exceeded_by(self, price: int) -> bool {
        price > REPAIR_FLOOR && (price - self.target) * self.shares > -self.cost
    }

    /// Whether a price is above the cap.
    fn is_exceeded_by(&self, price: i128) -> (r: bool)
        requires
            self.wf(),
            -4 * MAX_AMOUNT <= price <= 4 * MAX_AMOUNT,
        ensures
            r == self.exceeded_by(price as int),
    {
        let most: i128 = div_floor(-self.cost, self.shares);
        proof {
            let (d, s, m) = (price - self.target, self.shares as int, -self.cost as int);
            vstd::arithmetic::div_mod::lemma_fundamental_div_mod(m, s);
            assert(d * s > m <==> d > most) by (nonlinear_arith)
                requires
                    m == s * most + m % s,
                    0 <= m % s < s,
            ;
        }
        price > REPAIR_FLOOR && price - self.target > most
    }
}

/// Whether a price is above an optional cap.
pub open spec fn over_cap(price: int, cap: Option<RepairCap>) -> bool {
    match cap {
        Some(c) => c.exceeded_by(price),
        None => false,
    }
}

/// The price of a level: so many cents below the bid, in whole cents.
pub open spec fn rung_price(bid: int, offset: int, level: int) -> int {
    to_cents(bid - (offset + level) * CENT)
}

/// Whether a bid may rest at a price: above one cent, below the ask, and not
/// above the cap.
pub open spec fn restable(price: int, ask: int, cap: Option<RepairCap>) -> bool {
    CENT < price < ask && !over_cap(price, cap)
}

/// The rungs from a level on, for shares still wanted. A level asks for its
/// drawn size or for what is left; the ladder ends where that is less than the
/// smallest order. A level whose price cannot rest is left out.
pub open spec fn rungs(
    bid: int,
    ask: int,
    cap: Option<RepairCap>,
    offset: int,
    sizes: Seq<u32>,
    level: nat,
    wanted: int,
) -> Seq<Rung>
    decreases LEVELS - level,
{
    let size = min_of(sizes[level as int] * MICRO, wanted);
    let price = rung_price(bid, offset, level as int);
    if level >= LEVELS || size < MIN_ORDER {
        Seq::empty()
    } else if !restable(price, ask, cap) {
        rungs(bid, ask, cap, offset, sizes, level + 1, wanted)
    } else {
        seq![Rung { level: level as usize, price: price as i128, size: size as i128 }] + rungs(
            bid,
            ask,
            cap,
            offset,
            sizes,
            level + 1,
            wanted - size,
        )
    }
}

/// Builds a ladder.
pub fn ladder(
    bid: i64,
    ask: i64,
    cap: Option<RepairCap>,
    offset: u32,
    sizes: &[u32; 3],
    wanted: i128,
) -> (r: Vec<Rung>)
    requires
        -MAX_AMOUNT <= bid <= MAX_AMOUNT,
        cap is Some ==> cap->0.wf(),
        -2 * SHARE_LIMIT <= wanted <= 2 * SHARE_LIMIT,
    ensures
        r@ == rungs(bid as int, ask as int, cap, offset as int, sizes@, 0, wanted as int),
{
    let mut out: Vec<Rung> = Vec::new();
    let mut level: usize = 0;
    let mut left: i128 = wanted;
    let ghost all = rungs(bid as int, ask as int, cap, offset as int, sizes@, 0, wanted as int);
    assert(out@ + all =~= all);
    while level < LEVELS
        invariant
            level <= LEVELS,
            -MAX_AMOUNT <= bid <= MAX_AMOUNT,
            cap is Some ==> cap->0.wf(),
            -2 * SHARE_LIMIT <= left <= 2 * SHARE_LIMIT,
            sizes@.len() == 3,
            out@ + rungs(
                bid as int,
                ask as int,
                cap,
                offset as int,
                sizes@,
                level as nat,
                left as int,
            ) == all,
        ensures
            out@ == all,
        decreases LEVELS - level,
    {
        let size: i128 = min(sizes[level] as i128 * MICRO as i128, left);
        if size < MIN_ORDER {
            assert(out@ + Seq::<Rung>::empty() =~= out@);
            break;
        }
        let price: i128 = round_cents(
            bid as i128 - (offset as i128 + level as i128) * CENT as i128,
        );
        let capped: bool = match cap {
            Some(c) => c.is_exceeded_by(price),
            None => false,
        };
        if price > CENT as i128 && price < ask as i128 && !capped {
            let ghost before = out@;
            let ghost rest = rungs(
                bid as int,
                ask as int,
                cap,
                offset as int,
                sizes@,
                level as nat + 1,
                left - size,
            );
            let rung: Rung = Rung { level, price, size };
            out.push(rung);
            left = left - size;
            assert(out@ + rest =~= before + (seq![rung] + rest));
        }
        level = level + 1;
        assert(level == LEVELS ==> out@ + Seq::<Rung>::empty() =~= out@);
    }
    out
}

/// The total size of a ladder.
pub open spec fn ladder_total(s: Seq<Rung>) -> int
    decreases s.len(),
{
    if s.len() == 0 {
        0
    } else {
        s[0].size + ladder_total(s.skip(1))
    }
}

/// Every rung of a ladder is an order that the venue takes and that rests: at
/// least five shares, in whole cents, above one cent, below the ask and within
/// the cap; and together they ask for no more than is wanted.
pub proof fn ladder_is_sound(
    bid: int,
    ask: int,
    cap: Option<RepairCap>,
    offset: int,
    sizes: Seq<u32>,
    level: nat,
    wanted: int,
)
    requires
        -MAX_AMOUNT <= bid <= MAX_AMOUNT,
        0 <= offset <= u32::MAX,
    ensures
        ({
            let all = rungs(bid, ask, cap, offset, sizes, level, wanted);
            &&& all.len() + level <= LEVELS || all.len() == 0
            &&& all.len() > 0 ==> ladder_total(all) <= wanted
            &&& forall|i: int|
                #![trigger all[i]]
                0 <= i < all.len() ==> {
                    &&& level <= all[i].level < LEVELS
                    &&& all[i].price == rung_price(bid, offset, all[i].level as int)
                    &&& (all[i].price as int) % (CENT as int) == 0
                    &&& restable(all[i].price as int, ask, cap)
                    &&& MIN_ORDER <= all[i].size <= sizes[all[i].level as int] * MICRO
                }
        }),
    decreases LEVELS - level,
{
    let all = rungs(bid, ask, cap, offset, sizes, level, wanted);
    let size = min_of(sizes[level as int] * MICRO, wanted);
    let price = rung_price(bid, offset, level as int);
    if level >= LEVELS || size < MIN_ORDER {
    } else if !restable(price, ask, cap) {
        ladder_is_sound(bid, ask, cap, offset, sizes, level + 1, wanted);
    } else {
        let rest = rungs(bid, ask, cap, offset, sizes, level + 1, wanted - size);
        ladder_is_sound(bid, ask, cap, offset, sizes, level + 1, wanted - size);
        let first = all[0];
        assert(all.skip(1) =~= rest);
        crate::fixed::rounding_is_nearest(bid - (offset + level) * CENT, CENT as int);
        assert(first.price == price);
        assert((first.price as int) % (CENT as int) == 0) by (nonlinear_arith)
            requires
                first.price == crate::fixed::rounded(bid - (offset + level) * CENT, CENT as int)
                    * CENT,
                CENT == 10_000,
        ;
        assert(ladder_total(all) == first.size + ladder_total(rest));
        assert(forall|i: int| 0 < i < all.len() ==> #[trigger] all[i] == rest[i - 1]);
    }
}

// ── The commands of a ladder ────────────────────────────────────

/// The bid of one rung. Where `cheap` is not given, a price below fifty cents
/// counts as cheap.
pub open spec fn rung_command(
    m: MarketView,
    side: Side,
    prefix: Seq<char>,
    rung: Rung,
    cheap: Option<bool>,
) -> CommandView {
    CommandView::PostMakerBid {
        market_slug: m.slug,
        token_id: m.token(side),
        side,
        price: rung.price,
        size: rung.size,
        post_only: true,
        ladder_key: prefix + nat_text(rung.level as nat),
        was_cheap: match cheap {
            Some(c) => c,
            None => rung.price < HALF,
        },
    }
}

/// The bids of a ladder.
pub open spec fn ladder_commands(
    m: MarketView,
    side: Side,
    prefix: Seq<char>,
    all: Seq<Rung>,
    cheap: Option<bool>,
) -> Seq<CommandView> {
    Seq::new(all.len(), |i: int| rung_command(m, side, prefix, all[i], cheap))
}

/// Appends the bids of a ladder.
pub fn post_ladder(
    market: &MarketDescriptor,
    side: Side,
    prefix: &str,
    all: &Vec<Rung>,
    cheap: Option<bool>,
    out: &mut Vec<ExecutionCommand>,
)
    ensures
        command_views(final(out)@) == command_views(old(out)@) + ladder_commands(
            market@,
            side,
            prefix@,
            all@,
            cheap,
        ),
{
    let ghost want = ladder_commands(market@, side, prefix@, all@, cheap);
    let mut i: usize = 0;
    assert(command_views(out@) =~= command_views(old(out)@) + want.take(0));
    while i < all.len()
        invariant
            i <= all@.len(),
            want == ladder_commands(market@, side, prefix@, all@, cheap),
            command_views(out@) == command_views(old(out)@) + want.take(i as int),
        decreases all@.len() - i,
    {
        let rung: Rung = all[i];
        let level: String = nat_string(rung.level as u128);
        let key: String = join(prefix, level.as_str());
        let was_cheap: bool = match cheap {
            Some(c) => c,
            None => rung.price < HALF,
        };
        let command: ExecutionCommand = ExecutionCommand::PostMakerBid {
            market_slug: market.slug.clone(),
            token_id: market.token(side),
            side,
            price: rung.price,
            size: rung.size,
            post_only: true,
            ladder_key: key,
            was_cheap,
        };
        let ghost before = out@;
        assert(command@ == want[i as int]);
        out.push(command);
        i = i + 1;
        assert(command_views(out@) =~= command_views(before).push(command@));
        assert(want.take(i as int) =~= want.take(i as int - 1).push(want[i as int - 1]));
        assert(command_views(out@) =~= command_views(old(out)@) + want.take(i as int));
    }
    assert(want.take(i as int) =~= want);
}

/// Whether a command is a bid that rests below an ask: post-only, in whole cents
/// above one cent, for at least five shares of the side's token.
pub open spec fn resting_bid(c: CommandView, m: MarketView, of: Side, ask: int) -> bool {
    match c {
        CommandView::PostMakerBid { token_id, side, price, size, post_only, .. } => {
            &&& side == of
            &&& token_id == m.token(of)
            &&& post_only
            &&& CENT < price < ask
            &&& price as int % (CENT as int) == 0
            &&& size >= MIN_ORDER
        },
        _ => false,
    }
}

/// The size that a command bids for on a side.
pub open spec fn bid_size(c: CommandView, of: Side) -> int {
    match c {
        CommandView::PostMakerBid { side, size, .. } => if side == of {
            size as int
        } else {
            0
        },
        _ => 0,
    }
}

/// The size that commands bid for on a side, together.
pub open spec fn bid_total(commands: Seq<CommandView>, of: Side) -> int
    decreases commands.len(),
{
    if commands.len() == 0 {
        0
    } else {
        bid_size(commands[0], of) + bid_total(commands.skip(1), of)
    }
}

/// The total of two runs of commands is the sum of their totals.
pub proof fn lemma_total_of_sum(a: Seq<CommandView>, b: Seq<CommandView>, of: Side)
    ensures
        bid_total(a + b, of) == bid_total(a, of) + bid_total(b, of),
    decreases a.len(),
{
    if a.len() == 0 {
        assert(a + b =~= b);
    } else {
        lemma_total_of_sum(a.skip(1), b, of);
        assert((a + b).skip(1) =~= a.skip(1) + b);
    }
}

proof fn lemma_total_of_ladder(
    m: MarketView,
    side: Side,
    prefix: Seq<char>,
    all: Seq<Rung>,
    cheap: Option<bool>,
    of: Side,
)
    ensures
        bid_total(ladder_commands(m, side, prefix, all, cheap), of) == if of == side {
            ladder_total(all)
        } else {
            0
        },
    decreases all.len(),
{
    let commands = ladder_commands(m, side, prefix, all, cheap);
    if all.len() > 0 {
        lemma_total_of_ladder(m, side, prefix, all.skip(1), cheap, of);
        assert(commands.skip(1) =~= ladder_commands(m, side, prefix, all.skip(1), cheap));
    }
}

/// The bids of a ladder rest below the ask, all on one side, and ask for no more
/// than is wanted.
pub proof fn lemma_ladder_bids(
    m: MarketView,
    side: Side,
    prefix: Seq<char>,
    bid: int,
    ask: int,
    cap: Option<RepairCap>,
    offset: int,
    sizes: Seq<u32>,
    wanted: int,
    cheap: Option<bool>,
)
    requires
        -MAX_AMOUNT <= bid <= MAX_AMOUNT,
        0 <= offset <= u32::MAX,
    ensures
        ({
            let commands = ladder_commands(
                m,
                side,
                prefix,
                rungs(bid, ask, cap, offset, sizes, 0, wanted),
                cheap,
            );
            &&& forall|i: int|
                0 <= i < commands.len() ==> resting_bid(#[trigger] commands[i], m, side, ask)
            &&& bid_total(commands, side) <= if wanted > 0 {
                wanted
            } else {
                0
            }
            &&& forall|of: Side| of != side ==> #[trigger] bid_total(commands, of) == 0
        }),
{
    let all = rungs(bid, ask, cap, offset, sizes, 0, wanted);
    ladder_is_sound(bid, ask, cap, offset, sizes, 0, wanted);
    let commands = ladder_commands(m, side, prefix, all, cheap);
    assert forall|i: int| 0 <= i < commands.len() implies resting_bid(
        #[trigger] commands[i],
        m,
        side,
        ask,
    ) by {
        assert(all[i].size >= MIN_ORDER);
    }
    lemma_total_of_ladder(m, side, prefix, all, cheap, side);
    assert forall|of: Side| of != side implies #[trigger] bid_total(commands, of) == 0 by {
        lemma_total_of_ladder(m, side, prefix, all, cheap, of);
    }
}

/// A bid may rest above a cent and below the ask. Where a side is to be repaired, a bid of
/// more than thirty cents may rest only where it and the average price of the shares held
/// come to the target at most.
pub proof fn resting_prices_keep_the_target(price: int, ask: int, cap: RepairCap)
    requires
        cap.wf(),
    ensures
        restable(price, ask, None) <==> 10_000 < price < ask,
        restable(price, ask, Some(cap)) <==> 10_000 < price < ask && (price <= 300_000 || price
            * cap.shares + cap.cost <= cap.target * cap.shares),
{
    let (p, t, n) = (price, cap.target as int, cap.shares as int);
    assert((p - t) * n == p * n - t * n) by (nonlinear_arith);
}

/// The first rung asks for its drawn size or for all that is wanted, if that is less; below
/// five shares there is no ladder.
pub proof fn ladders_start_with_what_is_wanted(
    bid: int,
    ask: int,
    cap: Option<RepairCap>,
    offset: int,
    sizes: Seq<u32>,
    wanted: int,
)
    requires
        sizes.len() == 3,
        -MAX_AMOUNT <= bid <= MAX_AMOUNT,
        0 <= offset <= u32::MAX,
    ensures
        ({
            let all = rungs(bid, ask, cap, offset, sizes, 0, wanted);
            let drawn = sizes[0] * 1_000_000;
            let size = if wanted < drawn {
                wanted
            } else {
                drawn
            };
            &&& size < 5_000_000 ==> all.len() == 0
            &&& size >= 5_000_000 && restable(rung_price(bid, offset, 0), ask, cap) ==> all.len() > 0
                && all[0].level == 0 && all[0].price == rung_price(bid, offset, 0) && all[0].size
                == size
        }),
{
    crate::fixed::cents_are_nearest(bid - offset * CENT);
}

/// A ladder has three rungs where enough is wanted and each can rest: a cent apart from
/// rung to rung, each of its drawn size.
pub proof fn ladders_have_three_rungs(
    bid: int,
    ask: int,
    cap: Option<RepairCap>,
    offset: int,
    sizes: Seq<u32>,
    wanted: int,
)
    requires
        sizes.len() == 3,
        sizes[0] >= 5,
        sizes[1] >= 5,
        sizes[2] >= 5,
        wanted >= (sizes[0] + sizes[1] + sizes[2]) * 1_000_000,
        -MAX_AMOUNT <= bid <= MAX_AMOUNT,
        0 <= offset <= u32::MAX,
        restable(rung_price(bid, offset, 0), ask, cap),
        restable(rung_price(bid, offset, 1), ask, cap),
        restable(rung_price(bid, offset, 2), ask, cap),
    ensures
        ({
            let all = rungs(bid, ask, cap, offset, sizes, 0, wanted);
            &&& all.len() == 3
            &&& forall|i: int|
                0 <= i < 3 ==> (#[trigger] all[i]).level == i && all[i].size == sizes[i] * 1_000_000
                    && all[i].price == rung_price(bid, offset, i)
        }),
{
    reveal_with_fuel(rungs, 4);
    crate::fixed::cents_are_nearest(bid - offset * CENT);
    crate::fixed::cents_are_nearest(bid - (offset + 1) * CENT);
    crate::fixed::cents_are_nearest(bid - (offset + 2) * CENT);
    let left1 = wanted - sizes[0] * MICRO;
    let left2 = left1 - sizes[1] * MICRO;
    let r2 = rungs(bid, ask, cap, offset, sizes, 2, left2);
    assert(rungs(bid, ask, cap, offset, sizes, 3, left2 - sizes[2] * MICRO) =~= Seq::empty());
    assert(r2.len() == 1);
    let r1 = rungs(bid, ask, cap, offset, sizes, 1, left1);
    assert(r1.len() == 2);
}

/// The rungs of a ladder stand whole cents below the bid: its offset and one more for each
/// level, in the nearest whole cents.
pub proof fn rungs_stand_below_the_bid(bid: int, offset: int, level: int)
    ensures
        rung_price(bid, offset, level) % 10_000 == 0,
        -5_000 <= rung_price(bid, offset, level) - (bid - (offset + level) * 10_000) <= 5_000,
{
    crate::fixed::cents_are_nearest(bid - (offset + level) * CENT);
}

/// Each rung becomes a post-only bid for its size at its price, for the token of the
/// ladder's side.
pub proof fn rungs_become_bids(
    m: MarketView,
    side: Side,
    prefix: Seq<char>,
    all: Seq<Rung>,
    cheap: Option<bool>,
    i: int,
)
    requires
        0 <= i < all.len(),
    ensures
        ladder_commands(m, side, prefix, all, cheap).len() == all.len(),
        ladder_commands(m, side, prefix, all, cheap)[i] == (CommandView::PostMakerBid {
            market_slug: m.slug,
            token_id: match side {
                Side::Up => m.up_token_id,
                Side::Down => m.down_token_id,
            },
            side,
            price: all[i].price,
            size: all[i].size,
            post_only: true,
            ladder_key: prefix + nat_text(all[i].level as nat),
            was_cheap: match cheap {
                Some(c) => c,
                None => all[i].price < 500_000,
            },
        }),
{
}

} // verus!
