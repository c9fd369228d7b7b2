//! The exchange's order book and its imbalance.

use vstd::prelude::*;

use crate::book::{levels_at, levels_ok, read_levels, LevelForm};
use crate::feeds::binance::{mid_of, midpoint};
use crate::fixed::{amount_ok, div_nearest, magnitude, quotient, MAX_AMOUNT, MICRO};
use crate::json::{json_of, parse_json, text_or, Json, JsonView};
use crate::market_ws::{amount_or_zero, get_amount_or_zero, get_signed_or_zero, signed_or_zero};
use crate::types::{
    BinanceBookTicker, BinanceBookTickerView, BinanceDepthUpdate, BinanceDepthUpdateView,
    ObiSignal, PriceLevel, RecordedEvent, RecordedEventView, RefPrice, RefPriceView, RefSource,
};

verus! {

/// An event of the exchange's feeds.
#[derive(Debug, Clone)]
pub enum BinanceEvent {
    Depth(BinanceDepthUpdate),
    BookTicker(BinanceBookTicker),
    Obi(ObiSignal),
    MidPrice(RefPrice),
    Raw(RecordedEvent),
}

pub ghost enum BinanceEventView {
    Depth(BinanceDepthUpdateView),
    BookTicker(BinanceBookTickerView),
    Obi(ObiSignal),
    MidPrice(RefPriceView),
    Raw(RecordedEventView),
}

impl View for BinanceEvent {
    type V = BinanceEventView;

    open spec fn view(&self) -> BinanceEventView {
        match self {
            BinanceEvent::Depth(x) => BinanceEventView::Depth(x@),
            BinanceEvent::BookTicker(x) => BinanceEventView::BookTicker(x@),
            BinanceEvent::Obi(x) => BinanceEventView::Obi(*x),
            BinanceEvent::MidPrice(x) => BinanceEventView::MidPrice(x@),
            BinanceEvent::Raw(x) => BinanceEventView::Raw(x@),
        }
    }
}

// ── Imbalance ───────────────────────────────────────────────────

/// The most levels whose weighted sizes are sure to fit in a number of 128 bits.
pub const MAX_LEVELS: usize = 40;

/// The sizes of the first `n` levels, each counting twice as much as the next.
pub open spec fn weighted_size(levels: Seq<PriceLevel>, n: nat) -> int
    decreases n,
{
    if n == 0 {
        0
    } else {
        2 * weighted_size(levels, (n - 1) as nat) + levels[n - 1].size
    }
}

/// The number of levels that both sides have, up to a limit.
pub open spec fn shared_levels(bids: Seq<PriceLevel>, asks: Seq<PriceLevel>, max_levels: nat) -> nat {
    let n = if bids.len() < asks.len() {
        bids.len()
    } else {
        asks.len()
    };
    if max_levels < n {
        max_levels
    } else {
        n
    }
}

/// The imbalance of a book: the difference of the weighted sizes over their sum;
/// zero where the sum is zero.
pub open spec fn obi_of(bids: Seq<PriceLevel>, asks: Seq<PriceLevel>, max_levels: nat) -> int {
    let n = shared_levels(bids, asks, max_levels);
    let b = weighted_size(bids, n);
    let a = weighted_size(asks, n);
    if b + a == 0 {
        0
    } else {
        quotient((b - a) * MICRO, b + a)
    }
}

/// `2^n - 1`.
spec fn span(n: nat) -> int
    decreases n,
{
    if n == 0 {
        0
    } else {
        2 * span((n - 1) as nat) + 1
    }
}

proof fn lemma_span_bound(n: nat)
    requires
        n <= 40,
    ensures
        0 <= span(n) <= 1_099_511_627_775,
    decreases 40 - n,
{
    if n < 40 {
        lemma_span_bound(n + 1);
        lemma_span_nonneg(n);
    } else {
        lemma_span_nonneg(40);
        assert(span(40) == 1_099_511_627_775) by {
            reveal_with_fuel(span, 42);
        }
    }
}

proof fn lemma_span_nonneg(n: nat)
    ensures
        span(n) >= 0,
    decreases n,
{
    if n > 0 {
        lemma_span_nonneg((n - 1) as nat);
    }
}

proof fn lemma_weighted_bound(levels: Seq<PriceLevel>, n: nat)
    requires
        n <= levels.len(),
        levels_ok(levels),
    ensures
        -(MAX_AMOUNT * span(n)) <= weighted_size(levels, n) <= MAX_AMOUNT * span(n),
    decreases n,
{
    if n > 0 {
        lemma_weighted_bound(levels, (n - 1) as nat);
        assert(amount_ok(levels[n - 1].size as int));
        assert(MAX_AMOUNT * span(n) == 2 * (MAX_AMOUNT * span((n - 1) as nat)) + MAX_AMOUNT)
            by (nonlinear_arith)
            requires
                span(n) == 2 * span((n - 1) as nat) + 1,
        ;
    } else {
        assert(MAX_AMOUNT * span(0) == 0);
    }
}

fn weigh(levels: &[PriceLevel], n: usize) -> (r: i128)
    requires
        n <= levels@.len(),
        n <= MAX_LEVELS,
        levels_ok(levels@),
    ensures
        r == weighted_size(levels@, n as nat),
        -4_000_000_000_000_000_000_000_000_000_000 <= r
            <= 4_000_000_000_000_000_000_000_000_000_000,
{
    let mut total: i128 = 0;
    let mut i: usize = 0;
    while i < n
        invariant
            i <= n,
            n <= levels@.len(),
            n <= MAX_LEVELS,
            levels_ok(levels@),
            total == weighted_size(levels@, i as nat),
            -4_000_000_000_000_000_000_000_000_000_000 <= total
                <= 4_000_000_000_000_000_000_000_000_000_000,
        decreases n - i,
    {
        assert(amount_ok(levels@[i as int].size as int));
        total = 2 * total + levels[i].size as i128;
        i = i + 1;
        proof {
            lemma_weighted_bound(levels@, i as nat);
            lemma_span_bound(i as nat);
            crate::fixed::lemma_product_bounds(
                MAX_AMOUNT as int,
                span(i as nat),
                MAX_AMOUNT as int,
                1_099_511_627_775,
            );
            assert(MAX_AMOUNT * 1_099_511_627_775int
                <= 4_000_000_000_000_000_000_000_000_000_000);
        }
    }
    total
}

/// No size is negative.
pub open spec fn no_negative_size(levels: Seq<PriceLevel>) -> bool {
    forall|i: int| 0 <= i < levels.len() ==> (#[trigger] levels[i]).size >= 0
}

proof fn lemma_weighted_nonneg(levels: Seq<PriceLevel>, n: nat)
    requires
        n <= levels.len(),
        no_negative_size(levels),
    ensures
        weighted_size(levels, n) >= 0,
    decreases n,
{
    if n > 0 {
        lemma_weighted_nonneg(levels, (n - 1) as nat);
        assert(levels[n - 1].size >= 0);
    }
}

/// A combination of the weighted sizes of both sides.
pub open spec fn mixed(bids: Seq<PriceLevel>, asks: Seq<PriceLevel>, n: nat, x: int, y: int) -> int {
    x * weighted_size(bids, n) + y * weighted_size(asks, n)
}

/// The largest magnitude of what one level adds to a combination.
pub const LEVEL_LIMIT: i128 = 30_000_000_000_000_000_000_000_000;

proof fn lemma_mixed_step(bids: Seq<PriceLevel>, asks: Seq<PriceLevel>, n: nat, x: int, y: int)
    requires
        n < bids.len(),
        n < asks.len(),
        levels_ok(bids),
        levels_ok(asks),
        -5_000_000 <= x <= 5_000_000,
        -5_000_000 <= y <= 5_000_000,
    ensures
        mixed(bids, asks, n + 1, x, y) == 2 * mixed(bids, asks, n, x, y) + (x * bids[n as int].size + y
            * asks[n as int].size),
        -LEVEL_LIMIT <= x * bids[n as int].size + y * asks[n as int].size <= LEVEL_LIMIT,
{
    let b = bids[n as int].size as int;
    let a = asks[n as int].size as int;
    let wb = weighted_size(bids, n);
    let wa = weighted_size(asks, n);
    assert(amount_ok(b));
    assert(amount_ok(a));
    assert(x * (2 * wb + b) + y * (2 * wa + a) == 2 * (x * wb + y * wa) + (x * b + y * a))
        by (nonlinear_arith);
    crate::fixed::lemma_product_bounds(x, b, 5_000_000, MAX_AMOUNT as int);
    crate::fixed::lemma_product_bounds(y, a, 5_000_000, MAX_AMOUNT as int);
}

/// Once a combination has outgrown what a level adds, its sign is settled.
proof fn lemma_sign_settles(
    bids: Seq<PriceLevel>,
    asks: Seq<PriceLevel>,
    i: nat,
    n: nat,
    x: int,
    y: int,
)
    requires
        i <= n <= bids.len(),
        n <= asks.len(),
        levels_ok(bids),
        levels_ok(asks),
        -5_000_000 <= x <= 5_000_000,
        -5_000_000 <= y <= 5_000_000,
    ensures
        mixed(bids, asks, i, x, y) >= LEVEL_LIMIT ==> mixed(bids, asks, n, x, y) >= LEVEL_LIMIT,
        mixed(bids, asks, i, x, y) <= -LEVEL_LIMIT ==> mixed(bids, asks, n, x, y) <= -LEVEL_LIMIT,
    decreases n - i,
{
    if i < n {
        lemma_mixed_step(bids, asks, i, x, y);
        lemma_sign_settles(bids, asks, i + 1, n, x, y);
    }
}

/// Whether a combination of the weighted sizes is not negative, for any number of
/// levels.
fn is_nonneg(bids: &[PriceLevel], asks: &[PriceLevel], n: usize, x: i128, y: i128) -> (r: bool)
    requires
        n <= bids@.len(),
        n <= asks@.len(),
        levels_ok(bids@),
        levels_ok(asks@),
        -5_000_000 <= x <= 5_000_000,
        -5_000_000 <= y <= 5_000_000,
    ensures
        r == (mixed(bids@, asks@, n as nat, x as int, y as int) >= 0),
{
    let mut total: i128 = 0;
    let mut i: usize = 0;
    assert(mixed(bids@, asks@, 0, x as int, y as int) == 0) by (nonlinear_arith)
        requires
            mixed(bids@, asks@, 0, x as int, y as int) == x * 0 + y * 0,
    ;
    while i < n
        invariant
            i <= n,
            n <= bids@.len(),
            n <= asks@.len(),
            levels_ok(bids@),
            levels_ok(asks@),
            -5_000_000 <= x <= 5_000_000,
            -5_000_000 <= y <= 5_000_000,
            total == mixed(bids@, asks@, i as nat, x as int, y as int),
            -4 * LEVEL_LIMIT <= total <= 4 * LEVEL_LIMIT,
        decreases n - i,
    {
        if total >= LEVEL_LIMIT || total <= -LEVEL_LIMIT {
            proof {
                lemma_sign_settles(bids@, asks@, i as nat, n as nat, x as int, y as int);
            }
            return total > 0;
        }
        proof {
            lemma_mixed_step(bids@, asks@, i as nat, x as int, y as int);
            assert(amount_ok(bids@[i as int].size as int));
            assert(amount_ok(asks@[i as int].size as int));
            crate::fixed::lemma_product_bounds(
                x as int,
                bids@[i as int].size as int,
                5_000_000,
                MAX_AMOUNT as int,
            );
            crate::fixed::lemma_product_bounds(
                y as int,
                asks@[i as int].size as int,
                5_000_000,
                MAX_AMOUNT as int,
            );
        }
        let step: i128 = x * bids[i].size as i128 + y * asks[i].size as i128;
        total = 2 * total + step;
        i = i + 1;
    }
    total >= 0
}

/// The imbalance of sides of which the first weighs no less than the second, by
/// bisection.
fn bisect_obi(bids: &[PriceLevel], asks: &[PriceLevel], n: usize) -> (r: i128)
    requires
        n <= bids@.len(),
        n <= asks@.len(),
        levels_ok(bids@),
        levels_ok(asks@),
        weighted_size(bids@, n as nat) >= weighted_size(asks@, n as nat) >= 0,
        weighted_size(bids@, n as nat) + weighted_size(asks@, n as nat) > 0,
    ensures
        ({
            let b = weighted_size(bids@, n as nat);
            let a = weighted_size(asks@, n as nat);
            r == quotient((b - a) * MICRO, b + a)
        }),
        0 <= r <= MICRO,
{
    let ghost b = weighted_size(bids@, n as nat);
    let ghost a = weighted_size(asks@, n as nat);
    let ghost d = b + a;
    let ghost x = (b - a) * MICRO;
    let mut lo: i128 = 0;
    let mut hi: i128 = 1_000_001;
    proof {
        assert(2 * (0 * d) <= 2 * x + d) by (nonlinear_arith)
            requires
                d > 0,
                x == (b - a) * MICRO,
                b >= a,
                MICRO == 1_000_000,
        ;
        assert(2 * x + d < 2 * (1_000_001 * d)) by (nonlinear_arith)
            requires
                d == b + a,
                x == (b - a) * MICRO,
                d > 0,
                a >= 0,
                MICRO == 1_000_000,
        ;
    }
    while hi - lo > 1
        invariant
            n <= bids@.len(),
            n <= asks@.len(),
            levels_ok(bids@),
            levels_ok(asks@),
            b == weighted_size(bids@, n as nat),
            a == weighted_size(asks@, n as nat),
            d == b + a,
            x == (b - a) * MICRO,
            0 <= lo < hi <= 1_000_001,
            2 * (lo * d) <= 2 * x + d,
            2 * x + d < 2 * (hi * d),
        decreases hi - lo,
    {
        let mid: i128 = (lo + hi) / 2;
        let p: i128 = 2_000_001 - 2 * mid;
        let q: i128 = -1_999_999 - 2 * mid;
        proof {
            assert(p * b + q * a == 2 * x + d - 2 * (mid * d)) by (nonlinear_arith)
                requires
                    p == 2_000_001 - 2 * mid,
                    q == -1_999_999 - 2 * mid,
                    d == b + a,
                    x == (b - a) * MICRO,
                    MICRO == 1_000_000,
            ;
        }
        if is_nonneg(bids, asks, n, p, q) {
            lo = mid;
        } else {
            hi = mid;
        }
    }
    proof {
        assert(hi == lo + 1);
        let top = 2 * x + d;
        let rest = top - lo * (2 * d);
        assert(0 <= rest < 2 * d) by (nonlinear_arith)
            requires
                rest == top - lo * (2 * d),
                2 * (lo * d) <= top,
                top < 2 * (hi * d),
                hi == lo + 1,
        ;
        vstd::arithmetic::div_mod::lemma_fundamental_div_mod_converse(
            top,
            2 * d,
            lo as int,
            rest,
        );
        assert(x >= 0) by (nonlinear_arith)
            requires
                x == (b - a) * MICRO,
                b >= a,
                MICRO == 1_000_000,
        ;
    }
    lo
}

/// Whether an imbalance can be told: over up to forty levels always, over more
/// where no counted size is negative. With negative sizes the sum of the sides
/// may all but cancel, and the quotient outgrow every number.
pub open spec fn obi_can_be_told(bids: Seq<PriceLevel>, asks: Seq<PriceLevel>, max_levels: nat) -> bool {
    let n = shared_levels(bids, asks, max_levels);
    n <= MAX_LEVELS || (no_negative_size(bids.take(n as int)) && no_negative_size(
        asks.take(n as int),
    ))
}

/// The imbalance of a book, over the levels that both sides have, up to a limit.
/// Level by level the weight halves.
pub fn compute_obi(bids: &[PriceLevel], asks: &[PriceLevel], max_levels: usize) -> (r: i128)
    requires
        levels_ok(bids@),
        levels_ok(asks@),
        obi_can_be_told(bids@, asks@, max_levels as nat),
    ensures
        r == obi_of(bids@, asks@, max_levels as nat),
        no_negative_size(bids@) && no_negative_size(asks@) ==> -MICRO <= r <= MICRO,
{
    proof {
        if no_negative_size(bids@) && no_negative_size(asks@) {
            obi_is_bounded(bids@, asks@, max_levels as nat);
        }
    }
    let shorter: usize = if bids.len() < asks.len() {
        bids.len()
    } else {
        asks.len()
    };
    let n: usize = if max_levels < shorter {
        max_levels
    } else {
        shorter
    };
    if n <= MAX_LEVELS {
        let b: i128 = weigh(bids, n);
        let a: i128 = weigh(asks, n);
        let total: i128 = b + a;
        if total == 0 {
            return 0;
        }
        let d: i128 = b - a;
        assert(-8_000_000_000_000_000_000_000_000_000_000_000_000 <= d * 1_000_000
            <= 8_000_000_000_000_000_000_000_000_000_000_000_000);
        return div_nearest(d * MICRO as i128, total);
    }
    let ghost b = weighted_size(bids@, n as nat);
    let ghost a = weighted_size(asks@, n as nat);
    proof {
        lemma_counted_nonneg(bids@, n as nat);
        lemma_counted_nonneg(asks@, n as nat);
        assert(mixed(bids@, asks@, n as nat, -1, -1) == -(b + a)) by (nonlinear_arith)
            requires
                mixed(bids@, asks@, n as nat, -1, -1) == (-1) * b + (-1) * a,
        ;
        assert(mixed(bids@, asks@, n as nat, 1, -1) == b - a) by (nonlinear_arith)
            requires
                mixed(bids@, asks@, n as nat, 1, -1) == 1 * b + (-1) * a,
        ;
    }
    if is_nonneg(bids, asks, n, -1, -1) {
        return 0;
    }
    if is_nonneg(bids, asks, n, 1, -1) {
        bisect_obi(bids, asks, n)
    } else {
        let r: i128 = bisect_obi(asks, bids, n);
        proof {
            obi_is_antisymmetric(bids@, asks@, max_levels as nat);
        }
        -r
    }
}

proof fn lemma_counted_nonneg(levels: Seq<PriceLevel>, n: nat)
    requires
        n <= levels.len(),
        no_negative_size(levels.take(n as int)),
    ensures
        weighted_size(levels, n) >= 0,
{
    lemma_weighted_nonneg(levels.take(n as int), n);
    lemma_weighted_of_front(levels, levels.take(n as int), n);
}

proof fn lemma_weighted_of_front(levels: Seq<PriceLevel>, other: Seq<PriceLevel>, n: nat)
    requires
        n <= levels.len(),
        n <= other.len(),
        forall|i: int| 0 <= i < n ==> (#[trigger] levels[i]).size == other[i].size,
    ensures
        weighted_size(levels, n) == weighted_size(other, n),
    decreases n,
{
    if n > 0 {
        lemma_weighted_of_front(levels, other, (n - 1) as nat);
        assert(levels[n - 1].size == other[n - 1].size);
    }
}

/// Only the counted sizes matter: prices, and levels beyond those that both sides
/// have or beyond the limit, have no influence.
pub proof fn only_counted_sizes_matter(
    bids: Seq<PriceLevel>,
    asks: Seq<PriceLevel>,
    other_bids: Seq<PriceLevel>,
    other_asks: Seq<PriceLevel>,
    max_levels: nat,
)
    requires
        shared_levels(bids, asks, max_levels) == shared_levels(other_bids, other_asks, max_levels),
        forall|i: int|
            0 <= i < shared_levels(bids, asks, max_levels) ==> (#[trigger] bids[i]).size
                == other_bids[i].size,
        forall|i: int|
            0 <= i < shared_levels(bids, asks, max_levels) ==> (#[trigger] asks[i]).size
                == other_asks[i].size,
    ensures
        obi_of(bids, asks, max_levels) == obi_of(other_bids, other_asks, max_levels),
{
    let n = shared_levels(bids, asks, max_levels);
    lemma_weighted_of_front(bids, other_bids, n);
    lemma_weighted_of_front(asks, other_asks, n);
}

/// Without a counted level, or with counted sizes of zero alone, the imbalance is
/// zero.
pub proof fn empty_books_are_balanced(bids: Seq<PriceLevel>, asks: Seq<PriceLevel>, max_levels: nat)
    requires
        forall|i: int|
            0 <= i < shared_levels(bids, asks, max_levels) ==> (#[trigger] bids[i]).size == 0,
        forall|i: int|
            0 <= i < shared_levels(bids, asks, max_levels) ==> (#[trigger] asks[i]).size == 0,
    ensures
        obi_of(bids, asks, max_levels) == 0,
{
    let n = shared_levels(bids, asks, max_levels);
    lemma_weighted_zero(bids, n);
    lemma_weighted_zero(asks, n);
}

proof fn lemma_weighted_zero(levels: Seq<PriceLevel>, n: nat)
    requires
        n <= levels.len(),
        forall|i: int| 0 <= i < n ==> (#[trigger] levels[i]).size == 0,
    ensures
        weighted_size(levels, n) == 0,
    decreases n,
{
    if n > 0 {
        lemma_weighted_zero(levels, (n - 1) as nat);
        assert(levels[n - 1].size == 0);
    }
}

/// The imbalance of a book without negative sizes is between minus one and one.
pub proof fn obi_is_bounded(bids: Seq<PriceLevel>, asks: Seq<PriceLevel>, max_levels: nat)
    requires
        no_negative_size(bids),
        no_negative_size(asks),
    ensures
        -MICRO <= obi_of(bids, asks, max_levels) <= MICRO,
{
    let n = shared_levels(bids, asks, max_levels);
    lemma_weighted_nonneg(bids, n);
    lemma_weighted_nonneg(asks, n);
    let b = weighted_size(bids, n);
    let a = weighted_size(asks, n);
    if b + a != 0 {
        assert(-MICRO * (b + a) <= (b - a) * MICRO <= MICRO * (b + a)) by (nonlinear_arith)
            requires
                b >= 0,
                a >= 0,
                MICRO >= 0,
        ;
        crate::fixed::rounding_keeps_bounds((b - a) * MICRO, b + a, -MICRO as int, MICRO as int);
    }
}

/// With the sides exchanged the imbalance is the opposite.
pub proof fn obi_is_antisymmetric(bids: Seq<PriceLevel>, asks: Seq<PriceLevel>, max_levels: nat)
    ensures
        obi_of(asks, bids, max_levels) == -obi_of(bids, asks, max_levels),
{
    let n = shared_levels(bids, asks, max_levels);
    let b = weighted_size(bids, n);
    let a = weighted_size(asks, n);
    let total = b + a;
    if total != 0 {
        let x = (b - a) * MICRO;
        assert((a - b) * MICRO == -x) by (nonlinear_arith)
            requires
                x == (b - a) * MICRO,
        ;
        crate::fixed::rounding_is_odd(x, magnitude(total));
        crate::fixed::rounding_is_odd(-x, magnitude(total));
    }
}

// ── Messages ────────────────────────────────────────────────────

/// A number without a sign under a key, none counting as zero.
pub open spec fn unsigned_or_zero(v: JsonView, key: Seq<char>) -> u64 {
    match v.field_unsigned(key) {
        Some(n) => n,
        None => 0,
    }
}

fn get_unsigned_or_zero(v: &Json, key: &str) -> (r: u64)
    ensures
        r == unsigned_or_zero(v@, key@),
{
    match v.get_u64(key) {
        Some(n) => n,
        None => 0,
    }
}

/// The book in a message.
pub open spec fn depth_in(v: JsonView, local_recv_us: i64) -> BinanceDepthUpdateView {
    BinanceDepthUpdateView {
        event_time: signed_or_zero(v, "E"@),
        transaction_time: signed_or_zero(v, "T"@),
        first_update_id: unsigned_or_zero(v, "U"@),
        last_update_id: unsigned_or_zero(v, "u"@),
        bids: levels_at(v, "b"@, LevelForm::Pair),
        asks: levels_at(v, "a"@, LevelForm::Pair),
        local_recv_ts: local_recv_us,
    }
}

/// The best bid and ask in a message.
pub open spec fn ticker_in(v: JsonView, local_recv_us: i64) -> BinanceBookTickerView {
    BinanceBookTickerView {
        symbol: text_or(v.field_text("s"@), ""@),
        best_bid: amount_or_zero(v, "b"@),
        best_bid_qty: amount_or_zero(v, "B"@),
        best_ask: amount_or_zero(v, "a"@),
        best_ask_qty: amount_or_zero(v, "A"@),
        event_time: signed_or_zero(v, "E"@),
        transaction_time: signed_or_zero(v, "T"@),
        local_recv_ts: local_recv_us,
    }
}

/// Reads the book in a message's value.
pub fn read_depth(v: &Json, local_recv_us: i64) -> (r: BinanceDepthUpdate)
    ensures
        r@ == depth_in(v@, local_recv_us),
        levels_ok(r.bids@),
        levels_ok(r.asks@),
{
    BinanceDepthUpdate {
        event_time: get_signed_or_zero(v, "E"),
        transaction_time: get_signed_or_zero(v, "T"),
        first_update_id: get_unsigned_or_zero(v, "U"),
        last_update_id: get_unsigned_or_zero(v, "u"),
        bids: read_levels(v, "b", LevelForm::Pair),
        asks: read_levels(v, "a", LevelForm::Pair),
        local_recv_ts: local_recv_us,
    }
}

/// Reads the best bid and ask in a message's value.
pub fn read_ticker(v: &Json, local_recv_us: i64) -> (r: BinanceBookTicker)
    ensures
        r@ == ticker_in(v@, local_recv_us),
        amount_ok(r.best_bid as int),
        amount_ok(r.best_ask as int),
{
    BinanceBookTicker {
        symbol: v.get_str_or("s", ""),
        best_bid: get_amount_or_zero(v, "b"),
        best_bid_qty: get_amount_or_zero(v, "B"),
        best_ask: get_amount_or_zero(v, "a"),
        best_ask_qty: get_amount_or_zero(v, "A"),
        event_time: get_signed_or_zero(v, "E"),
        transaction_time: get_signed_or_zero(v, "T"),
        local_recv_ts: local_recv_us,
    }
}

/// Reads a message of the depth feed.
pub fn parse_depth(text: &str, local_recv_us: i64) -> (r: Result<BinanceDepthUpdate, String>)
    ensures
        match json_of(text@) {
            Ok(v) => r matches Ok(d) && d@ == depth_in(v, local_recv_us) && levels_ok(d.bids@)
                && levels_ok(d.asks@),
            Err(e) => r matches Err(m) && m@ == e,
        },
{
    match parse_json(text) {
        Ok(v) => Ok(read_depth(&v, local_recv_us)),
        Err(e) => Err(e),
    }
}

/// Reads a message of the ticker feed.
pub fn parse_bookticker(text: &str, local_recv_us: i64) -> (r: Result<BinanceBookTicker, String>)
    ensures
        match json_of(text@) {
            Ok(v) => r matches Ok(t) && t@ == ticker_in(v, local_recv_us) && amount_ok(
                t.best_bid as int,
            ) && amount_ok(t.best_ask as int),
            Err(e) => r matches Err(m) && m@ == e,
        },
{
    match parse_json(text) {
        Ok(v) => Ok(read_ticker(&v, local_recv_us)),
        Err(e) => Err(e),
    }
}

// ── Events ──────────────────────────────────────────────────────

/// The imbalance and the mid of a book.
pub open spec fn depth_signals(d: BinanceDepthUpdateView, local_recv_us: i64) -> (
    ObiSignal,
    Option<RefPriceView>,
) {
    (
        ObiSignal {
            value: obi_of(d.bids, d.asks, 10) as i128,
            levels_used: shared_levels(d.bids, d.asks, 10) as usize,
            timestamp: d.event_time,
            local_ts: local_recv_us,
        },
        if d.bids.len() > 0 && d.asks.len() > 0 {
            Some(
                RefPriceView {
                    source: RefSource::BinanceDepth,
                    symbol: "btcusdt"@,
                    price: midpoint(d.bids[0].price as int, d.asks[0].price as int) as i64,
                    timestamp: d.event_time,
                    local_recv_ts: local_recv_us,
                },
            )
        } else {
            None
        },
    )
}

/// The views of a run of events.
pub open spec fn event_views(events: Seq<BinanceEvent>) -> Seq<BinanceEventView> {
    events.map_values(|e: BinanceEvent| e@)
}

/// The events of a book: its imbalance, its mid where both sides have a level,
/// and the book.
pub open spec fn depth_events(d: BinanceDepthUpdateView, local_recv_us: i64) -> Seq<
    BinanceEventView,
> {
    let (obi, mid) = depth_signals(d, local_recv_us);
    match mid {
        Some(p) => seq![
            BinanceEventView::Obi(obi),
            BinanceEventView::MidPrice(p),
            BinanceEventView::Depth(d),
        ],
        None => seq![BinanceEventView::Obi(obi), BinanceEventView::Depth(d)],
    }
}

/// The events of best prices: their mid, and the prices.
pub open spec fn ticker_events(t: BinanceBookTickerView, local_recv_us: i64) -> Seq<
    BinanceEventView,
> {
    seq![
        BinanceEventView::MidPrice(
            RefPriceView {
                source: RefSource::BinanceBookTicker,
                symbol: "btcusdt"@,
                price: midpoint(t.best_bid as int, t.best_ask as int) as i64,
                timestamp: t.transaction_time,
                local_recv_ts: local_recv_us,
            },
        ),
        BinanceEventView::BookTicker(t),
    ]
}

/// The events of a book.
pub fn on_depth(d: BinanceDepthUpdate, local_recv_us: i64) -> (r: Vec<BinanceEvent>)
    requires
        levels_ok(d.bids@),
        levels_ok(d.asks@),
    ensures
        event_views(r@) == depth_events(d@, local_recv_us),
{
    let ghost view = d@;
    let mut out: Vec<BinanceEvent> = Vec::new();
    let value: i128 = compute_obi(d.bids.as_slice(), d.asks.as_slice(), 10);
    let shorter: usize = if d.bids.len() < d.asks.len() {
        d.bids.len()
    } else {
        d.asks.len()
    };
    let levels_used: usize = if 10 < shorter {
        10
    } else {
        shorter
    };
    out.push(
        BinanceEvent::Obi(
            ObiSignal {
                value,
                levels_used,
                timestamp: d.event_time,
                local_ts: local_recv_us,
            },
        ),
    );
    if d.bids.len() > 0 && d.asks.len() > 0 {
        assert(amount_ok(d.bids@[0].price as int));
        assert(amount_ok(d.asks@[0].price as int));
        out.push(
            BinanceEvent::MidPrice(
                RefPrice {
                    source: RefSource::BinanceDepth,
                    symbol: "btcusdt".to_owned(),
                    price: mid_of(d.bids[0].price, d.asks[0].price),
                    timestamp: d.event_time,
                    local_recv_ts: local_recv_us,
                },
            ),
        );
    }
    out.push(BinanceEvent::Depth(d));
    assert(event_views(out@) =~= depth_events(view, local_recv_us));
    out
}

/// The events of best prices.
pub fn on_ticker(t: BinanceBookTicker, local_recv_us: i64) -> (r: Vec<BinanceEvent>)
    requires
        amount_ok(t.best_bid as int),
        amount_ok(t.best_ask as int),
    ensures
        event_views(r@) == ticker_events(t@, local_recv_us),
{
    let ghost view = t@;
    let mut out: Vec<BinanceEvent> = Vec::new();
    out.push(
        BinanceEvent::MidPrice(
            RefPrice {
                source: RefSource::BinanceBookTicker,
                symbol: "btcusdt".to_owned(),
                price: mid_of(t.best_bid, t.best_ask),
                timestamp: t.transaction_time,
                local_recv_ts: local_recv_us,
            },
        ),
    );
    out.push(BinanceEvent::BookTicker(t));
    assert(event_views(out@) =~= ticker_events(view, local_recv_us));
    out
}

/// A message for the recording.
pub fn raw_event(text: &str, event_type: &str, local_recv_us: i64) -> (r: BinanceEvent)
    ensures
        r@ == BinanceEventView::Raw(
            RecordedEventView {
                local_recv_us,
                source: "binance_l2"@,
                event_type: event_type@,
                raw_json: text@,
            },
        ),
{
    BinanceEvent::Raw(crate::types::recorded(local_recv_us, "binance_l2", event_type, text))
}

// ── What books and prices lead to ───────────────────────────────

/// With one level on each side the imbalance is the difference of its sizes over
/// their sum, and with two the first level weighs twice as much as the second.
pub proof fn first_levels_weigh_most(bids: Seq<PriceLevel>, asks: Seq<PriceLevel>, max_levels: nat)
    requires
        no_negative_size(bids),
        no_negative_size(asks),
    ensures
        ({
            let obi = obi_of(bids, asks, max_levels);
            &&& shared_levels(bids, asks, max_levels) == 1 ==> {
                let (b, a) = (bids[0].size as int, asks[0].size as int);
                b + a > 0 ==> -(b + a) <= 2 * (obi * (b + a)) - 2 * ((b - a) * 1_000_000) <= b + a
            }
            &&& shared_levels(bids, asks, max_levels) == 2 ==> {
                let b = 2 * bids[0].size + bids[1].size;
                let a = 2 * asks[0].size + asks[1].size;
                b + a > 0 ==> -(b + a) <= 2 * (obi * (b + a)) - 2 * ((b - a) * 1_000_000) <= b + a
            }
        }),
{
    reveal_with_fuel(weighted_size, 4);
    let n = shared_levels(bids, asks, max_levels);
    if n == 1 || n == 2 {
        assert(bids[0].size >= 0 && asks[0].size >= 0);
        let b = weighted_size(bids, n);
        let a = weighted_size(asks, n);
        if b + a > 0 {
            crate::fixed::rounding_is_nearest((b - a) * 1_000_000, b + a);
        }
    }
}

/// A size alone on the bids tips the imbalance wholly up, at whatever counted
/// level it stands, and one alone on the asks wholly down.
pub proof fn lone_sizes_tip_the_book(
    bids: Seq<PriceLevel>,
    asks: Seq<PriceLevel>,
    max_levels: nat,
    k: int,
)
    requires
        no_negative_size(bids),
        no_negative_size(asks),
        0 <= k < shared_levels(bids, asks, max_levels),
        bids[k].size > 0,
        forall|i: int|
            0 <= i < shared_levels(bids, asks, max_levels) ==> (#[trigger] asks[i]).size == 0,
    ensures
        obi_of(bids, asks, max_levels) == 1_000_000,
        obi_of(asks, bids, max_levels) == -1_000_000,
{
    let n = shared_levels(bids, asks, max_levels);
    lemma_weighted_zero(asks, n);
    lemma_positive_weight(bids, n, k);
    let b = weighted_size(bids, n);
    assert((b - 0) * 1_000_000 == 1_000_000 * (b + 0)) by (nonlinear_arith);
    crate::fixed::rounding_keeps_bounds(b * 1_000_000, b, 1_000_000, 1_000_000);
    obi_is_antisymmetric(bids, asks, max_levels);
}

proof fn lemma_positive_weight(levels: Seq<PriceLevel>, n: nat, k: int)
    requires
        no_negative_size(levels),
        0 <= k < n <= levels.len(),
        levels[k].size > 0,
    ensures
        weighted_size(levels, n) > 0,
    decreases n,
{
    lemma_weighted_nonneg(levels, (n - 1) as nat);
    assert(levels[n - 1].size >= 0);
    if k < n - 1 {
        lemma_positive_weight(levels, (n - 1) as nat, k);
    }
}

/// A book's imbalance is taken over up to ten levels that both sides have, and its
/// mid is half way between its first bid and its first ask, both at the event's
/// time.
pub proof fn books_are_told_at_their_time(d: BinanceDepthUpdateView, local_recv_us: i64)
    requires
        levels_ok(d.bids),
        levels_ok(d.asks),
    ensures
        ({
            let (obi, mid) = depth_signals(d, local_recv_us);
            &&& obi.timestamp == d.event_time
            &&& obi.local_ts == local_recv_us
            &&& obi.value == obi_of(d.bids, d.asks, 10) as i128
            &&& obi.levels_used <= 10 && obi.levels_used <= d.bids.len() && obi.levels_used
                <= d.asks.len()
            &&& obi.levels_used == 10 || obi.levels_used == d.bids.len() || obi.levels_used
                == d.asks.len()
            &&& mid is Some <==> d.bids.len() > 0 && d.asks.len() > 0
            &&& mid matches Some(p) ==> {
                &&& -1 <= 2 * p.price - (d.bids[0].price + d.asks[0].price) <= 1
                &&& p.timestamp == d.event_time
                &&& p.local_recv_ts == local_recv_us
                &&& p.source == RefSource::BinanceDepth
                &&& p.symbol == "btcusdt"@
            }
        }),
{
    if d.bids.len() > 0 && d.asks.len() > 0 {
        assert(amount_ok(d.bids[0].price as int));
        assert(amount_ok(d.asks[0].price as int));
        let x = d.bids[0].price + d.asks[0].price;
        crate::fixed::rounding_is_nearest(x, 2);
    }
}

/// The events of best prices: first their mid, half way between them at the time of
/// the transaction, then the prices.
pub proof fn tickers_give_their_mid(t: BinanceBookTickerView, local_recv_us: i64)
    requires
        amount_ok(t.best_bid as int),
        amount_ok(t.best_ask as int),
    ensures
        ({
            let events = ticker_events(t, local_recv_us);
            &&& events.len() == 2
            &&& events[1] == BinanceEventView::BookTicker(t)
            &&& events[0] is MidPrice
            &&& -1 <= 2 * events[0]->MidPrice_0.price - (t.best_bid + t.best_ask) <= 1
            &&& events[0]->MidPrice_0.timestamp == t.transaction_time
            &&& events[0]->MidPrice_0.local_recv_ts == local_recv_us
            &&& events[0]->MidPrice_0.source == RefSource::BinanceBookTicker
            &&& events[0]->MidPrice_0.symbol == "btcusdt"@
        }),
{
    crate::fixed::rounding_is_nearest(t.best_bid + t.best_ask, 2);
}

} // verus!
