//! Which of two price series leads the other.
//!
//! Returns count trillionths. The pairs of returns at each lag are exact; the
//! correlation of a lag's pairs is a matter for whoever prints it.

use vstd::prelude::*;

use crate::fixed::{amount_ok, div_round, magnitude, rounded};
use crate::text::join3;

verus! {

/// A price at a time.
#[derive(Debug, Clone)]
pub struct PricePoint {
    pub source: String,
    pub price: i64,
    pub source_ts_ms: i64,
    pub local_recv_us: i64,
}

/// The correlation at a lag, in millionths.
#[derive(Debug, Clone, Copy, PartialEq, Eq, Structural)]
pub struct LagResult {
    pub lag_ms: i64,
    pub correlation: i64,
    pub n_pairs: usize,
}

/// The pairs of returns at a lag.
pub struct LagPairs {
    pub lag_ms: i64,
    pub pairs: Vec<(i128, i128)>,
}

/// How far apart, in milliseconds, two paired returns may be.
pub const TOLERANCE_MS: i128 = 500;

/// The fewest pairs that a correlation is taken over.
pub const MIN_PAIRS: usize = 10;

/// The name of a recording.
pub fn recording_name(stamp: &str) -> (r: String)
    ensures
        r@ == "events_"@ + stamp@ + ".jsonl"@,
{
    join3("events_", stamp, ".jsonl")
}

// ── Returns ─────────────────────────────────────────────────────

/// A time in microseconds in whole milliseconds, rounded towards zero.
pub open spec fn millis(us: int) -> int {
    if us >= 0 {
        us / 1000
    } else {
        -((-us) / 1000)
    }
}

/// The relative change of a price, in trillionths.
pub open spec fn change(before: int, after: int) -> int {
    rounded((after - before) * 1_000_000_000_000, before)
}

/// The returns of the first `n` points: one for each point whose predecessor has
/// a positive price, at the time of its arrival.
pub open spec fn returns_of(points: Seq<PricePoint>, n: nat) -> Seq<(i64, i128)>
    decreases n,
{
    if n < 2 {
        Seq::empty()
    } else {
        let front = returns_of(points, (n - 1) as nat);
        if points[n - 2].price > 0 {
            front.push(
                (
                    millis(points[n - 1].local_recv_us as int) as i64,
                    change(points[n - 2].price as int, points[n - 1].price as int) as i128,
                ),
            )
        } else {
            front
        }
    }
}

/// Every price is within range.
pub open spec fn prices_ok(points: Seq<PricePoint>) -> bool {
    forall|i: int| 0 <= i < points.len() ==> amount_ok((#[trigger] points[i]).price as int)
}

fn to_millis(us: i64) -> (r: i64)
    ensures
        r == millis(us as int),
{
    let wide: i128 = us as i128;
    if wide >= 0 {
        (wide / 1000) as i64
    } else {
        let up: i128 = -wide;
        (-(up / 1000)) as i64
    }
}

/// The returns of a series.
pub fn to_returns(points: &[PricePoint]) -> (r: Vec<(i64, i128)>)
    requires
        prices_ok(points@),
    ensures
        r@ == returns_of(points@, points@.len()),
{
    let mut out: Vec<(i64, i128)> = Vec::new();
    let mut n: usize = 1;
    assert(out@ =~= Seq::empty());
    if points.len() < 2 {
        return out;
    }
    while n < points.len()
        invariant
            1 <= n <= points@.len(),
            prices_ok(points@),
            out@ == returns_of(points@, n as nat),
        decreases points@.len() - n,
    {
        let before: i64 = points[n - 1].price;
        let after: i64 = points[n].price;
        assert(amount_ok(points@[n as int - 1].price as int));
        assert(amount_ok(points@[n as int].price as int));
        if before > 0 {
            let d: i128 = (after as i128 - before as i128) * 1_000_000_000_000;
            proof {
                crate::fixed::lemma_quotient_bounds(d as int, before as int);
            }
            out.push((to_millis(points[n].local_recv_us), div_round(d, before as i128)));
        }
        n = n + 1;
    }
    out
}

// ── Pairing ─────────────────────────────────────────────────────

/// How far a time is from another.
pub open spec fn distance(ts: int, target: int) -> int {
    magnitude(ts - target)
}

/// The place from which the next is no closer to a target time, from a place on.
pub open spec fn closest_from(b: Seq<(i64, i128)>, from: nat, target: int) -> nat
    decreases b.len() - from,
{
    if from + 1 < b.len() && distance(b[from as int + 1].0 as int, target) < distance(
        b[from as int].0 as int,
        target,
    ) {
        closest_from(b, from + 1, target)
    } else {
        from
    }
}

/// The pairs of the first `n` returns of a series with those of another, a lag
/// later, and the place that the search has come to. A return is paired with the
/// closest one from the last place on, where that is within the tolerance.
pub open spec fn paired(a: Seq<(i64, i128)>, b: Seq<(i64, i128)>, lag_ms: int, n: nat) -> (
    Seq<(i128, i128)>,
    nat,
)
    decreases n,
{
    if n == 0 {
        (Seq::empty(), 0)
    } else {
        let (pairs, from) = paired(a, b, lag_ms, (n - 1) as nat);
        let wanted = a[n - 1].0 + lag_ms;
        let at = closest_from(b, from, wanted);
        if at < b.len() && distance(b[at as int].0 as int, wanted) <= TOLERANCE_MS {
            (pairs.push((a[n - 1].1, b[at as int].1)), at)
        } else {
            (pairs, at)
        }
    }
}

/// The pairs of two series at a lag.
pub open spec fn pairs_at(a: Seq<(i64, i128)>, b: Seq<(i64, i128)>, lag_ms: int) -> Seq<
    (i128, i128),
> {
    paired(a, b, lag_ms, a.len()).0
}

/// The times of a series do not go back.
pub open spec fn in_order(s: Seq<(i64, i128)>) -> bool {
    forall|i: int, j: int| 0 <= i <= j < s.len() ==> s[i].0 <= s[j].0
}

/// The times of a series go up from each return to the next.
pub open spec fn increasing(s: Seq<(i64, i128)>) -> bool {
    forall|i: int, j: int| 0 <= i < j < s.len() ==> s[i].0 < s[j].0
}

/// Whether a return lies within the tolerance of a time.
pub open spec fn has_neighbour(b: Seq<(i64, i128)>, wanted: int) -> bool {
    exists|j: int| 0 <= j < b.len() && distance((#[trigger] b[j]).0 as int, wanted) <= TOLERANCE_MS
}

/// Whether no return is closer to a time than the one at a place, and those before
/// it are all farther.
pub open spec fn is_closest(b: Seq<(i64, i128)>, at: int, wanted: int) -> bool {
    &&& 0 <= at < b.len()
    &&& forall|j: int|
        0 <= j < b.len() ==> distance(b[at].0 as int, wanted) <= distance(
            (#[trigger] b[j]).0 as int,
            wanted,
        )
    &&& farther_before(b, at, wanted)
}

/// Whether all returns before a place are farther from a time than the one there.
pub open spec fn farther_before(b: Seq<(i64, i128)>, at: int, wanted: int) -> bool {
    forall|j: int|
        0 <= j < at ==> distance(b[at].0 as int, wanted) < distance((#[trigger] b[j]).0 as int, wanted)
}

proof fn lemma_search_finds_closest(b: Seq<(i64, i128)>, from: nat, wanted: int)
    requires
        increasing(b),
        from < b.len(),
        farther_before(b, from as int, wanted),
    ensures
        is_closest(b, closest_from(b, from, wanted) as int, wanted),
    decreases b.len() - from,
{
    let here = b[from as int].0 as int;
    if from + 1 < b.len() && distance(b[from as int + 1].0 as int, wanted) < distance(here, wanted) {
        lemma_search_finds_closest(b, from + 1, wanted);
    } else {
        assert forall|j: int| 0 <= j < b.len() implies distance(here, wanted) <= distance(
            (#[trigger] b[j]).0 as int,
            wanted,
        ) by {
            if j > from {
                let next = b[from as int + 1].0 as int;
                assert(here < next);
                assert(next > wanted);
                assert(j == from + 1 || next < b[j].0);
            }
        }
    }
}

proof fn lemma_place_moves_on(a: Seq<(i64, i128)>, b: Seq<(i64, i128)>, lag_ms: int, n: nat)
    requires
        in_order(a),
        increasing(b),
        0 < n <= a.len(),
        b.len() > 0,
    ensures
        is_closest(b, paired(a, b, lag_ms, n).1 as int, a[n - 1].0 + lag_ms),
    decreases n,
{
    let from = paired(a, b, lag_ms, (n - 1) as nat).1;
    let wanted = a[n - 1].0 + lag_ms;
    if n > 1 {
        lemma_place_moves_on(a, b, lag_ms, (n - 1) as nat);
        let earlier = a[n - 2].0 + lag_ms;
        assert(earlier <= wanted);
        assert forall|j: int| 0 <= j < from implies distance(b[from as int].0 as int, wanted)
            < distance((#[trigger] b[j]).0 as int, wanted) by {
            assert(b[j].0 < b[from as int].0);
            assert(distance(b[from as int].0 as int, earlier) < distance(b[j].0 as int, earlier));
        }
    }
    lemma_search_finds_closest(b, from, wanted);
}

/// A return is paired exactly where some return of the other series lies within the
/// tolerance of its shifted time, and then with the closest one (the earlier, where
/// two are as close).
pub proof fn returns_meet_their_closest(
    a: Seq<(i64, i128)>,
    b: Seq<(i64, i128)>,
    lag_ms: int,
    n: nat,
)
    requires
        in_order(a),
        increasing(b),
        n < a.len(),
    ensures
        ({
            let wanted = a[n as int].0 + lag_ms;
            let before = paired(a, b, lag_ms, n).0;
            let after = paired(a, b, lag_ms, n + 1).0;
            if has_neighbour(b, wanted) {
                exists|at: int|
                    #[trigger] is_closest(b, at, wanted) && after == before.push(
                        (a[n as int].1, b[at].1),
                    )
            } else {
                after == before
            }
        }),
{
    let wanted = a[n as int].0 + lag_ms;
    if b.len() > 0 {
        lemma_place_moves_on(a, b, lag_ms, n + 1);
        let at = paired(a, b, lag_ms, n + 1).1 as int;
        assert(is_closest(b, at, wanted));
        if has_neighbour(b, wanted) {
            let j = choose|j: int|
                0 <= j < b.len() && distance((#[trigger] b[j]).0 as int, wanted) <= TOLERANCE_MS;
            assert(distance(b[at].0 as int, wanted) <= distance(b[j].0 as int, wanted));
        } else {
            assert(distance(b[at].0 as int, wanted) > TOLERANCE_MS);
        }
    }
}

/// How many of the first `n` returns have a return of the other series within the
/// tolerance of their shifted time.
pub open spec fn neighbours(a: Seq<(i64, i128)>, b: Seq<(i64, i128)>, lag_ms: int, n: nat) -> nat
    decreases n,
{
    if n == 0 {
        0
    } else {
        neighbours(a, b, lag_ms, (n - 1) as nat) + if has_neighbour(b, a[n - 1].0 + lag_ms) {
            1nat
        } else {
            0nat
        }
    }
}

/// There are as many pairs as returns with a neighbour.
pub proof fn every_neighbour_makes_a_pair(
    a: Seq<(i64, i128)>,
    b: Seq<(i64, i128)>,
    lag_ms: int,
    n: nat,
)
    requires
        in_order(a),
        increasing(b),
        n <= a.len(),
    ensures
        paired(a, b, lag_ms, n).0.len() == neighbours(a, b, lag_ms, n),
    decreases n,
{
    if n > 0 {
        every_neighbour_makes_a_pair(a, b, lag_ms, (n - 1) as nat);
        returns_meet_their_closest(a, b, lag_ms, (n - 1) as nat);
    }
}

fn gap(ts: i64, target: i128) -> (r: i128)
    requires
        -0x2_0000_0000_0000_0000 <= target <= 0x2_0000_0000_0000_0000,
    ensures
        r == distance(ts as int, target as int),
{
    crate::fixed::abs(ts as i128 - target)
}

/// The pairs of two series at a lag.
pub fn pair_returns(a: &[(i64, i128)], b: &[(i64, i128)], lag_ms: i64) -> (r: Vec<(i128, i128)>)
    ensures
        r@ == pairs_at(a@, b@, lag_ms as int),
        r@.len() <= a@.len(),
{
    let mut out: Vec<(i128, i128)> = Vec::new();
    let size: usize = b.len();
    let mut at: usize = 0;
    let mut n: usize = 0;
    assert(out@ =~= Seq::empty());
    while n < a.len()
        invariant
            n <= a@.len(),
            size == b@.len(),
            at == 0 || at < b@.len(),
            out@.len() <= n,
            (out@, at as nat) == paired(a@, b@, lag_ms as int, n as nat),
        decreases a@.len() - n,
    {
        let wanted: i128 = a[n].0 as i128 + lag_ms as i128;
        let ghost from = at as nat;
        while at < size && at + 1 < size && gap(b[at + 1].0, wanted) < gap(b[at].0, wanted)
            invariant
                size == b@.len(),
                at == 0 || at < b@.len(),
                -0x2_0000_0000_0000_0000 <= wanted <= 0x2_0000_0000_0000_0000,
                closest_from(b@, at as nat, wanted as int) == closest_from(
                    b@,
                    from,
                    wanted as int,
                ),
            decreases b@.len() - at,
        {
            at = at + 1;
        }
        assert(at as nat == closest_from(b@, from, wanted as int));
        if at < b.len() && gap(b[at].0, wanted) <= TOLERANCE_MS {
            out.push((a[n].1, b[at].1));
        }
        n = n + 1;
    }
    out
}

// ── Lags ────────────────────────────────────────────────────────

/// The pairs of two series at each lag from minus a limit to the limit, step by
/// step; none where a series has no return.
pub fn cross_correlate(
    series_a: &[PricePoint],
    series_b: &[PricePoint],
    max_lag_ms: i64,
    step_ms: i64,
) -> (r: Vec<LagPairs>)
    requires
        prices_ok(series_a@),
        prices_ok(series_b@),
        step_ms > 0,
        max_lag_ms > i64::MIN,
    ensures
        ({
            let a = returns_of(series_a@, series_a@.len());
            let b = returns_of(series_b@, series_b@.len());
            if a.len() == 0 || b.len() == 0 || max_lag_ms < 0 {
                r@.len() == 0
            } else {
                &&& r@.len() == (2 * max_lag_ms) as int / step_ms as int + 1
                &&& forall|i: int|
                    #![trigger r@[i]]
                    0 <= i < r@.len() ==> r@[i].lag_ms == -max_lag_ms + i * step_ms
                        && r@[i].pairs@ == pairs_at(a, b, r@[i].lag_ms as int)
            }
        }),
{
    let a: Vec<(i64, i128)> = to_returns(series_a);
    let b: Vec<(i64, i128)> = to_returns(series_b);
    let mut out: Vec<LagPairs> = Vec::new();
    if a.len() == 0 || b.len() == 0 {
        return out;
    }
    let mut lag: i128 = -(max_lag_ms as i128);
    while lag <= max_lag_ms as i128
        invariant
            step_ms > 0,
            max_lag_ms > i64::MIN,
            lag >= -max_lag_ms,
            lag <= max_lag_ms + step_ms || max_lag_ms < 0,
            lag == -max_lag_ms + out@.len() * step_ms,
            out@.len() > 0 ==> max_lag_ms >= 0 && -max_lag_ms + (out@.len() - 1) * step_ms
                <= max_lag_ms,
            forall|i: int|
                #![trigger out@[i]]
                0 <= i < out@.len() ==> out@[i].lag_ms == -max_lag_ms + i * step_ms
                    && out@[i].pairs@ == pairs_at(a@, b@, out@[i].lag_ms as int),
        decreases
                if lag <= max_lag_ms {
                    max_lag_ms - lag + 1
                } else {
                    0
                },
    {
        let pairs: Vec<(i128, i128)> = pair_returns(a.as_slice(), b.as_slice(), lag as i64);
        let ghost n = out@.len();
        out.push(LagPairs { lag_ms: lag as i64, pairs });
        assert((n + 1) * step_ms == n * step_ms + step_ms) by (nonlinear_arith);
        lag = lag + step_ms as i128;
    }
    proof {
        if max_lag_ms >= 0 {
            let n = out@.len() as int;
            let d = step_ms as int;
            let x = 2 * max_lag_ms as int;
            if n == 0 {
                assert(0 * d == 0);
            }
            assert(x - (n - 1) * d >= 0 && x - (n - 1) * d < d) by (nonlinear_arith)
                requires
                    n >= 1,
                    -max_lag_ms + (n - 1) * d <= max_lag_ms,
                    max_lag_ms < -max_lag_ms + n * d,
                    x == 2 * max_lag_ms,
            ;
            vstd::arithmetic::div_mod::lemma_fundamental_div_mod_converse(
                x,
                d,
                n - 1,
                x - (n - 1) * d,
            );
        }
    }
    out
}

/// Whether a lag has pairs enough for a correlation.
pub fn has_enough_pairs(n: usize) -> (r: bool)
    ensures
        r == (n >= MIN_PAIRS),
        r <==> n >= 10,
{
    n >= MIN_PAIRS
}

// ── The peak ────────────────────────────────────────────────────

/// The strongest correlation and its lag: the first of those with the largest
/// magnitude; zero at lag zero where none is above zero.
pub open spec fn peak_of(results: Seq<LagResult>) -> (i64, i64)
    decreases results.len(),
{
    if results.len() == 0 {
        (0, 0)
    } else {
        let before = peak_of(results.drop_last());
        let r = results.last();
        if magnitude(r.correlation as int) > magnitude(before.0 as int) {
            (r.correlation, r.lag_ms)
        } else {
            before
        }
    }
}

/// The strongest correlation and its lag.
pub fn find_peak(results: &[LagResult]) -> (r: (i64, i64))
    ensures
        r == peak_of(results@),
{
    let mut peak: (i64, i64) = (0, 0);
    let mut i: usize = 0;
    assert(results@.take(0) =~= Seq::empty());
    while i < results.len()
        invariant
            i <= results@.len(),
            peak == peak_of(results@.take(i as int)),
        decreases results@.len() - i,
    {
        let r: LagResult = results[i];
        if crate::fixed::abs(r.correlation as i128) > crate::fixed::abs(peak.0 as i128) {
            peak = (r.correlation, r.lag_ms);
        }
        i = i + 1;
        assert(results@.take(i as int).drop_last() =~= results@.take(i as int - 1));
    }
    assert(results@.take(i as int) =~= results@);
    peak
}

/// No correlation is stronger than the peak.
pub proof fn peak_is_strongest(results: Seq<LagResult>, i: int)
    requires
        0 <= i < results.len(),
    ensures
        magnitude(results[i].correlation as int) <= magnitude(peak_of(results).0 as int),
    decreases results.len(),
{
    if i < results.len() - 1 {
        peak_is_strongest(results.drop_last(), i);
        assert(results.drop_last()[i] == results[i]);
    }
}

/// Whether a correlation is marked in print: above three tenths.
pub fn is_marked(correlation: i64) -> (r: bool)
    ensures
        r == (magnitude(correlation as int) > 300_000),
        r <==> correlation > 300_000 || correlation < -300_000,
{
    crate::fixed::abs(correlation as i128) > 300_000
}

/// Which series leads.
#[derive(Debug, Clone, Copy, PartialEq, Eq, Structural)]
pub enum Leader {
    First,
    Second,
    Neither,
}

/// Which series a lag of the peak makes lead: the first at a positive lag.
pub open spec fn leader_at(lag_ms: int) -> Leader {
    if lag_ms > 0 {
        Leader::First
    } else if lag_ms < 0 {
        Leader::Second
    } else {
        Leader::Neither
    }
}

/// Which series leads, by the lag of the peak: the first at a positive lag.
pub fn leader(peak_lag_ms: i64) -> (r: Leader)
    ensures
        r == if peak_lag_ms > 0 {
            Leader::First
        } else if peak_lag_ms < 0 {
            Leader::Second
        } else {
            Leader::Neither
        },
        r == leader_at(peak_lag_ms as int),
{
    if peak_lag_ms > 0 {
        Leader::First
    } else if peak_lag_ms < 0 {
        Leader::Second
    } else {
        Leader::Neither
    }
}

// ── What the returns are ────────────────────────────────────────

/// A further point adds one return where the point before it has a positive price:
/// the change as a part of that price, in trillionths, at the new point's arrival
/// in milliseconds.
pub proof fn returns_are_changes(points: Seq<PricePoint>, n: nat)
    requires
        prices_ok(points),
        1 <= n < points.len(),
    ensures
        returns_of(points, 1).len() == 0,
        ({
            let before = points[n - 1].price as int;
            let after = points[n as int].price as int;
            let front = returns_of(points, n);
            let all = returns_of(points, n + 1);
            &&& before <= 0 ==> all == front
            &&& before > 0 ==> {
                &&& all.len() == front.len() + 1
                &&& all.drop_last() == front
                &&& -before <= 2 * (all.last().1 * before) - 2 * ((after - before)
                    * 1_000_000_000_000) <= before
                &&& points[n as int].local_recv_us >= 0 ==> all.last().0 * 1000
                    <= points[n as int].local_recv_us < all.last().0 * 1000 + 1000
            }
        }),
{
    let before = points[n - 1].price as int;
    let after = points[n as int].price as int;
    assert(amount_ok(points[n - 1].price as int));
    assert(amount_ok(points[n as int].price as int));
    let front = returns_of(points, n);
    let all = returns_of(points, n + 1);
    if before > 0 {
        let d = (after - before) * 1_000_000_000_000;
        crate::fixed::rounding_is_nearest(d, before);
        crate::fixed::lemma_quotient_bounds(d, before);
        assert(all.drop_last() =~= front);
    }
}

/// Two returns are paired only within half a second of each other, after the lag.
pub proof fn neighbours_are_within_half_a_second(b: Seq<(i64, i128)>, wanted: int)
    ensures
        has_neighbour(b, wanted) <==> exists|j: int|
            0 <= j < b.len() && wanted - 500 <= (#[trigger] b[j]).0 <= wanted + 500,
{
    if has_neighbour(b, wanted) {
        let j = choose|j: int|
            0 <= j < b.len() && distance((#[trigger] b[j]).0 as int, wanted) <= TOLERANCE_MS;
        assert(wanted - 500 <= b[j].0 <= wanted + 500);
    }
    if exists|j: int| 0 <= j < b.len() && wanted - 500 <= (#[trigger] b[j]).0 <= wanted + 500 {
        let j = choose|j: int|
            0 <= j < b.len() && wanted - 500 <= (#[trigger] b[j]).0 <= wanted + 500;
        assert(distance(b[j].0 as int, wanted) <= 500);
    }
}

/// The peak is one of the results, and no result before it is as strong; zero at
/// lag zero where every correlation is zero.
pub proof fn the_peak_is_the_first_strongest(results: Seq<LagResult>)
    ensures
        peak_of(results) == (0i64, 0i64) || exists|i: int|
            0 <= i < results.len() && (#[trigger] results[i]).correlation == peak_of(results).0
                && results[i].lag_ms == peak_of(results).1 && forall|j: int|
                0 <= j < i ==> magnitude((#[trigger] results[j]).correlation as int) < magnitude(
                    peak_of(results).0 as int,
                ),
    decreases results.len(),
{
    if results.len() > 0 {
        let front = results.drop_last();
        let before = peak_of(front);
        let n = results.len() - 1;
        assert(results[n] == results.last());
        if magnitude(results.last().correlation as int) > magnitude(before.0 as int) {
            assert forall|j: int| 0 <= j < n implies magnitude(
                (#[trigger] results[j]).correlation as int,
            ) < magnitude(peak_of(results).0 as int) by {
                assert(front[j] == results[j]);
                peak_is_strongest(front, j);
            }
        } else {
            the_peak_is_the_first_strongest(front);
            if before != (0i64, 0i64) {
                let i = choose|i: int|
                    0 <= i < front.len() && (#[trigger] front[i]).correlation == before.0
                        && front[i].lag_ms == before.1 && forall|j: int|
                        0 <= j < i ==> magnitude((#[trigger] front[j]).correlation as int)
                            < magnitude(before.0 as int);
                assert(results[i] == front[i]);
                assert forall|j: int| 0 <= j < i implies magnitude(
                    (#[trigger] results[j]).correlation as int,
                ) < magnitude(peak_of(results).0 as int) by {
                    assert(results[j] == front[j]);
                }
            }
        }
    }
}

/// The first series leads where the other has to be shifted back to meet it: at a
/// positive lag. With the series exchanged, and so the lag, the other one leads.
pub proof fn the_leader_turns_with_the_lag(lag_ms: int)
    ensures
        lag_ms > 0 ==> leader_at(lag_ms) == Leader::First && leader_at(-lag_ms) == Leader::Second,
        lag_ms == 0 ==> leader_at(lag_ms) == Leader::Neither,
{
}

/// Times are cut to whole milliseconds towards zero, on both sides of it.
pub proof fn milliseconds_are_cut_off(us: int)
    requires
        us >= 0,
    ensures
        millis(us) * 1000 <= us < millis(us) * 1000 + 1000,
        millis(-us) == -millis(us),
{
}

} // verus!
