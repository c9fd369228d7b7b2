//! The signal engine: from ticks and books to directional signals.
//!
//! Features: a weighted stack of fast returns, the two-second return, the basis
//! over the oracle without its slow average, the slope of the basis, and the
//! smoothed imbalance of the book.

use std::collections::VecDeque;

use vstd::prelude::*;

use crate::clock::{seconds_of, signed_of, to_signed, whole_seconds};
use crate::config_v2::Config;
use crate::extended::Extended;
use crate::fixed::{
    amount_ok, clamp, clamped, div_floor, div_round, magnitude, opt_amount_ok, rounded, MICRO,
};
use crate::signals::features::{bps_from, return_from, MAX_BPS};
use crate::types_v2::{
    BinanceTick, ChainlinkTick, EntryMode, PolymarketTop, Side, Signal, StrategyState,
};

verus! {

// ── Rolling buffer ──────────────────────────────────────────────

/// Values by the time of their arrival, as far back as an age.
pub struct TimeSeriesBuffer<T> {
    data: VecDeque<(i64, T)>,
    max_age_ms: i64,
}

/// The entries without those at the front that are older than an age.
pub open spec fn trimmed<T>(data: Seq<(i64, T)>, ts_ms: i64, max_age_ms: i64) -> Seq<(i64, T)>
    decreases data.len(),
{
    if data.len() > 0 && ts_ms - data[0].0 > max_age_ms {
        trimmed(data.skip(1), ts_ms, max_age_ms)
    } else {
        data
    }
}

/// The value of the latest entry that is not after a time.
pub open spec fn latest_at<T>(data: Seq<(i64, T)>, target: int) -> Option<T>
    decreases data.len(),
{
    if data.len() == 0 {
        None
    } else if data.last().0 <= target {
        Some(data.last().1)
    } else {
        latest_at(data.drop_last(), target)
    }
}

impl<T: Copy> TimeSeriesBuffer<T> {
    /// The entries, oldest first.
    pub closed spec fn entries(self) -> Seq<(i64, T)> {
        self.data@
    }

    /// The age up to which entries are kept.
    pub closed spec fn max_age(self) -> i64 {
        self.max_age_ms
    }

    pub fn new(max_age_ms: i64) -> (r: TimeSeriesBuffer<T>)
        ensures
            r.entries() == Seq::<(i64, T)>::empty(),
            r.max_age() == max_age_ms,
    {
        TimeSeriesBuffer { data: VecDeque::new(), max_age_ms }
    }

    /// Appends a value and drops those that are too old.
    pub fn push(&mut self, ts_ms: i64, value: T)
        ensures
            final(self).entries() == trimmed(
                old(self).entries().push((ts_ms, value)),
                ts_ms,
                old(self).max_age(),
            ),
            final(self).max_age() == old(self).max_age(),
    {
        self.data.push_back((ts_ms, value));
        let ghost all = self.data@;
        while self.data.len() > 0 && ts_ms as i128 - self.data[0].0 as i128 > self.max_age_ms as i128
            invariant
                self.max_age_ms == old(self).max_age_ms,
                trimmed(self.data@, ts_ms, self.max_age_ms) == trimmed(all, ts_ms, self.max_age_ms),
            decreases self.data@.len(),
        {
            let ghost before = self.data@;
            let _ = self.data.pop_front();
            assert(self.data@ =~= before.skip(1));
        }
    }

    /// The value of the latest entry that is not after a time.
    pub fn get_at_or_before(&self, target_ts_ms: i128) -> (r: Option<T>)
        ensures
            r == latest_at(self.entries(), target_ts_ms as int),
    {
        let mut n: usize = self.data.len();
        assert(self.data@.take(n as int) =~= self.data@);
        while n > 0
            invariant
                n <= self.data@.len(),
                latest_at(self.data@.take(n as int), target_ts_ms as int) == latest_at(
                    self.data@,
                    target_ts_ms as int,
                ),
            decreases n,
        {
            let entry: (i64, T) = self.data[n - 1];
            assert(self.data@.take(n as int).last() == entry);
            if entry.0 as i128 <= target_ts_ms {
                return Some(entry.1);
            }
            assert(self.data@.take(n as int).drop_last() =~= self.data@.take(n as int - 1));
            n = n - 1;
        }
        None
    }
}

/// The times of the entries do not fall.
pub open spec fn in_order<T>(data: Seq<(i64, T)>) -> bool {
    forall|i: int, j: int| 0 <= i <= j < data.len() ==> (#[trigger] data[i]).0 <= (#[trigger] data[j]).0
}

/// A buffer that is fed in order keeps, after a value at a time, exactly the
/// entries that are no older than the age: nothing older stays, and nothing else
/// is lost.
pub proof fn buffer_keeps_the_recent<T>(data: Seq<(i64, T)>, ts_ms: i64, max_age_ms: i64)
    requires
        in_order(data),
    ensures
        in_order(trimmed(data, ts_ms, max_age_ms)),
        forall|i: int|
            0 <= i < trimmed(data, ts_ms, max_age_ms).len() ==> ts_ms - (#[trigger] trimmed(
                data,
                ts_ms,
                max_age_ms,
            )[i]).0 <= max_age_ms,
        forall|i: int|
            0 <= i < data.len() && ts_ms - (#[trigger] data[i]).0 <= max_age_ms ==> trimmed(
                data,
                ts_ms,
                max_age_ms,
            ).contains(data[i]),
    decreases data.len(),
{
    let kept = trimmed(data, ts_ms, max_age_ms);
    if data.len() > 0 && ts_ms - data[0].0 > max_age_ms {
        let rest = data.skip(1);
        assert forall|i: int, j: int| 0 <= i <= j < rest.len() implies (#[trigger] rest[i]).0 <= (
        #[trigger] rest[j]).0 by {
            assert(data[i + 1].0 <= data[j + 1].0);
        }
        buffer_keeps_the_recent(rest, ts_ms, max_age_ms);
        assert forall|i: int|
            0 <= i < data.len() && ts_ms - (#[trigger] data[i]).0 <= max_age_ms implies kept.contains(
            data[i],
        ) by {
            assert(i > 0);
            assert(rest[i - 1] == data[i]);
        }
    } else {
        assert forall|i: int| 0 <= i < data.len() implies ts_ms - (#[trigger] data[i]).0
            <= max_age_ms by {
            assert(data[0].0 <= data[i].0);
        }
    }
}

/// A lookup gives the value of an entry that is not after the time, and every
/// later entry is after it; it gives nothing only where all entries are after.
pub proof fn lookup_finds_the_latest<T>(data: Seq<(i64, T)>, target: int)
    ensures
        match latest_at(data, target) {
            Some(v) => exists|i: int|
                0 <= i < data.len() && (#[trigger] data[i]).0 <= target && data[i].1 == v && (
                forall|j: int| i < j < data.len() ==> (#[trigger] data[j]).0 > target),
            None => forall|j: int| 0 <= j < data.len() ==> (#[trigger] data[j]).0 > target,
        },
    decreases data.len(),
{
    if data.len() > 0 {
        if data.last().0 <= target {
            let i = data.len() - 1;
            assert(data[i].0 <= target);
        } else {
            let front = data.drop_last();
            lookup_finds_the_latest(front, target);
            if latest_at(front, target) is Some {
                let v = latest_at(front, target)->0;
                let i = choose|i: int|
                    0 <= i < front.len() && (#[trigger] front[i]).0 <= target && front[i].1 == v && (
                    forall|j: int| i < j < front.len() ==> (#[trigger] front[j]).0 > target);
                assert(data[i] == front[i]);
                assert forall|j: int| i < j < data.len() implies (#[trigger] data[j]).0 > target by {
                    if j < front.len() {
                        assert(front[j].0 > target);
                    }
                }
            } else {
                assert forall|j: int| 0 <= j < data.len() implies (#[trigger] data[j]).0 > target by {
                    if j < front.len() {
                        assert(front[j].0 > target);
                    }
                }
            }
        }
    }
}

// ── Exponential average ─────────────────────────────────────────

/// A weight of one.
pub const ALPHA_ONE: i128 = 1_000_000_000_000;

/// The largest magnitude of a sample.
pub const MAX_SAMPLE: i128 = 60_000_000_000_000_000_000_000_000_000;

/// The largest magnitude of an average.
pub const MAX_FINE: i128 = 60_000_000_000_000_000_000_000_000_000_000_000;

/// An average in which old samples fade. It is kept a million times finer than
/// the samples, so that small steps add up.
#[derive(Debug, Clone, Copy)]
pub struct Ema {
    pub value: Option<Extended>,
    pub tau_ms: i64,
    pub last_ts_ms: Option<i64>,
}

/// The average after a step of a weight (in trillionths) towards a sample.
pub open spec fn blended(prev: int, sample: int, alpha: int) -> int {
    prev + (alpha * (sample - prev)) / (ALPHA_ONE as int)
}

/// A sample, a million times finer.
pub open spec fn refined(x: Extended) -> Extended {
    match x {
        Extended::Number(v) => Extended::Number((v * MICRO) as i128),
        other => other,
    }
}

/// An average after a step towards a sample. A sample without bound takes it along,
/// if it has a weight; from there it comes back to no number.
pub open spec fn stepped(prev: Extended, sample: Extended, alpha: int) -> Extended {
    match (prev, sample) {
        (Extended::Number(p), Extended::Number(x)) => Extended::Number(
            blended(p as int, x as int, alpha) as i128,
        ),
        (Extended::Number(_), _) => if alpha > 0 {
            sample
        } else {
            Extended::Undefined
        },
        _ => Extended::Undefined,
    }
}

/// An average that has left the numbers does not come back to them.
pub proof fn lost_averages_stay_lost(e: Ema, ts_ms: i64, x: Extended, alpha: int)
    requires
        e.last_ts_ms is Some,
        e.value matches Some(v) && !(v is Number),
    ensures
        e.updated(ts_ms, x, alpha).value == Some(Extended::Undefined),
{
}

/// A weighted step lies between the average and the sample.
pub proof fn average_stays_between(prev: int, sample: int, alpha: int)
    requires
        0 <= alpha <= ALPHA_ONE,
    ensures
        prev <= sample ==> prev <= blended(prev, sample, alpha) <= sample,
        sample <= prev ==> sample <= blended(prev, sample, alpha) <= prev,
{
    let d = sample - prev;
    let one = ALPHA_ONE as int;
    let q = (alpha * d) / one;
    vstd::arithmetic::div_mod::lemma_fundamental_div_mod(alpha * d, one);
    let r = (alpha * d) % one;
    if d >= 0 {
        assert(0 <= q <= d) by (nonlinear_arith)
            requires
                alpha * d == one * q + r,
                0 <= r < one,
                0 <= alpha <= one,
                d >= 0,
                one > 0,
        ;
    }
    if d <= 0 {
        assert(d <= q <= 0) by (nonlinear_arith)
            requires
                alpha * d == one * q + r,
                0 <= r < one,
                0 <= alpha <= one,
                d <= 0,
                one > 0,
        ;
    }
}

/// A sample that is not later than the last counts as one a millisecond later.
pub proof fn late_samples_count_as_next(e: Ema, ts_ms: int)
    requires
        e.last_ts_ms is Some,
        ts_ms <= e.last_ts_ms->0,
    ensures
        e.gap(ts_ms) == e.gap(e.last_ts_ms->0 + 1),
{
}

/// A sample counts by the milliseconds since the last one; the first sample by
/// none.
pub proof fn samples_count_by_their_distance(e: Ema, ts_ms: i64)
    ensures
        e.value is None || e.last_ts_ms is None ==> e.gap(ts_ms as int) is None,
        e.value is Some && e.last_ts_ms is Some ==> {
            &&& ts_ms > e.last_ts_ms->0 ==> e.gap(ts_ms as int) is Some && e.last_ts_ms->0 + e.gap(
                ts_ms as int,
            )->0 == ts_ms
            &&& ts_ms <= e.last_ts_ms->0 ==> e.gap(ts_ms as int) == Some(1i128)
        },
{
}

/// A sample that equals the average leaves it, whatever its weight.
pub proof fn steady_samples_keep_the_average(prev: int, alpha: int)
    ensures
        blended(prev, prev, alpha) == prev,
{
    assert(alpha * 0 == 0);
}

impl Ema {
    pub open spec fn wf(self) -> bool {
        self.value matches Some(v) ==> v.within(MAX_FINE as int)
    }

    /// The average is a number, once there is one.
    pub open spec fn is_number(self) -> bool {
        self.value matches Some(v) ==> v is Number
    }

    /// The fine average after a sample: the sample itself the first time.
    pub open spec fn next_value(self, x: Extended, alpha: int) -> Extended {
        match (self.value, self.last_ts_ms) {
            (Some(prev), Some(_)) => stepped(prev, refined(x), alpha),
            _ => refined(x),
        }
    }

    /// The average after a sample.
    pub open spec fn updated(self, ts_ms: i64, x: Extended, alpha: int) -> Ema {
        Ema {
            value: Some(self.next_value(x, alpha)),
            last_ts_ms: Some(ts_ms),
            tau_ms: self.tau_ms,
        }
    }

    /// The average after a sample, as coarse as the samples.
    pub open spec fn reading(self, x: Extended, alpha: int) -> Extended {
        match self.next_value(x, alpha) {
            Extended::Number(v) => Extended::Number(rounded(v as int, MICRO as int) as i128),
            other => other,
        }
    }

    pub fn new(tau_ms: i64) -> (r: Ema)
        ensures
            r == (Ema { value: None, tau_ms, last_ts_ms: None }),
            r.wf(),
    {
        Ema { value: None, tau_ms, last_ts_ms: None }
    }

    /// The time since the last sample, at least one millisecond; nothing before
    /// the first sample.
    pub open spec fn gap(self, ts_ms: int) -> Option<i128> {
        match (self.value, self.last_ts_ms) {
            (Some(_), Some(last)) => Some(
                if ts_ms - last > 1 {
                    (ts_ms - last) as i128
                } else {
                    1
                },
            ),
            _ => None,
        }
    }

    /// The time since the last sample: the weight of the next sample is
    /// `1 - exp(-dt / tau)`. Nothing before the first sample.
    pub fn since_last(&self, ts_ms: i64) -> (r: Option<i128>)
        ensures
            r == self.gap(ts_ms as int),
    {
        match (self.value, self.last_ts_ms) {
            (Some(_), Some(last)) => {
                let dt: i128 = ts_ms as i128 - last as i128;
                if dt > 1 {
                    Some(dt)
                } else {
                    Some(1)
                }
            },
            _ => None,
        }
    }

    /// Takes a sample with its weight, and gives the average.
    pub fn update(&mut self, ts_ms: i64, x: Extended, alpha: i128) -> (r: Extended)
        requires
            old(self).wf(),
            x.within(MAX_SAMPLE as int),
            0 <= alpha <= ALPHA_ONE,
        ensures
            *final(self) == old(self).updated(ts_ms, x, alpha as int),
            r == old(self).reading(x, alpha as int),
            final(self).wf(),
            r.within(MAX_SAMPLE as int),
            old(self).is_number() && x is Number ==> r is Number && final(self).is_number(),
    {
        let sample: Extended = refine(x);
        let next: Extended = match (self.value, self.last_ts_ms) {
            (Some(prev), Some(_)) => step(prev, sample, alpha),
            _ => sample,
        };
        self.value = Some(next);
        self.last_ts_ms = Some(ts_ms);
        match next {
            Extended::Number(v) => {
                proof {
                    crate::fixed::rounding_keeps_bounds(
                        v as int,
                        MICRO as int,
                        -MAX_SAMPLE as int,
                        MAX_SAMPLE as int,
                    );
                }
                Extended::Number(div_round(v, MICRO as i128))
            },
            other => other,
        }
    }
}

fn refine(x: Extended) -> (r: Extended)
    requires
        x.within(MAX_SAMPLE as int),
    ensures
        r == refined(x),
        r.within(MAX_FINE as int),
{
    match x {
        Extended::Number(v) => {
            assert(-MAX_FINE <= v * MICRO <= MAX_FINE) by (nonlinear_arith)
                requires
                    -MAX_SAMPLE <= v <= MAX_SAMPLE,
                    MICRO == 1_000_000,
                    MAX_FINE == MAX_SAMPLE * 1_000_000,
                    MAX_SAMPLE >= 0,
            ;
            Extended::Number(v * MICRO as i128)
        },
        other => other,
    }
}

fn step(prev: Extended, sample: Extended, alpha: i128) -> (r: Extended)
    requires
        prev.within(MAX_FINE as int),
        sample.within(MAX_FINE as int),
        0 <= alpha <= ALPHA_ONE,
    ensures
        r == stepped(prev, sample, alpha as int),
        r.within(MAX_FINE as int),
{
    match (prev, sample) {
        (Extended::Number(p), Extended::Number(x)) => Extended::Number(blend(p, x, alpha)),
        (Extended::Number(_), _) => if alpha > 0 {
            sample
        } else {
            Extended::Undefined
        },
        _ => Extended::Undefined,
    }
}

fn blend(prev: i128, sample: i128, alpha: i128) -> (r: i128)
    requires
        -MAX_FINE <= prev <= MAX_FINE,
        -MAX_FINE <= sample <= MAX_FINE,
        0 <= alpha <= ALPHA_ONE,
    ensures
        r == blended(prev as int, sample as int, alpha as int),
        -MAX_FINE <= r <= MAX_FINE,
{
    let d: i128 = sample - prev;
    let q: i128 = div_floor(d, ALPHA_ONE);
    proof {
        vstd::arithmetic::div_mod::lemma_fundamental_div_mod(d as int, ALPHA_ONE as int);
    }
    let m: i128 = d - q * ALPHA_ONE;
    proof {
        crate::fixed::lemma_product_bounds(
            alpha as int,
            m as int,
            ALPHA_ONE as int,
            ALPHA_ONE as int,
        );
        crate::fixed::lemma_product_bounds(
            alpha as int,
            q as int,
            ALPHA_ONE as int,
            200_000_000_000_000_000_000_000,
        );
        assert(alpha * d == alpha * m + (alpha * q) * ALPHA_ONE) by (nonlinear_arith)
            requires
                m == d - q * ALPHA_ONE,
        ;
        vstd::arithmetic::div_mod::lemma_hoist_over_denominator(
            alpha * m,
            alpha * q,
            ALPHA_ONE as nat,
        );
        average_stays_between(prev as int, sample as int, alpha as int);
    }
    let low: i128 = div_floor(alpha * m, ALPHA_ONE);
    prev + (alpha * q + low)
}

// ── Operational counters ────────────────────────────────────────

/// How many ticks came in, what became of them, and how many signals went out.
#[derive(Debug, Clone, Copy, PartialEq, Eq, Structural)]
pub struct SignalCounters {
    pub ticks_processed: u64,
    pub skip_missing_lookback: u64,
    pub skip_fast_trigger_floor: u64,
    pub skip_state_not_idle: u64,
    pub skip_cooldown: u64,
    pub skip_near_expiry: u64,
    pub skip_missing_book: u64,
    pub skip_spread: u64,
    pub skip_entry_price_high: u64,
    pub skip_missing_chainlink: u64,
    pub skip_score_sign_mismatch: u64,
    pub skip_strong_contradiction: u64,
    pub skip_score_floor: u64,
    pub signals_emitted: u64,
    pub signals_taker: u64,
    pub signals_maker: u64,
}

/// Counters at zero.
pub open spec fn no_counts() -> SignalCounters {
    SignalCounters {
        ticks_processed: 0,
        skip_missing_lookback: 0,
        skip_fast_trigger_floor: 0,
        skip_state_not_idle: 0,
        skip_cooldown: 0,
        skip_near_expiry: 0,
        skip_missing_book: 0,
        skip_spread: 0,
        skip_entry_price_high: 0,
        skip_missing_chainlink: 0,
        skip_score_sign_mismatch: 0,
        skip_strong_contradiction: 0,
        skip_score_floor: 0,
        signals_emitted: 0,
        signals_taker: 0,
        signals_maker: 0,
    }
}

impl Default for SignalCounters {
    fn default() -> (r: Self)
        ensures
            r == no_counts(),
    {
        SignalCounters {
            ticks_processed: 0,
            skip_missing_lookback: 0,
            skip_fast_trigger_floor: 0,
            skip_state_not_idle: 0,
            skip_cooldown: 0,
            skip_near_expiry: 0,
            skip_missing_book: 0,
            skip_spread: 0,
            skip_entry_price_high: 0,
            skip_missing_chainlink: 0,
                skip_score_sign_mismatch: 0,
            skip_strong_contradiction: 0,
            skip_score_floor: 0,
            signals_emitted: 0,
            signals_taker: 0,
            signals_maker: 0,
        }
    }
}

/// Why a tick gave no signal.
#[derive(Debug, Clone, Copy, PartialEq, Eq, Structural)]
pub enum Skip {
    MissingLookback,
    FastTriggerFloor,
    StateNotIdle,
    Cooldown,
    NearExpiry,
    MissingBook,
    Spread,
    EntryPriceHigh,
    MissingChainlink,
    ScoreSignMismatch,
    StrongContradiction,
    ScoreFloor,
}

/// One more, back to zero behind the largest number.
pub open spec fn bumped(n: u64) -> u64 {
    if n == u64::MAX {
        0
    } else {
        (n + 1) as u64
    }
}

fn bump(n: &mut u64)
    ensures
        *final(n) == bumped(*old(n)),
{
    if *n == u64::MAX {
        *n = 0;
    } else {
        *n = *n + 1;
    }
}

impl SignalCounters {
    /// The counters after a tick.
    pub open spec fn counted(self, outcome: Result<Signal, Skip>) -> SignalCounters {
        let c = SignalCounters { ticks_processed: bumped(self.ticks_processed), ..self };
        match outcome {
            Ok(signal) => match signal.entry_mode {
                EntryMode::Taker => SignalCounters {
                    signals_emitted: bumped(c.signals_emitted),
                    signals_taker: bumped(c.signals_taker),
                    ..c
                },
                EntryMode::Maker => SignalCounters {
                    signals_emitted: bumped(c.signals_emitted),
                    signals_maker: bumped(c.signals_maker),
                    ..c
                },
            },
            Err(skip) => match skip {
                Skip::MissingLookback => SignalCounters {
                    skip_missing_lookback: bumped(c.skip_missing_lookback),
                    ..c
                },
                Skip::FastTriggerFloor => SignalCounters {
                    skip_fast_trigger_floor: bumped(c.skip_fast_trigger_floor),
                    ..c
                },
                Skip::StateNotIdle => SignalCounters {
                    skip_state_not_idle: bumped(c.skip_state_not_idle),
                    ..c
                },
                Skip::Cooldown => SignalCounters { skip_cooldown: bumped(c.skip_cooldown), ..c },
                Skip::NearExpiry => SignalCounters {
                    skip_near_expiry: bumped(c.skip_near_expiry),
                    ..c
                },
                Skip::MissingBook => SignalCounters {
                    skip_missing_book: bumped(c.skip_missing_book),
                    ..c
                },
                Skip::Spread => SignalCounters { skip_spread: bumped(c.skip_spread), ..c },
                Skip::EntryPriceHigh => SignalCounters {
                    skip_entry_price_high: bumped(c.skip_entry_price_high),
                    ..c
                },
                Skip::MissingChainlink => SignalCounters {
                    skip_missing_chainlink: bumped(c.skip_missing_chainlink),
                    ..c
                },
                Skip::ScoreSignMismatch => SignalCounters {
                    skip_score_sign_mismatch: bumped(c.skip_score_sign_mismatch),
                    ..c
                },
                Skip::StrongContradiction => SignalCounters {
                    skip_strong_contradiction: bumped(c.skip_strong_contradiction),
                    ..c
                },
                Skip::ScoreFloor => SignalCounters {
                    skip_score_floor: bumped(c.skip_score_floor),
                    ..c
                },
            },
        }
    }

    /// Counts a tick and its outcome.
    pub fn count(&mut self, outcome: &Result<Signal, Skip>)
        ensures
            *final(self) == old(self).counted(*outcome),
    {
        bump(&mut self.ticks_processed);
        match outcome {
            Ok(signal) => {
                bump(&mut self.signals_emitted);
                match signal.entry_mode {
                    EntryMode::Taker => {
                        bump(&mut self.signals_taker);
                    },
                    EntryMode::Maker => {
                        bump(&mut self.signals_maker);
                    },
                }
            },
            Err(skip) => match skip {
                Skip::MissingLookback => {
                    bump(&mut self.skip_missing_lookback);
                },
                Skip::FastTriggerFloor => {
                    bump(&mut self.skip_fast_trigger_floor);
                },
                Skip::StateNotIdle => {
                    bump(&mut self.skip_state_not_idle);
                },
                Skip::Cooldown => {
                    bump(&mut self.skip_cooldown);
                },
                Skip::NearExpiry => {
                    bump(&mut self.skip_near_expiry);
                },
                Skip::MissingBook => {
                    bump(&mut self.skip_missing_book);
                },
                Skip::Spread => {
                    bump(&mut self.skip_spread);
                },
                Skip::EntryPriceHigh => {
                    bump(&mut self.skip_entry_price_high);
                },
                Skip::MissingChainlink => {
                    bump(&mut self.skip_missing_chainlink);
                },
                Skip::ScoreSignMismatch => {
                    bump(&mut self.skip_score_sign_mismatch);
                },
                Skip::StrongContradiction => {
                    bump(&mut self.skip_strong_contradiction);
                },
                Skip::ScoreFloor => {
                    bump(&mut self.skip_score_floor);
                },
            },
        }
    }
}

impl SignalCounters {
    /// The ticks that gave no signal.
    pub open spec fn skipped(self) -> int {
        self.skip_missing_lookback + self.skip_fast_trigger_floor + self.skip_state_not_idle
            + self.skip_cooldown + self.skip_near_expiry + self.skip_missing_book
            + self.skip_spread + self.skip_entry_price_high + self.skip_missing_chainlink
            + self.skip_score_sign_mismatch + self.skip_strong_contradiction
            + self.skip_score_floor
    }

    /// Every tick was skipped or gave a signal, and every signal has a mode.
    pub open spec fn adds_up(self) -> bool {
        &&& self.ticks_processed == self.skipped() + self.signals_emitted
        &&& self.signals_emitted == self.signals_taker + self.signals_maker
    }
}

/// The counters add up, tick after tick, until a number of 64 bits is full.
pub proof fn counters_add_up(c: SignalCounters, outcome: Result<Signal, Skip>)
    requires
        c.adds_up(),
        c.ticks_processed < u64::MAX,
    ensures
        no_counts().adds_up(),
        c.counted(outcome).adds_up(),
        c.counted(outcome).ticks_processed == c.ticks_processed + 1,
{
}

// ── Helpers ─────────────────────────────────────────────────────

/// Whether a number points to a side.
pub open spec fn points_to(side: Side, x: int) -> bool {
    match side {
        Side::Up => x > 0,
        Side::Down => x < 0,
    }
}

/// Whether a number points to a side.
pub fn sign_matches(side: Side, x: i128) -> (r: bool)
    ensures
        r == points_to(side, x as int),
{
    match side {
        Side::Up => x > 0,
        Side::Down => x < 0,
    }
}

/// Whether a number, or what lies beyond the numbers, points to a side.
pub open spec fn leans_to(side: Side, x: Extended) -> bool {
    match side {
        Side::Up => x.exceeds(0),
        Side::Down => x.falls_below(0),
    }
}

/// Whether a number, or what lies beyond the numbers, points to a side.
pub fn is_leaning(side: Side, x: Extended) -> (r: bool)
    ensures
        r == leans_to(side, x),
{
    match side {
        Side::Up => x.is_above(0),
        Side::Down => x.is_below(0),
    }
}

/// Whether basis, slope and two-second return all point strongly the other way.
pub open spec fn contradicts(
    side: Side,
    basis_dev_bps: Extended,
    dbasis_bps: Extended,
    r2000_bps: Extended,
) -> bool {
    match side {
        Side::Up => basis_dev_bps.falls_below(-1_500_000) && dbasis_bps.falls_below(-800_000)
            && r2000_bps.falls_below(-2_000_000),
        Side::Down => basis_dev_bps.exceeds(1_500_000) && dbasis_bps.exceeds(800_000)
            && r2000_bps.exceeds(2_000_000),
    }
}

/// Whether basis, slope and two-second return all point strongly the other way.
pub fn strong_contradiction(
    side: Side,
    basis_dev_bps: Extended,
    dbasis_bps: Extended,
    r2000_bps: Extended,
) -> (r: bool)
    ensures
        r == contradicts(side, basis_dev_bps, dbasis_bps, r2000_bps),
{
    match side {
        Side::Up => basis_dev_bps.is_below(-1_500_000) && dbasis_bps.is_below(-800_000)
            && r2000_bps.is_below(-2_000_000),
        Side::Down => basis_dev_bps.is_above(1_500_000) && dbasis_bps.is_above(800_000)
            && r2000_bps.is_above(2_000_000),
    }
}

/// A feature in units of its scale (`num / den` per unit), between minus two and
/// two.
pub open spec fn normed(x: int, num: int, den: int) -> int {
    clamped(rounded(x * num, den), -2_000_000, 2_000_000)
}

fn norm(x: i128, num: i128, den: i128) -> (r: i128)
    requires
        -2 * MAX_BPS <= x <= 2 * MAX_BPS,
        1 <= num <= 100,
        1 <= den <= 100,
    ensures
        r == normed(x as int, num as int, den as int),
        -2_000_000 <= r <= 2_000_000,
{
    proof {
        crate::fixed::lemma_product_bounds(
            x as int,
            num as int,
            2 * MAX_BPS as int,
            100,
        );
    }
    clamp(div_round(x * num, den), -2_000_000, 2_000_000)
}

/// A feature beyond the numbers has the bound of its direction, and one that is
/// undefined the lower bound.
pub open spec fn bounded(x: Extended, num: int, den: int) -> int {
    match x {
        Extended::Number(v) => normed(v as int, num, den),
        Extended::Above => 2_000_000,
        _ => -2_000_000,
    }
}

fn bound(x: Extended, num: i128, den: i128) -> (r: i128)
    requires
        x.within(2 * MAX_BPS),
        1 <= num <= 100,
        1 <= den <= 100,
    ensures
        r == bounded(x, num as int, den as int),
        -2_000_000 <= r <= 2_000_000,
{
    match x {
        Extended::Number(v) => norm(v, num, den),
        Extended::Above => 2_000_000,
        _ => -2_000_000,
    }
}

/// The weighted stack of the fast returns. One without bound takes the sum along;
/// two in opposite directions leave it undefined.
pub open spec fn fast_move(r200: Extended, r500: Extended, r800: Extended) -> Extended {
    match (r200, r500, r800) {
        (Extended::Number(a), Extended::Number(b), Extended::Number(c)) => Extended::Number(
            rounded(55 * a + 30 * b + 15 * c, 100) as i128,
        ),
        _ => {
            let above = r200 is Above || r500 is Above || r800 is Above;
            let below = r200 is Below || r500 is Below || r800 is Below;
            if r200 is Undefined || r500 is Undefined || r800 is Undefined || (above && below) {
                Extended::Undefined
            } else if above {
                Extended::Above
            } else {
                Extended::Below
            }
        },
    }
}

fn stack(r200: Extended, r500: Extended, r800: Extended) -> (r: Extended)
    requires
        r200.within(MAX_BPS as int),
        r500.within(MAX_BPS as int),
        r800.within(MAX_BPS as int),
    ensures
        r == fast_move(r200, r500, r800),
        r.within(MAX_BPS as int),
{
    match (r200, r500, r800) {
        (Extended::Number(a), Extended::Number(b), Extended::Number(c)) => {
            proof {
                crate::fixed::rounding_keeps_bounds(
                    55 * a + 30 * b + 15 * c,
                    100,
                    -MAX_BPS as int,
                    MAX_BPS as int,
                );
            }
            Extended::Number(div_round(55 * a + 30 * b + 15 * c, 100))
        },
        _ => {
            let above: bool = r200 == Extended::Above || r500 == Extended::Above || r800
                == Extended::Above;
            let below: bool = r200 == Extended::Below || r500 == Extended::Below || r800
                == Extended::Below;
            if r200 == Extended::Undefined || r500 == Extended::Undefined || r800
                == Extended::Undefined || (above && below) {
                Extended::Undefined
            } else if above {
                Extended::Above
            } else {
                Extended::Below
            }
        },
    }
}

/// The features' weighted sum, in hundredths.
pub open spec fn weighted(
    fast: Extended,
    r2000: Extended,
    basis_dev: Extended,
    dbasis: Extended,
    obi: int,
) -> int {
    45 * bounded(fast, 2, 3) + 15 * bounded(r2000, 1, 3) + 20 * bounded(basis_dev, 1, 2) + 10
        * bounded(dbasis, 1, 1) + 10 * normed(obi, 100, 35)
}

/// The score: the weighted sum of the features in units of their scales.
pub open spec fn score_of(
    fast: Extended,
    r2000: Extended,
    basis_dev: Extended,
    dbasis: Extended,
    obi: int,
) -> int {
    rounded(weighted(fast, r2000, basis_dev, dbasis, obi), 100)
}

/// The score is between minus two and two, whatever the features.
pub proof fn score_is_bounded(
    fast: Extended,
    r2000: Extended,
    basis_dev: Extended,
    dbasis: Extended,
    obi: int,
)
    ensures
        -2_000_000 <= score_of(fast, r2000, basis_dev, dbasis, obi) <= 2_000_000,
{
    let sum = weighted(fast, r2000, basis_dev, dbasis, obi);
    lemma_bounded(fast, 2, 3);
    lemma_bounded(r2000, 1, 3);
    lemma_bounded(basis_dev, 1, 2);
    lemma_bounded(dbasis, 1, 1);
    lemma_normed(obi, 100, 35);
    assert(-200_000_000 <= sum <= 200_000_000);
    crate::fixed::rounding_keeps_bounds(sum, 100, -2_000_000, 2_000_000);
}

proof fn lemma_normed(x: int, num: int, den: int)
    requires
        den > 0,
    ensures
        -2_000_000 <= normed(x, num, den) <= 2_000_000,
        normed(-x, num, den) == -normed(x, num, den),
{
    assert((-x) * num == -(x * num)) by (nonlinear_arith);
    crate::fixed::rounding_is_odd(x * num, den);
}

proof fn lemma_bounded(x: Extended, num: int, den: int)
    requires
        den > 0,
    ensures
        -2_000_000 <= bounded(x, num, den) <= 2_000_000,
        is_symmetric(x) ==> bounded(x.opposite(), num, den) == -bounded(x, num, den),
{
    if let Extended::Number(v) = x {
        lemma_normed(v as int, num, den);
    }
}

/// Whether a value has an opposite: it is defined, and not the lowest integer.
pub open spec fn is_symmetric(x: Extended) -> bool {
    x != Extended::Undefined && x != Extended::Number(i128::MIN)
}

/// Opposite features give the opposite score.
pub proof fn score_is_odd(
    fast: Extended,
    r2000: Extended,
    basis_dev: Extended,
    dbasis: Extended,
    obi: int,
)
    requires
        is_symmetric(fast),
        is_symmetric(r2000),
        is_symmetric(basis_dev),
        is_symmetric(dbasis),
    ensures
        score_of(
            fast.opposite(),
            r2000.opposite(),
            basis_dev.opposite(),
            dbasis.opposite(),
            -obi,
        ) == -score_of(fast, r2000, basis_dev, dbasis, obi),
{
    lemma_bounded(fast, 2, 3);
    lemma_bounded(r2000, 1, 3);
    lemma_bounded(basis_dev, 1, 2);
    lemma_bounded(dbasis, 1, 1);
    lemma_normed(obi, 100, 35);
    let sum = weighted(fast, r2000, basis_dev, dbasis, obi);
    assert(weighted(
        fast.opposite(),
        r2000.opposite(),
        basis_dev.opposite(),
        dbasis.opposite(),
        -obi,
    ) == -sum);
    crate::fixed::rounding_is_odd(sum, 100);
}

fn score_features(
    fast: Extended,
    r2000: Extended,
    basis_dev: Extended,
    dbasis: Extended,
    obi: i128,
) -> (r: i128)
    requires
        fast.within(MAX_BPS as int),
        r2000.within(MAX_BPS as int),
        basis_dev.within(2 * MAX_BPS),
        dbasis.within(2 * MAX_BPS),
        -MAX_SAMPLE <= obi <= MAX_SAMPLE,
    ensures
        r == score_of(fast, r2000, basis_dev, dbasis, obi as int),
        -2_000_000 <= r <= 2_000_000,
{
    proof {
        score_is_bounded(fast, r2000, basis_dev, dbasis, obi as int);
    }
    let f: i128 = bound(fast, 2, 3);
    let r2: i128 = bound(r2000, 1, 3);
    let b: i128 = bound(basis_dev, 1, 2);
    let d: i128 = bound(dbasis, 1, 1);
    let o: i128 = norm(obi, 100, 35);
    div_round(45 * f + 15 * r2 + 20 * b + 10 * d + 10 * o, 100)
}

// ── The engine ──────────────────────────────────────────────────

/// What the engine sees beside the tick.
#[derive(Debug, Clone, Copy)]
pub struct Surroundings {
    pub state: StrategyState,
    pub cooldown_until_ms: Option<i64>,
    pub window_end_ts: i64,
    pub top: PolymarketTop,
    pub chainlink: Option<ChainlinkTick>,
}

impl Surroundings {
    pub open spec fn wf(self) -> bool {
        &&& self.top.wf()
        &&& self.chainlink matches Some(c) ==> amount_ok(c.price as int)
    }
}

/// The weights of the next samples of both averages.
#[derive(Debug, Clone, Copy)]
pub struct Weights {
    pub basis: i128,
    pub obi: i128,
}

impl Weights {
    pub open spec fn wf(self) -> bool {
        0 <= self.basis <= ALPHA_ONE && 0 <= self.obi <= ALPHA_ONE
    }
}

/// The returns over the four horizons, in basis points.
#[derive(Debug, Clone, Copy)]
pub struct Returns {
    pub r200: Extended,
    pub r500: Extended,
    pub r800: Extended,
    pub r2000: Extended,
}

/// A tick that passed the gates: its returns, its direction, and the oracle's
/// price.
#[derive(Debug, Clone, Copy)]
pub struct Candidate {
    pub moves: Returns,
    pub fast: Extended,
    pub side: Side,
    pub oracle: i64,
}

/// The features of a candidate that go beyond its returns.
#[derive(Debug, Clone, Copy)]
pub struct Features {
    pub raw_basis: Extended,
    pub basis_dev: Extended,
    pub dbasis: Extended,
    pub obi: i128,
}

/// The return from an earlier mid to a mid, where an earlier one is known.
pub open spec fn return_over(mids: Seq<(i64, i128)>, now: int, mid: int, horizon: int) -> Option<
    Extended,
> {
    match latest_at(mids, now - horizon) {
        Some(then) => Some(bps_from(mid, then as int)),
        None => None,
    }
}

/// The returns over the four horizons, where all are known.
pub open spec fn returns_at(mids: Seq<(i64, i128)>, now: int, mid: int) -> Option<Returns> {
    match (
        return_over(mids, now, mid, 200),
        return_over(mids, now, mid, 500),
        return_over(mids, now, mid, 800),
        return_over(mids, now, mid, 2000),
    ) {
        (Some(r200), Some(r500), Some(r800), Some(r2000)) => Some(
            Returns { r200, r500, r800, r2000 },
        ),
        _ => None,
    }
}

/// The book of a side.
pub open spec fn side_book(top: PolymarketTop, side: Side) -> (Option<i64>, Option<i64>) {
    match side {
        Side::Up => (top.up_bid, top.up_ask),
        Side::Down => (top.down_bid, top.down_ask),
    }
}

/// The gates that a tick passes, in their order: known returns, a fast move of some
/// size, an idle strategy with no pause on, time left in the window, a known and
/// narrow book whose ask is not too high, and a known oracle price.
pub open spec fn gated(c: Config, mids: Seq<(i64, i128)>, now: int, mid: int, s: Surroundings) -> Result<
    Candidate,
    Skip,
> {
    match returns_at(mids, now, mid) {
        None => Err(Skip::MissingLookback),
        Some(moves) => {
            let fast = fast_move(moves.r200, moves.r500, moves.r800);
            let side = if fast.exceeds(0) {
                Side::Up
            } else {
                Side::Down
            };
            let (bid, ask) = side_book(s.top, side);
            if fast.smaller_than(c.trigger_min_fast_move_bps as int) {
                Err(Skip::FastTriggerFloor)
            } else if s.state != StrategyState::Idle {
                Err(Skip::StateNotIdle)
            } else if s.cooldown_until_ms is Some && now < s.cooldown_until_ms->0 {
                Err(Skip::Cooldown)
            } else if s.window_end_ts - seconds_of(now) < signed_of(c.min_time_to_expiry_s) {
                Err(Skip::NearExpiry)
            } else if bid is None || ask is None {
                Err(Skip::MissingBook)
            } else if (ask->0 - bid->0) * 100 > c.max_spread_cents {
                Err(Skip::Spread)
            } else if ask->0 > c.max_entry_price {
                Err(Skip::EntryPriceHigh)
            } else {
                match s.chainlink {
                    None => Err(Skip::MissingChainlink),
                    Some(tick) => Ok(Candidate { moves, fast, side, oracle: tick.price }),
                }
            }
        },
    }
}

/// The basis buffer with one more value.
pub open spec fn basis_after(
    basis: Seq<(i64, Extended)>,
    now: i64,
    raw: Extended,
    max_age: i64,
) -> Seq<(i64, Extended)> {
    trimmed(basis.push((now, raw)), now, max_age)
}

/// The features of a candidate, over the basis buffer after its own value.
pub open spec fn features_of(
    c: Config,
    now: i64,
    raw: Extended,
    basis: Seq<(i64, Extended)>,
    basis_mean: Extended,
    obi: Extended,
) -> Features {
    Features {
        raw_basis: raw,
        basis_dev: raw.less(basis_mean),
        dbasis: match latest_at(basis, now - c.basis_slope_lookback_ms) {
            Some(prev) => raw.less(prev),
            None => Extended::Number(0),
        },
        obi: obi->Number_0,
    }
}

/// What becomes of a candidate with its features: a signal, unless the score
/// points the other way, the features contradict the side, or the score is too
/// small. Every signal is taken by a fill-or-kill order.
pub open spec fn judged(c: Config, now: i64, k: Candidate, f: Features) -> Result<Signal, Skip> {
    let score = score_of(k.fast, k.moves.r2000, f.basis_dev, f.dbasis, f.obi as int);
    let contradiction = contradicts(k.side, f.basis_dev, f.dbasis, k.moves.r2000);
    if !points_to(k.side, score) {
        Err(Skip::ScoreSignMismatch)
    } else if contradiction {
        Err(Skip::StrongContradiction)
    } else if magnitude(score) < c.maker_score_min {
        Err(Skip::ScoreFloor)
    } else {
        Ok(
            Signal {
                created_ts_ms: now,
                side: k.side,
                entry_mode: EntryMode::Taker,
                r200_bps: k.moves.r200,
                r500_bps: k.moves.r500,
                r800_bps: k.moves.r800,
                r2000_bps: k.moves.r2000,
                fast_move_bps: k.fast,
                raw_basis_bps: f.raw_basis,
                basis_dev_bps: f.basis_dev,
                dbasis_bps: f.dbasis,
                obi_ema: f.obi,
                score: score as i128,
                confidence: clamped(rounded(magnitude(score) * 2, 3), 0, 2_000_000) as i128,
                strong_contradiction: contradiction,
            },
        )
    }
}

/// Mids within range.
pub open spec fn good_mids(data: Seq<(i64, i128)>) -> bool {
    forall|i: int|
        0 <= i < data.len() ==> amount_ok((#[trigger] data[i]).1 as int)
}

/// Basis values within range.
pub open spec fn good_basis(data: Seq<(i64, Extended)>) -> bool {
    forall|i: int| 0 <= i < data.len() ==> (#[trigger] data[i]).1.within(MAX_BPS as int)
}

proof fn lemma_latest_is_good(data: Seq<(i64, Extended)>, target: int)
    requires
        good_basis(data),
    ensures
        latest_at(data, target) matches Some(v) ==> v.within(MAX_BPS as int),
    decreases data.len(),
{
    if data.len() > 0 {
        assert(data[data.len() - 1].1.within(MAX_BPS as int));
        assert forall|i: int| 0 <= i < data.len() - 1 implies (
        #[trigger] data.drop_last()[i]).1.within(MAX_BPS as int) by {
            assert(data[i].1.within(MAX_BPS as int));
        }
        lemma_latest_is_good(data.drop_last(), target);
    }
}

proof fn lemma_trimmed_is_suffix<T>(data: Seq<(i64, T)>, ts_ms: i64, max_age_ms: i64)
    ensures
        trimmed(data, ts_ms, max_age_ms).len() <= data.len(),
        forall|i: int|
            0 <= i < trimmed(data, ts_ms, max_age_ms).len() ==> #[trigger] trimmed(
                data,
                ts_ms,
                max_age_ms,
            )[i] == data[i + data.len() - trimmed(data, ts_ms, max_age_ms).len()],
    decreases data.len(),
{
    if data.len() > 0 && ts_ms - data[0].0 > max_age_ms {
        lemma_trimmed_is_suffix(data.skip(1), ts_ms, max_age_ms);
    }
}

/// The engine's state.
pub struct SignalEngine {
    pub mid_buf: TimeSeriesBuffer<i128>,
    pub basis_buf: TimeSeriesBuffer<Extended>,
    pub basis_ema: Ema,
    pub obi_ema: Ema,
    pub counters: SignalCounters,
}

impl SignalEngine {
    pub open spec fn wf(self) -> bool {
        &&& good_mids(self.mid_buf.entries())
        &&& good_basis(self.basis_buf.entries())
        &&& self.basis_ema.wf()
        &&& self.obi_ema.wf()
        &&& self.obi_ema.is_number()
    }

    /// The mids after a tick.
    pub open spec fn mids_after(self, tick: BinanceTick) -> Seq<(i64, i128)> {
        trimmed(
            self.mid_buf.entries().push((tick.recv_ts_ms, tick.mid as i128)),
            tick.recv_ts_ms,
            self.mid_buf.max_age(),
        )
    }

    /// The gates that a tick passes.
    pub open spec fn gate(self, c: Config, tick: BinanceTick, s: Surroundings) -> Result<
        Candidate,
        Skip,
    > {
        gated(c, self.mids_after(tick), tick.recv_ts_ms as int, tick.mid as int, s)
    }

    /// The imbalance of a tick, none counting as zero.
    pub open spec fn raw_obi(tick: BinanceTick) -> Extended {
        Extended::Number(
            match tick.obi {
                Some(x) => x as i128,
                None => 0,
            },
        )
    }

    /// The features of a candidate.
    pub open spec fn measure(self, c: Config, tick: BinanceTick, k: Candidate, w: Weights) -> Features {
        let raw = bps_from(tick.mid as int, k.oracle as int);
        features_of(
            c,
            tick.recv_ts_ms,
            raw,
            basis_after(
                self.basis_buf.entries(),
                tick.recv_ts_ms,
                raw,
                self.basis_buf.max_age(),
            ),
            self.basis_ema.reading(raw, w.basis as int),
            self.obi_ema.reading(SignalEngine::raw_obi(tick), w.obi as int),
        )
    }

    /// What comes of a tick.
    pub open spec fn outcome(self, c: Config, tick: BinanceTick, s: Surroundings, w: Weights) -> Result<
        Signal,
        Skip,
    > {
        match self.gate(c, tick, s) {
            Err(skip) => Err(skip),
            Ok(k) => judged(c, tick.recv_ts_ms, k, self.measure(c, tick, k, w)),
        }
    }

    /// An engine that has seen nothing: five seconds of mids and basis.
    pub fn new(config: &Config) -> (r: SignalEngine)
        ensures
            r.mid_buf.entries() == Seq::<(i64, i128)>::empty(),
            r.mid_buf.max_age() == 5_000,
            r.basis_buf.entries() == Seq::<(i64, Extended)>::empty(),
            r.basis_buf.max_age() == 5_000,
            r.basis_ema == (Ema { value: None, tau_ms: config.basis_ema_tau_ms, last_ts_ms: None }),
            r.obi_ema == (Ema { value: None, tau_ms: config.obi_ema_tau_ms, last_ts_ms: None }),
            r.counters == no_counts(),
            r.wf(),
    {
        SignalEngine {
            mid_buf: TimeSeriesBuffer::new(5_000),
            basis_buf: TimeSeriesBuffer::new(5_000),
            basis_ema: Ema::new(config.basis_ema_tau_ms),
            obi_ema: Ema::new(config.obi_ema_tau_ms),
            counters: SignalCounters::default(),
        }
    }

    fn look_back(&self, now: i64, horizon: i128) -> (r: Option<i64>)
        requires
            good_mids(self.mid_buf.entries()),
            0 <= horizon <= 10_000,
        ensures
            latest_at(self.mid_buf.entries(), now - horizon) == match r {
                Some(then) => Some(then as i128),
                None => None,
            },
            opt_amount_ok(r),
    {
        match self.mid_buf.get_at_or_before(now as i128 - horizon) {
            Some(then) => {
                proof {
                    lookup_finds_the_latest(self.mid_buf.entries(), now - horizon);
                }
                Some(then as i64)
            },
            None => None,
        }
    }

    fn check_gates(&self, config: &Config, tick: &BinanceTick, s: &Surroundings) -> (r: Result<
        Candidate,
        Skip,
    >)
        requires
            good_mids(self.mid_buf.entries()),
            amount_ok(tick.mid as int),
            s.wf(),
        ensures
            r == gated(
                *config,
                self.mid_buf.entries(),
                tick.recv_ts_ms as int,
                tick.mid as int,
                *s,
            ),
            r matches Ok(k) ==> {
                &&& k.fast.within(MAX_BPS as int)
                &&& k.moves.r2000.within(MAX_BPS as int)
                &&& amount_ok(k.oracle as int)
            },
    {
        let now: i64 = tick.recv_ts_ms;
        let (mid_200, mid_500, mid_800, mid_2000): (i64, i64, i64, i64) = match (
            self.look_back(now, 200),
            self.look_back(now, 500),
            self.look_back(now, 800),
            self.look_back(now, 2000),
        ) {
            (Some(a), Some(b), Some(c), Some(d)) => (a, b, c, d),
            _ => {
                return Err(Skip::MissingLookback);
            },
        };
        let r200: Extended = return_from(tick.mid, mid_200);
        let r500: Extended = return_from(tick.mid, mid_500);
        let r800: Extended = return_from(tick.mid, mid_800);
        let r2000: Extended = return_from(tick.mid, mid_2000);
        let fast: Extended = stack(r200, r500, r800);
        if fast.is_smaller_than(config.trigger_min_fast_move_bps as i128) {
            return Err(Skip::FastTriggerFloor);
        }
        if s.state != StrategyState::Idle {
            return Err(Skip::StateNotIdle);
        }
        if let Some(until) = s.cooldown_until_ms {
            if now < until {
                return Err(Skip::Cooldown);
            }
        }
        if s.window_end_ts as i128 - whole_seconds(now) < to_signed(config.min_time_to_expiry_s) {
            return Err(Skip::NearExpiry);
        }
        let side: Side = if fast.is_above(0) {
            Side::Up
        } else {
            Side::Down
        };
        let (bid_known, ask_known): (Option<i64>, Option<i64>) = match side {
            Side::Up => (s.top.up_bid, s.top.up_ask),
            Side::Down => (s.top.down_bid, s.top.down_ask),
        };
        let (bid, ask): (i64, i64) = match (bid_known, ask_known) {
            (Some(b), Some(a)) => (b, a),
            _ => {
                return Err(Skip::MissingBook);
            },
        };
        if (ask as i128 - bid as i128) * 100 > config.max_spread_cents as i128 {
            return Err(Skip::Spread);
        }
        if ask > config.max_entry_price {
            return Err(Skip::EntryPriceHigh);
        }
        match s.chainlink {
            None => Err(Skip::MissingChainlink),
            Some(c) => Ok(
                Candidate {
                    moves: Returns { r200, r500, r800, r2000 },
                    fast,
                    side,
                    oracle: c.price,
                },
            ),
        }
    }

    fn judge(config: &Config, now: i64, k: &Candidate, f: &Features) -> (r: Result<Signal, Skip>)
        requires
            k.fast.within(MAX_BPS as int),
            k.moves.r2000.within(MAX_BPS as int),
            f.basis_dev.within(2 * MAX_BPS),
            f.dbasis.within(2 * MAX_BPS),
            -MAX_SAMPLE <= f.obi <= MAX_SAMPLE,
        ensures
            r == judged(*config, now, *k, *f),
    {
        let score: i128 = score_features(k.fast, k.moves.r2000, f.basis_dev, f.dbasis, f.obi);
        if !sign_matches(k.side, score) {
            return Err(Skip::ScoreSignMismatch);
        }
        let contradiction: bool = strong_contradiction(
            k.side,
            f.basis_dev,
            f.dbasis,
            k.moves.r2000,
        );
        if contradiction {
            return Err(Skip::StrongContradiction);
        }
        let size: i128 = crate::fixed::abs(score);
        if size < config.maker_score_min as i128 {
            return Err(Skip::ScoreFloor);
        }
        let confidence: i128 = clamp(div_round(size * 2, 3), 0, 2_000_000);
        Ok(
            Signal {
                created_ts_ms: now,
                side: k.side,
                entry_mode: EntryMode::Taker,
                r200_bps: k.moves.r200,
                r500_bps: k.moves.r500,
                r800_bps: k.moves.r800,
                r2000_bps: k.moves.r2000,
                fast_move_bps: k.fast,
                raw_basis_bps: f.raw_basis,
                basis_dev_bps: f.basis_dev,
                dbasis_bps: f.dbasis,
                obi_ema: f.obi,
                score,
                confidence,
                strong_contradiction: contradiction,
            },
        )
    }

    fn take_features(
        &mut self,
        config: &Config,
        tick: &BinanceTick,
        k: &Candidate,
        w: &Weights,
    ) -> (r: Features)
        requires
            old(self).wf(),
            amount_ok(tick.mid as int),
            amount_ok(k.oracle as int),
            w.wf(),
        ensures
            r == old(self).measure(*config, *tick, *k, *w),
            r.basis_dev.within(2 * MAX_BPS),
            r.dbasis.within(2 * MAX_BPS),
            -MAX_SAMPLE <= r.obi <= MAX_SAMPLE,
            final(self).mid_buf == old(self).mid_buf,
            final(self).counters == old(self).counters,
            final(self).basis_buf.max_age() == old(self).basis_buf.max_age(),
            ({
                let raw = bps_from(tick.mid as int, k.oracle as int);
                &&& final(self).basis_buf.entries() == basis_after(
                    old(self).basis_buf.entries(),
                    tick.recv_ts_ms,
                    raw,
                    old(self).basis_buf.max_age(),
                )
                &&& final(self).basis_ema == old(self).basis_ema.updated(
                    tick.recv_ts_ms,
                    raw,
                    w.basis as int,
                )
                &&& final(self).obi_ema == old(self).obi_ema.updated(
                    tick.recv_ts_ms,
                    SignalEngine::raw_obi(*tick),
                    w.obi as int,
                )
            }),
            final(self).wf(),
    {
        let now: i64 = tick.recv_ts_ms;
        let raw: Extended = return_from(tick.mid, k.oracle);
        let mean: Extended = self.basis_ema.update(now, raw, w.basis);
        proof {
            let pushed = self.basis_buf.entries().push((now, raw));
            lemma_trimmed_is_suffix(pushed, now, self.basis_buf.max_age());
        }
        self.basis_buf.push(now, raw);
        assert(good_basis(self.basis_buf.entries()));
        proof {
            lemma_latest_is_good(
                self.basis_buf.entries(),
                now - config.basis_slope_lookback_ms,
            );
        }
        let earlier: Option<Extended> = self.basis_buf.get_at_or_before(
            now as i128 - config.basis_slope_lookback_ms as i128,
        );
        let dbasis: Extended = match earlier {
            Some(prev) => raw.minus(prev),
            None => Extended::Number(0),
        };
        let obi_raw: i128 = match tick.obi {
            Some(x) => x as i128,
            None => 0,
        };
        let obi: i128 = match self.obi_ema.update(now, Extended::Number(obi_raw), w.obi) {
            Extended::Number(x) => x,
            _ => 0,
        };
        Features { raw_basis: raw, basis_dev: raw.minus(mean), dbasis, obi }
    }

    /// Takes a tick: the mid is remembered; where the tick passes the gates, so
    /// are its basis and imbalance, and it is judged.
    pub fn on_tick(
        &mut self,
        config: &Config,
        tick: &BinanceTick,
        s: &Surroundings,
        w: &Weights,
    ) -> (r: Result<Signal, Skip>)
        requires
            old(self).wf(),
            amount_ok(tick.mid as int),
            s.wf(),
            w.wf(),
        ensures
            r == old(self).outcome(*config, *tick, *s, *w),
            final(self).counters == old(self).counters.counted(r),
            final(self).mid_buf.entries() == old(self).mids_after(*tick),
            final(self).mid_buf.max_age() == old(self).mid_buf.max_age(),
            final(self).basis_buf.max_age() == old(self).basis_buf.max_age(),
            match old(self).gate(*config, *tick, *s) {
                Ok(k) => {
                    let raw = bps_from(tick.mid as int, k.oracle as int);
                    &&& final(self).basis_buf.entries() == basis_after(
                        old(self).basis_buf.entries(),
                        tick.recv_ts_ms,
                        raw,
                        old(self).basis_buf.max_age(),
                    )
                    &&& final(self).basis_ema == old(self).basis_ema.updated(
                        tick.recv_ts_ms,
                        raw,
                        w.basis as int,
                    )
                    &&& final(self).obi_ema == old(self).obi_ema.updated(
                        tick.recv_ts_ms,
                        SignalEngine::raw_obi(*tick),
                        w.obi as int,
                    )
                },
                Err(_) => {
                    &&& final(self).basis_buf == old(self).basis_buf
                    &&& final(self).basis_ema == old(self).basis_ema
                    &&& final(self).obi_ema == old(self).obi_ema
                },
            },
            final(self).wf(),
    {
        let now: i64 = tick.recv_ts_ms;
        proof {
            let pushed = self.mid_buf.entries().push((now, tick.mid as i128));
            lemma_trimmed_is_suffix(pushed, now, self.mid_buf.max_age());
        }
        self.mid_buf.push(now, tick.mid as i128);
        assert(good_mids(self.mid_buf.entries()));
        let outcome: Result<Signal, Skip> = match self.check_gates(config, tick, s) {
            Err(skip) => Err(skip),
            Ok(k) => {
                let f: Features = self.take_features(config, tick, &k, w);
                Self::judge(config, now, &k, &f)
            },
        };
        self.counters.count(&outcome);
        outcome
    }
}

/// A signal was worth one: the strategy was idle, the fast move and the score
/// point to its side and are as large as the limits ask, the features do not
/// contradict it, the book is narrow, the ask not too high, and there is time
/// left.
pub proof fn signals_pass_every_gate(
    e: SignalEngine,
    c: Config,
    tick: BinanceTick,
    s: Surroundings,
    w: Weights,
)
    requires
        e.wf(),
        amount_ok(tick.mid as int),
        s.wf(),
        w.wf(),
        c.trigger_min_fast_move_bps > 0,
        e.outcome(c, tick, s, w) is Ok,
    ensures
        ({
            let signal = e.outcome(c, tick, s, w)->Ok_0;
            &&& s.state == StrategyState::Idle
            &&& !(s.cooldown_until_ms is Some && tick.recv_ts_ms < s.cooldown_until_ms->0)
            &&& s.window_end_ts - seconds_of(tick.recv_ts_ms as int) >= signed_of(
                c.min_time_to_expiry_s,
            )
            &&& side_book(s.top, signal.side).1 matches Some(ask) && ask <= c.max_entry_price
            &&& side_book(s.top, signal.side).0 is Some
            &&& points_to(signal.side, signal.score as int)
            &&& magnitude(signal.score as int) >= c.maker_score_min
            &&& -2_000_000 <= signal.score <= 2_000_000
            &&& !signal.strong_contradiction
            &&& signal.entry_mode == EntryMode::Taker
            &&& signal.created_ts_ms == tick.recv_ts_ms
            &&& 0 <= signal.confidence <= 2_000_000
        }),
{
    let k = e.gate(c, tick, s)->Ok_0;
    let f = e.measure(c, tick, k, w);
    score_is_bounded(k.fast, k.moves.r2000, f.basis_dev, f.dbasis, f.obi as int);
}

// ── What the numbers mean ───────────────────────────────────────

proof fn lemma_normed_grows(x: int, y: int, num: int, den: int)
    requires
        x <= y,
        num > 0,
        den > 0,
    ensures
        normed(x, num, den) <= normed(y, num, den),
{
    assert(x * num <= y * num) by (nonlinear_arith)
        requires
            x <= y,
            num > 0,
    ;
    crate::fixed::lemma_rounding_grows(x * num, y * num, den);
}

proof fn lemma_bounded_grows(x: Extended, y: Extended, num: int, den: int)
    requires
        x.at_most(y),
        num > 0,
        den > 0,
    ensures
        bounded(x, num, den) <= bounded(y, num, den),
{
    lemma_bounded(x, num, den);
    lemma_bounded(y, num, den);
    if let (Extended::Number(a), Extended::Number(b)) = (x, y) {
        lemma_normed_grows(a as int, b as int, num, den);
    }
}

/// The score does not fall when a feature rises: with each of the fast move, the
/// two-second return, the basis, its slope and the imbalance at least what it was, so
/// is the score.
pub proof fn score_rises_with_its_features(
    fast: Extended,
    r2000: Extended,
    basis_dev: Extended,
    dbasis: Extended,
    obi: int,
    fast2: Extended,
    r2000_2: Extended,
    basis_dev2: Extended,
    dbasis2: Extended,
    obi2: int,
)
    requires
        fast.at_most(fast2),
        r2000.at_most(r2000_2),
        basis_dev.at_most(basis_dev2),
        dbasis.at_most(dbasis2),
        obi <= obi2,
    ensures
        score_of(fast, r2000, basis_dev, dbasis, obi) <= score_of(
            fast2,
            r2000_2,
            basis_dev2,
            dbasis2,
            obi2,
        ),
{
    lemma_bounded_grows(fast, fast2, 2, 3);
    lemma_bounded_grows(r2000, r2000_2, 1, 3);
    lemma_bounded_grows(basis_dev, basis_dev2, 1, 2);
    lemma_bounded_grows(dbasis, dbasis2, 1, 1);
    lemma_normed_grows(obi, obi2, 100, 35);
    crate::fixed::lemma_rounding_grows(
        weighted(fast, r2000, basis_dev, dbasis, obi),
        weighted(fast2, r2000_2, basis_dev2, dbasis2, obi2),
        100,
    );
}

proof fn lemma_normed_is_near(x: int, num: int, den: int)
    requires
        num > 0,
        den > 0,
        -2_000_000 * den <= x * num <= 2_000_000 * den,
    ensures
        -den <= 2 * (normed(x, num, den) * den) - 2 * (x * num) <= den,
{
    crate::fixed::rounding_keeps_bounds(x * num, den, -2_000_000, 2_000_000);
    crate::fixed::rounding_is_nearest(x * num, den);
}

/// What each feature counts for, up to rounding, within two units of its scale: the
/// fast move forty-five hundredths for one and a half basis points, the two-second
/// return fifteen for three, the basis twenty for two, its slope ten for one, and the
/// imbalance ten for thirty-five hundredths.
pub proof fn features_have_their_weights(fast: i128, r2000: i128, basis_dev: i128, dbasis: i128, obi: int)
    requires
        -3_000_000 <= fast <= 3_000_000,
        -6_000_000 <= r2000 <= 6_000_000,
        -4_000_000 <= basis_dev <= 4_000_000,
        -2_000_000 <= dbasis <= 2_000_000,
        -700_000 <= obi <= 700_000,
    ensures
        ({
            let score = score_of(
                Extended::Number(fast),
                Extended::Number(r2000),
                Extended::Number(basis_dev),
                Extended::Number(dbasis),
                obi,
            );
            -665 <= 700 * score - (210 * fast + 35 * r2000 + 70 * basis_dev + 70 * dbasis + 200
                * obi) <= 665
        }),
{
    lemma_normed_is_near(fast as int, 2, 3);
    lemma_normed_is_near(r2000 as int, 1, 3);
    lemma_normed_is_near(basis_dev as int, 1, 2);
    lemma_normed_is_near(dbasis as int, 1, 1);
    lemma_normed_is_near(obi, 100, 35);
    let sum = weighted(
        Extended::Number(fast),
        Extended::Number(r2000),
        Extended::Number(basis_dev),
        Extended::Number(dbasis),
        obi,
    );
    crate::fixed::rounding_is_nearest(sum, 100);
}

/// Every feature at as many units of its scale gives that many as the score: with a
/// fast move of one and a half, a return of three, a basis of two, a slope of one basis
/// point and an imbalance of thirty-five hundredths for each, up to two.
pub proof fn features_at_scale_give_the_score(k: int)
    requires
        -2_000_000 <= 20 * k <= 2_000_000,
    ensures
        score_of(
            Extended::Number((30 * k) as i128),
            Extended::Number((60 * k) as i128),
            Extended::Number((40 * k) as i128),
            Extended::Number((20 * k) as i128),
            7 * k,
        ) == 20 * k,
{
    crate::fixed::rounding_keeps_bounds(60 * k, 3, 20 * k, 20 * k);
    crate::fixed::rounding_keeps_bounds(40 * k, 2, 20 * k, 20 * k);
    crate::fixed::rounding_keeps_bounds(20 * k, 1, 20 * k, 20 * k);
    crate::fixed::rounding_keeps_bounds(700 * k, 35, 20 * k, 20 * k);
    crate::fixed::rounding_keeps_bounds(2000 * k, 100, 20 * k, 20 * k);
}

/// Beyond two units of its scale a feature counts as two; without bound it does too,
/// and undefined it counts as minus two.
pub proof fn features_count_up_to_two_units(x: i128, y: Extended, z: Extended, u: Extended, obi: int)
    ensures
        ({
            let n = |v: i128| Extended::Number(v);
            &&& x >= 3_000_000 ==> score_of(n(x), y, z, u, obi) == score_of(n(3_000_000), y, z, u, obi)
            &&& x >= 6_000_000 ==> score_of(y, n(x), z, u, obi) == score_of(y, n(6_000_000), z, u, obi)
            &&& x >= 4_000_000 ==> score_of(y, z, n(x), u, obi) == score_of(y, z, n(4_000_000), u, obi)
            &&& x >= 2_000_000 ==> score_of(y, z, u, n(x), obi) == score_of(y, z, u, n(2_000_000), obi)
            &&& obi >= 700_000 ==> score_of(n(x), y, z, u, obi) == score_of(n(x), y, z, u, 700_000)
            &&& score_of(Extended::Above, y, z, u, obi) == score_of(n(3_000_000), y, z, u, obi)
            &&& score_of(y, Extended::Above, z, u, obi) == score_of(y, n(6_000_000), z, u, obi)
            &&& score_of(y, z, Extended::Above, u, obi) == score_of(y, z, n(4_000_000), u, obi)
            &&& score_of(y, z, u, Extended::Above, obi) == score_of(y, z, u, n(2_000_000), obi)
            &&& score_of(Extended::Undefined, y, z, u, obi) == score_of(n((-3_000_000int) as i128), y, z, u, obi)
            &&& score_of(Extended::Below, y, z, u, obi) == score_of(n((-3_000_000int) as i128), y, z, u, obi)
        }),
{
    lemma_saturates(x as int, 2, 3, 3_000_000);
    lemma_saturates(x as int, 1, 3, 6_000_000);
    lemma_saturates(x as int, 1, 2, 4_000_000);
    lemma_saturates(x as int, 1, 1, 2_000_000);
    lemma_saturates(obi, 100, 35, 700_000);
}

proof fn lemma_saturates(x: int, num: int, den: int, limit: int)
    requires
        num > 0,
        den > 0,
        limit * num == 2_000_000 * den,
    ensures
        normed(limit, num, den) == 2_000_000,
        normed(-limit, num, den) == -2_000_000,
        x >= limit ==> normed(x, num, den) == 2_000_000,
{
    crate::fixed::rounding_keeps_bounds(limit * num, den, 2_000_000, 2_000_000);
    assert((-limit) * num == -(limit * num)) by (nonlinear_arith);
    assert(-2_000_000 * den == -(2_000_000 * den)) by (nonlinear_arith);
    crate::fixed::rounding_is_odd(limit * num, den);
    if x >= limit {
        lemma_normed_grows(limit, x, num, den);
        lemma_normed(x, num, den);
    }
}

/// The fast move is the weighted mean of the returns over 200, 500 and 800 milliseconds,
/// up to rounding: fifty-five, thirty and fifteen hundredths of them. An undefined
/// return, or two without bound in opposite directions, leave it undefined; else one
/// without bound takes it along.
pub proof fn fast_moves_weigh_the_latest_most(a: i128, b: i128, c: i128, x: Extended, y: Extended)
    requires
        Extended::Number(a).within(MAX_BPS as int),
        Extended::Number(b).within(MAX_BPS as int),
        Extended::Number(c).within(MAX_BPS as int),
    ensures
        ({
            let n = |v: i128| Extended::Number(v);
            &&& fast_move(n(a), n(b), n(c)) matches Extended::Number(f) && -50 <= 100 * f - (55 * a
                + 30 * b + 15 * c) <= 50
            &&& fast_move(Extended::Undefined, x, y) == Extended::Undefined
            &&& fast_move(x, Extended::Undefined, y) == Extended::Undefined
            &&& fast_move(x, y, Extended::Undefined) == Extended::Undefined
            &&& fast_move(Extended::Above, Extended::Below, x) == Extended::Undefined
            &&& fast_move(x, Extended::Above, Extended::Below) == Extended::Undefined
            &&& fast_move(Extended::Above, n(b), n(c)) == Extended::Above
            &&& fast_move(n(a), Extended::Above, n(c)) == Extended::Above
            &&& fast_move(n(a), n(b), Extended::Above) == Extended::Above
            &&& fast_move(n(a), n(b), Extended::Below) == Extended::Below
            &&& fast_move(Extended::Below, Extended::Below, Extended::Below) == Extended::Below
        }),
{
    crate::fixed::rounding_is_nearest(55 * a + 30 * b + 15 * c, 100);
    crate::fixed::rounding_keeps_bounds(
        55 * a + 30 * b + 15 * c,
        100,
        -MAX_BPS as int,
        MAX_BPS as int,
    );
}

/// A tick is judged by its own mid against those of 200, 500, 800 and 2000 milliseconds
/// before, and passes exactly where all four are known, the fast move is as large as the
/// trigger, the strategy is idle and not paused, the window lasts long enough, the book
/// of the side that the move points to is known and narrow with an ask that is not too
/// high, and the oracle's price is known. The first that fails is the reason.
pub proof fn gates_stand_in_their_order(e: SignalEngine, c: Config, tick: BinanceTick, s: Surroundings)
    ensures
        ({
            let mids = e.mids_after(tick);
            let now = tick.recv_ts_ms as int;
            let mid = tick.mid as int;
            let (a, b, d, g) = (
                latest_at(mids, now - 200),
                latest_at(mids, now - 500),
                latest_at(mids, now - 800),
                latest_at(mids, now - 2000),
            );
            let known = a is Some && b is Some && d is Some && g is Some;
            let fast = fast_move(
                bps_from(mid, a->0 as int),
                bps_from(mid, b->0 as int),
                bps_from(mid, d->0 as int),
            );
            let small = fast matches Extended::Number(v) && -c.trigger_min_fast_move_bps < v
                < c.trigger_min_fast_move_bps;
            let up = match fast {
                Extended::Number(v) => v > 0,
                Extended::Above => true,
                _ => false,
            };
            let (bid, ask) = if up {
                (s.top.up_bid, s.top.up_ask)
            } else {
                (s.top.down_bid, s.top.down_ask)
            };
            let moved = known && !small;
            let idle = moved && s.state == StrategyState::Idle;
            let ready = idle && (s.cooldown_until_ms is None || now >= s.cooldown_until_ms->0);
            let timely = ready && s.window_end_ts - seconds_of(now) >= signed_of(
                c.min_time_to_expiry_s,
            );
            let quoted = timely && bid is Some && ask is Some;
            let narrow = quoted && 100 * (ask->0 - bid->0) <= c.max_spread_cents;
            let payable = narrow && ask->0 <= c.max_entry_price;
            match e.gate(c, tick, s) {
                Err(Skip::MissingLookback) => !known,
                Err(Skip::FastTriggerFloor) => known && small,
                Err(Skip::StateNotIdle) => moved && !idle,
                Err(Skip::Cooldown) => idle && !ready,
                Err(Skip::NearExpiry) => ready && !timely,
                Err(Skip::MissingBook) => timely && !quoted,
                Err(Skip::Spread) => quoted && !narrow,
                Err(Skip::EntryPriceHigh) => narrow && !payable,
                Err(Skip::MissingChainlink) => payable && s.chainlink is None,
                Ok(k) => {
                    &&& payable && s.chainlink is Some
                    &&& k.oracle == s.chainlink->0.price
                    &&& k.side == if up {
                        Side::Up
                    } else {
                        Side::Down
                    }
                    &&& k.fast == fast
                    &&& k.moves.r200 == bps_from(mid, a->0 as int)
                    &&& k.moves.r500 == bps_from(mid, b->0 as int)
                    &&& k.moves.r800 == bps_from(mid, d->0 as int)
                    &&& k.moves.r2000 == bps_from(mid, g->0 as int)
                },
                _ => false,
            }
        }),
{
}

/// The buffer of mids ends with the tick's own, at its time of arrival.
pub proof fn the_latest_mid_is_remembered(e: SignalEngine, tick: BinanceTick)
    requires
        e.mid_buf.max_age() >= 0,
    ensures
        e.mids_after(tick).len() > 0,
        e.mids_after(tick).last() == (tick.recv_ts_ms, tick.mid as i128),
        latest_at(e.mids_after(tick), tick.recv_ts_ms as int) == Some(tick.mid as i128),
{
    let pushed = e.mid_buf.entries().push((tick.recv_ts_ms, tick.mid as i128));
    lemma_trimming_keeps_the_last(pushed, tick.recv_ts_ms, e.mid_buf.max_age());
}

proof fn lemma_trimming_keeps_the_last<T>(data: Seq<(i64, T)>, ts_ms: i64, max_age_ms: i64)
    requires
        data.len() > 0,
        data.last().0 == ts_ms,
        max_age_ms >= 0,
    ensures
        trimmed(data, ts_ms, max_age_ms).len() > 0,
        trimmed(data, ts_ms, max_age_ms).last() == data.last(),
    decreases data.len(),
{
    if ts_ms - data[0].0 > max_age_ms {
        assert(data.len() > 1);
        assert(data.skip(1).last() == data.last());
        lemma_trimming_keeps_the_last(data.skip(1), ts_ms, max_age_ms);
    }
}

/// The features of a tick: its basis over the oracle, that basis less its average (with
/// itself counted in), less the basis of a while ago, and the average of the imbalance.
pub proof fn features_are_measured_against_their_past(
    e: SignalEngine,
    c: Config,
    tick: BinanceTick,
    k: Candidate,
    w: Weights,
)
    ensures
        ({
            let raw = bps_from(tick.mid as int, k.oracle as int);
            let f = e.measure(c, tick, k, w);
            let past = trimmed(
                e.basis_buf.entries().push((tick.recv_ts_ms, raw)),
                tick.recv_ts_ms,
                e.basis_buf.max_age(),
            );
            &&& f.raw_basis == raw
            &&& f.basis_dev == raw.less(e.basis_ema.reading(raw, w.basis as int))
            &&& f.dbasis == match latest_at(past, tick.recv_ts_ms - c.basis_slope_lookback_ms) {
                Some(before) => raw.less(before),
                None => Extended::Number(0),
            }
            &&& Extended::Number(f.obi) == e.obi_ema.reading(
                Extended::Number(
                    match tick.obi {
                        Some(x) => x as i128,
                        None => 0i128,
                    },
                ),
                w.obi as int,
            ) || !(e.obi_ema.reading(SignalEngine::raw_obi(tick), w.obi as int) is Number)
        }),
{
}

/// An average starts at its first sample; then it moves towards each sample by the
/// sample's weight, which counts trillionths.
pub proof fn averages_move_by_the_weight(e: Ema, prev: i128, x: i128, alpha: int)
    requires
        0 <= alpha <= 1_000_000_000_000,
        -MAX_FINE <= prev <= MAX_FINE,
        Extended::Number(x).within(MAX_SAMPLE as int),
    ensures
        e.value is None ==> e.reading(Extended::Number(x), alpha) == Extended::Number(x),
        e.value == Some(Extended::Number(prev)) && e.last_ts_ms is Some ==> (match e.next_value(
            Extended::Number(x),
            alpha,
        ) {
            Extended::Number(next) => 0 <= alpha * (x * 1_000_000 - prev) - (next - prev)
                * 1_000_000_000_000 < 1_000_000_000_000,
            _ => false,
        }),
{
    let fine = x * MICRO;
    assert(-MAX_FINE <= fine <= MAX_FINE);
    crate::fixed::rounding_keeps_bounds(fine, MICRO as int, x as int, x as int);
    let d = alpha * (fine - prev);
    vstd::arithmetic::div_mod::lemma_fundamental_div_mod(d, ALPHA_ONE as int);
    average_stays_between(prev as int, fine, alpha);
}

/// A signal tells what it was made from, its score is that of the features that it
/// tells, and its confidence two thirds of the score's size, up to rounding.
pub proof fn signals_tell_what_they_saw(c: Config, now: i64, k: Candidate, f: Features)
    requires
        judged(c, now, k, f) is Ok,
    ensures
        ({
            let s = judged(c, now, k, f)->Ok_0;
            let size: int = if s.score < 0 {
                -s.score
            } else {
                s.score as int
            };
            &&& s.created_ts_ms == now
            &&& s.side == k.side
            &&& s.r200_bps == k.moves.r200
            &&& s.r500_bps == k.moves.r500
            &&& s.r800_bps == k.moves.r800
            &&& s.r2000_bps == k.moves.r2000
            &&& s.fast_move_bps == k.fast
            &&& s.raw_basis_bps == f.raw_basis
            &&& s.basis_dev_bps == f.basis_dev
            &&& s.dbasis_bps == f.dbasis
            &&& s.obi_ema == f.obi
            &&& s.score == score_of(
                s.fast_move_bps,
                s.r2000_bps,
                s.basis_dev_bps,
                s.dbasis_bps,
                s.obi_ema as int,
            )
            &&& -3 <= 6 * s.confidence - 4 * size <= 3
            &&& size >= c.maker_score_min
        }),
{
    let score = score_of(k.fast, k.moves.r2000, f.basis_dev, f.dbasis, f.obi as int);
    score_is_bounded(k.fast, k.moves.r2000, f.basis_dev, f.dbasis, f.obi as int);
    let size = magnitude(score);
    crate::fixed::rounding_is_nearest(size * 2, 3);
    crate::fixed::rounding_keeps_bounds(size * 2, 3, 0, 2_000_000);
}

/// A candidate gives a signal exactly where its score points to its side, is as large as
/// the floor, and the basis, its slope and the two-second return are not all strongly
/// against it: by more than one and a half, eight tenths and two basis points.
pub proof fn candidates_are_dropped_for_cause(c: Config, now: i64, k: Candidate, f: Features)
    ensures
        ({
            let score = score_of(k.fast, k.moves.r2000, f.basis_dev, f.dbasis, f.obi as int);
            let points = match k.side {
                Side::Up => score > 0,
                Side::Down => score < 0,
            };
            let against = match k.side {
                Side::Up => f.basis_dev.falls_below(-1_500_000) && f.dbasis.falls_below(-800_000)
                    && k.moves.r2000.falls_below(-2_000_000),
                Side::Down => f.basis_dev.exceeds(1_500_000) && f.dbasis.exceeds(800_000)
                    && k.moves.r2000.exceeds(2_000_000),
            };
            let large = score >= c.maker_score_min || -score >= c.maker_score_min;
            match judged(c, now, k, f) {
                Ok(_) => points && !against && large,
                Err(Skip::ScoreSignMismatch) => !points,
                Err(Skip::StrongContradiction) => points && against,
                Err(Skip::ScoreFloor) => points && !against && !large,
                Err(_) => false,
            }
        }),
{
}

/// Every outcome is counted once, in its own place, and nothing else is.
pub proof fn each_outcome_has_its_counter(c: SignalCounters, signal: Signal)
    requires
        c.ticks_processed < u64::MAX,
        c.adds_up(),
    ensures
        ({
            let one = |n: u64| (n + 1) as u64;
            let t = SignalCounters { ticks_processed: one(c.ticks_processed), ..c };
            let n = |k: Skip| c.counted(Err(k));
            &&& n(Skip::MissingLookback) == SignalCounters {
                skip_missing_lookback: one(c.skip_missing_lookback),
                ..t
            }
            &&& n(Skip::FastTriggerFloor) == SignalCounters {
                skip_fast_trigger_floor: one(c.skip_fast_trigger_floor),
                ..t
            }
            &&& n(Skip::StateNotIdle) == SignalCounters {
                skip_state_not_idle: one(c.skip_state_not_idle),
                ..t
            }
            &&& n(Skip::Cooldown) == SignalCounters { skip_cooldown: one(c.skip_cooldown), ..t }
            &&& n(Skip::NearExpiry) == SignalCounters {
                skip_near_expiry: one(c.skip_near_expiry),
                ..t
            }
            &&& n(Skip::MissingBook) == SignalCounters {
                skip_missing_book: one(c.skip_missing_book),
                ..t
            }
            &&& n(Skip::Spread) == SignalCounters { skip_spread: one(c.skip_spread), ..t }
            &&& n(Skip::EntryPriceHigh) == SignalCounters {
                skip_entry_price_high: one(c.skip_entry_price_high),
                ..t
            }
            &&& n(Skip::MissingChainlink) == SignalCounters {
                skip_missing_chainlink: one(c.skip_missing_chainlink),
                ..t
            }
            &&& n(Skip::ScoreSignMismatch) == SignalCounters {
                skip_score_sign_mismatch: one(c.skip_score_sign_mismatch),
                ..t
            }
            &&& n(Skip::StrongContradiction) == SignalCounters {
                skip_strong_contradiction: one(c.skip_strong_contradiction),
                ..t
            }
            &&& n(Skip::ScoreFloor) == SignalCounters {
                skip_score_floor: one(c.skip_score_floor),
                ..t
            }
            &&& signal.entry_mode == EntryMode::Taker ==> c.counted(Ok(signal)) == SignalCounters {
                signals_emitted: one(c.signals_emitted),
                signals_taker: one(c.signals_taker),
                ..t
            }
            &&& signal.entry_mode == EntryMode::Maker ==> c.counted(Ok(signal)) == SignalCounters {
                signals_emitted: one(c.signals_emitted),
                signals_maker: one(c.signals_maker),
                ..t
            }
        }),
{
}

} // verus!
