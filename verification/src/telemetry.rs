//! Latencies by stage, and the health of the connections.

use hdrhistogram::Histogram;
use vstd::multiset::Multiset;
use vstd::prelude::*;

use crate::text::same;

verus! {

/// The smallest latency that is told apart, in microseconds.
pub const LOWEST_US: u64 = 1;

/// The largest latency that is sure to be recorded: a minute.
pub const HIGHEST_US: u64 = 60_000_000;

/// The number of decimal digits that are kept.
pub const DIGITS: u8 = 3;

// ── Histograms ──────────────────────────────────────────────────

/// `hdrhistogram`'s histogram, made for latencies: from a microsecond to a
/// minute, with three digits. It does not resize itself.
#[verifier::external_body]
pub struct LatencyHistogram {
    inner: Histogram<u64>,
}

/// The samples that a histogram holds, as fine as it keeps them.
pub uninterp spec fn samples(h: LatencyHistogram) -> Multiset<u64>;

/// The width of the step that a latency falls into: one below 2048, and twice as
/// wide with each doubling of the latency.
pub open spec fn step_width(us: nat) -> nat
    decreases us,
{
    if us < 2048 {
        1
    } else {
        2 * step_width(us / 2)
    }
}

/// A latency as a histogram of three digits keeps it: the start of its step.
pub open spec fn kept(us: u64) -> u64 {
    (us - us as nat % step_width(us as nat)) as u64
}

/// The last latency of the step that starts at a kept one.
pub open spec fn step_end(kept_us: u64) -> int {
    kept_us + step_width(kept_us as nat) - 1
}

/// Whether a value is the last one of the step of a sample; zero where there is no
/// sample.
pub open spec fn ends_a_step(us: u64, held: Multiset<u64>) -> bool {
    if held.len() == 0 {
        us == 0
    } else {
        exists|v: u64| #[trigger] held.count(v) > 0 && us == step_end(v)
    }
}

/// `Histogram::new_with_bounds`, with bounds and digits that it accepts: an empty
/// histogram.
#[verifier::external_body]
fn new_histogram() -> (r: LatencyHistogram)
    ensures
        samples(r) == Multiset::<u64>::empty(),
{
    LatencyHistogram {
        inner: Histogram::<u64>::new_with_bounds(LOWEST_US, HIGHEST_US, DIGITS).unwrap(),
    }
}

/// `Histogram::record`: counts one more sample in the step of its value. It
/// fails, and changes nothing, only for a value above the highest; the highest
/// itself and every value below it are recorded.
#[verifier::external_body]
fn record_sample(h: &mut LatencyHistogram, us: u64) -> (r: bool)
    requires
        samples(*old(h)).len() < u64::MAX,
    ensures
        samples(*final(h)) == if r {
            samples(*old(h)).insert(kept(us))
        } else {
            samples(*old(h))
        },
        us <= HIGHEST_US ==> r,
{
    h.inner.record(us).is_ok()
}

/// `Histogram::len`: the number of samples.
#[verifier::external_body]
fn sample_count(h: &LatencyHistogram) -> (r: u64)
    requires
        samples(*h).len() <= u64::MAX,
    ensures
        r == samples(*h).len(),
{
    h.inner.len()
}

/// `Histogram::reset`: forgets the samples.
#[verifier::external_body]
fn reset_histogram(h: &mut LatencyHistogram)
    ensures
        samples(*final(h)) == Multiset::<u64>::empty(),
{
    h.inner.reset();
}

/// The value at a quantile of some samples, the quantile in thousandths.
pub uninterp spec fn quantile_of(held: Multiset<u64>, per_mille: u64) -> u64;

/// Whether a value is not above the values at the same or higher quantiles.
pub open spec fn not_above_higher_quantiles(us: u64, held: Multiset<u64>, per_mille: u64) -> bool {
    forall|q: u64| per_mille <= q < 1000 ==> us <= #[trigger] quantile_of(held, q)
}

/// `Histogram::value_at_quantile`, for a quantile in thousandths, which std's
/// `Duration` turns into a fraction. The contract names the outcome, a function
/// of the samples and the quantile, and says that it is zero without samples and
/// else the end of the step of one of them, and that a higher quantile is no
/// lower. Which one, where the rank of the
/// quantile is no whole number, hangs on the rounding of a product and is left
/// to the name.
#[verifier::external_body]
fn value_at(h: &LatencyHistogram, per_mille: u64) -> (r: u64)
    requires
        0 < per_mille < 1000,
        samples(*h).len() <= u64::MAX,
    ensures
        r == quantile_of(samples(*h), per_mille),
        ends_a_step(r, samples(*h)),
        not_above_higher_quantiles(r, samples(*h), per_mille),
{
    h.inner.value_at_quantile(std::time::Duration::from_millis(per_mille).as_secs_f64())
}

// ── The tracker ─────────────────────────────────────────────────

/// Latencies by stage.
pub struct LatencyTracker {
    names: Vec<String>,
    histograms: Vec<LatencyHistogram>,
}

/// What a histogram says of its stage's latencies, in microseconds.
#[derive(Debug, Clone, Copy, PartialEq, Eq, Structural)]
pub struct Percentiles {
    pub count: u64,
    pub p50: u64,
    pub p95: u64,
    pub p99: u64,
    pub p999: u64,
}

impl LatencyTracker {
    /// The place of a stage, where it has one.
    pub closed spec fn place(self, stage: Seq<char>) -> Option<int> {
        if exists|i: int| 0 <= i < self.names@.len() && self.names@[i]@ == stage {
            Some(choose|i: int| 0 <= i < self.names@.len() && self.names@[i]@ == stage)
        } else {
            None
        }
    }

    /// Whether a stage has been seen.
    pub closed spec fn knows(self, stage: Seq<char>) -> bool {
        self.place(stage) is Some
    }

    /// The samples of a stage; none where it has not been seen.
    pub closed spec fn of(self, stage: Seq<char>) -> Multiset<u64> {
        match self.place(stage) {
            Some(i) => samples(self.histograms@[i]),
            None => Multiset::empty(),
        }
    }

    /// Every name has one histogram, and no name occurs twice; no histogram holds
    /// more samples than can be counted.
    pub closed spec fn wf(self) -> bool {
        &&& self.names@.len() == self.histograms@.len()
        &&& forall|i: int, j: int|
            0 <= i < self.names@.len() && 0 <= j < self.names@.len() && self.names@[i]@
                == self.names@[j]@ ==> i == j
        &&& forall|i: int| 0 <= i < self.histograms@.len() ==> samples(#[trigger] self.histograms@[i]).len() <= u64::MAX
    }

    proof fn lemma_place(self, stage: Seq<char>, i: int)
        requires
            self.wf(),
            0 <= i < self.names@.len(),
            self.names@[i]@ == stage,
        ensures
            self.place(stage) == Some(i),
    {
    }

    pub fn new() -> (r: LatencyTracker)
        ensures
            r.wf(),
            forall|stage: Seq<char>| !(#[trigger] r.knows(stage)),
            forall|stage: Seq<char>| #[trigger] r.of(stage) == Multiset::<u64>::empty(),
    {
        LatencyTracker { names: Vec::new(), histograms: Vec::new() }
    }

    fn find(&self, stage: &str) -> (r: Option<usize>)
        requires
            self.wf(),
        ensures
            match r {
                Some(i) => self.place(stage@) == Some(i as int) && i < self.names@.len(),
                None => self.place(stage@) is None,
            },
    {
        let mut i: usize = 0;
        while i < self.names.len()
            invariant
                self.wf(),
                i <= self.names@.len(),
                forall|j: int| 0 <= j < i ==> (#[trigger] self.names@[j])@ != stage@,
            decreases self.names@.len() - i,
        {
            if same(self.names[i].as_str(), stage) {
                proof {
                    self.lemma_place(stage@, i as int);
                }
                return Some(i);
            }
            i = i + 1;
        }
        None
    }

    /// Records a latency in microseconds under a stage. A latency of more than a
    /// minute may be left out.
    pub fn record(&mut self, stage: &str, latency_us: u64)
        requires
            old(self).wf(),
            old(self).of(stage@).len() < u64::MAX,
        ensures
            final(self).wf(),
            final(self).knows(stage@),
            final(self).of(stage@) == old(self).of(stage@).insert(kept(latency_us)) || (latency_us
                > 60_000_000 && final(self).of(stage@) == old(self).of(stage@)),
            forall|other: Seq<char>|
                other != stage@ ==> (#[trigger] final(self).of(other)) == old(self).of(other),
            forall|other: Seq<char>|
                other != stage@ ==> (#[trigger] final(self).knows(other)) == old(self).knows(other),
    {
        let at: usize = match self.find(stage) {
            Some(i) => i,
            None => {
                self.names.push(stage.to_owned());
                self.histograms.push(new_histogram());
                self.names.len() - 1
            },
        };
        let ghost grown = *self;
        proof {
            assert(grown.wf());
            grown.lemma_place(stage@, at as int);
            assert forall|other: Seq<char>| other != stage@ implies #[trigger] grown.of(other)
                == old(self).of(other) && grown.knows(other) == old(self).knows(other) by {
                if old(self).place(other) is Some {
                    let k = old(self).place(other)->0;
                    assert(grown.names@[k]@ == other);
                    grown.lemma_place(other, k);
                } else if grown.place(other) is Some {
                    let k = grown.place(other)->0;
                    assert(grown.names@[k]@ == other);
                    assert(old(self).names@[k]@ == other);
                }
            }
        }
        let _ = record_sample(&mut self.histograms[at], latency_us);
        proof {
            assert(self.names@ == grown.names@);
            self.lemma_place(stage@, at as int);
            assert forall|other: Seq<char>| other != stage@ implies #[trigger] self.of(other)
                == grown.of(other) && self.knows(other) == grown.knows(other) by {
                if grown.place(other) is Some {
                    let k = grown.place(other)->0;
                    assert(k != at);
                    self.lemma_place(other, k);
                } else if self.place(other) is Some {
                    let k = self.place(other)->0;
                    assert(grown.names@[k]@ == other);
                }
            }
            assert forall|other: Seq<char>| other != stage@ implies (#[trigger] self.knows(other))
                == old(self).knows(other) by {
                assert(self.of(other) == grown.of(other));
                assert(grown.of(other) == old(self).of(other));
            }
        }
    }

    /// The number of samples of a stage and its percentiles, where it has been
    /// seen.
    pub fn percentiles(&self, stage: &str) -> (r: Option<Percentiles>)
        requires
            self.wf(),
        ensures
            r == if self.knows(stage@) {
                Some(
                    Percentiles {
                        count: self.of(stage@).len() as u64,
                        p50: quantile_of(self.of(stage@), 500),
                        p95: quantile_of(self.of(stage@), 950),
                        p99: quantile_of(self.of(stage@), 990),
                        p999: quantile_of(self.of(stage@), 999),
                    },
                )
            } else {
                None
            },
            r matches Some(p) ==> p.count == self.of(stage@).len(),
            r matches Some(p) ==> p.p50 <= p.p95 <= p.p99 <= p.p999,
            r matches Some(p) ==> (p.count == 0 ==> p.p50 == 0 && p.p95 == 0 && p.p99 == 0 && p.p999
                == 0),
    {
        match self.find(stage) {
            Some(i) => {
                let h: &LatencyHistogram = &self.histograms[i];
                assert(samples(*h) == self.of(stage@));
                Some(
                    Percentiles {
                        count: sample_count(h),
                        p50: value_at(h, 500),
                        p95: value_at(h, 950),
                        p99: value_at(h, 990),
                        p999: value_at(h, 999),
                    },
                )
            },
            None => None,
        }
    }

    /// The stages that have been seen, in the order of their first latency.
    pub fn stages(&self) -> (r: &Vec<String>)
        requires
            self.wf(),
        ensures
            forall|stage: Seq<char>|
                #[trigger] self.knows(stage) <==> crate::json::string_views(r@).contains(stage),
    {
        proof {
            assert forall|stage: Seq<char>| #[trigger] self.knows(stage)
                <==> crate::json::string_views(self.names@).contains(stage) by {
                let all = crate::json::string_views(self.names@);
                if self.knows(stage) {
                    let k = self.place(stage)->0;
                    assert(all[k] == stage);
                }
                if all.contains(stage) {
                    let k = choose|k: int| 0 <= k < all.len() && all[k] == stage;
                    assert(self.names@[k]@ == stage);
                }
            }
        }
        &self.names
    }

    /// Forgets all samples; the stages stay.
    pub fn reset(&mut self)
        requires
            old(self).wf(),
        ensures
            final(self).wf(),
            forall|stage: Seq<char>|
                #[trigger] final(self).of(stage) == Multiset::<u64>::empty() && final(self).knows(
                    stage,
                ) == old(self).knows(stage),
    {
        let mut i: usize = 0;
        while i < self.histograms.len()
            invariant
                i <= self.histograms@.len(),
                self.wf(),
                self.names@ == old(self).names@,
                self.histograms@.len() == old(self).histograms@.len(),
                forall|j: int|
                    0 <= j < i ==> samples(#[trigger] self.histograms@[j]) == Multiset::<
                        u64,
                    >::empty(),
            decreases self.histograms@.len() - i,
        {
            reset_histogram(&mut self.histograms[i]);
            i = i + 1;
        }
    }
}

impl Default for LatencyTracker {
    fn default() -> (r: Self)
        ensures
            r.wf(),
            forall|stage: Seq<char>| !(#[trigger] r.knows(stage)),
    {
        LatencyTracker::new()
    }
}

/// A kept latency is not above the latency, and within a thousandth of it.
pub proof fn kept_is_close(us: u64)
    ensures
        kept(us) <= us,
        us < 2048 ==> kept(us) == us,
        (us - kept(us)) * 1000 <= us,
{
    lemma_step_width(us as nat);
    let w = step_width(us as nat);
    vstd::arithmetic::div_mod::lemma_mod_bound(us as int, w as int);
    if us < 2048 {
        assert(us as nat % 1 == 0);
    } else {
        vstd::arithmetic::div_mod::lemma_mod_decreases(us as nat, w);
    }
}

proof fn lemma_step_width(us: nat)
    ensures
        step_width(us) >= 1,
        us >= 2048 ==> 1024 * step_width(us) <= us,
    decreases us,
{
    if us >= 2048 {
        lemma_step_width(us / 2);
    }
}

// ── Health ──────────────────────────────────────────────────────

/// Which feeds are connected, and when they last spoke.
#[derive(Debug, Clone, Copy, PartialEq, Eq, Structural)]
pub struct HealthCheck {
    pub market_ws_connected: bool,
    pub user_ws_connected: bool,
    pub rtds_connected: bool,
    pub binance_connected: bool,
    pub last_market_ws_msg: i64,
    pub last_rtds_msg: i64,
    pub last_binance_msg: i64,
}

impl Default for HealthCheck {
    fn default() -> (r: Self)
        ensures
            r == (HealthCheck {
                market_ws_connected: false,
                user_ws_connected: false,
                rtds_connected: false,
                binance_connected: false,
                last_market_ws_msg: 0,
                last_rtds_msg: 0,
                last_binance_msg: 0,
            }),
    {
        HealthCheck {
            market_ws_connected: false,
            user_ws_connected: false,
            rtds_connected: false,
            binance_connected: false,
            last_market_ws_msg: 0,
            last_rtds_msg: 0,
            last_binance_msg: 0,
        }
    }
}

/// A latency lies in the step that starts where it is kept, up to the step's last
/// latency.
pub proof fn latencies_lie_in_their_step(us: u64)
    ensures
        kept(us) <= us <= step_end(kept(us)),
        us < 2048 ==> step_end(us) == us,
{
    kept_is_close(us);
    lemma_step_width_of_kept(us as nat);
    lemma_step_width(us as nat);
    vstd::arithmetic::div_mod::lemma_mod_bound(us as int, step_width(us as nat) as int);
}

proof fn lemma_step_width_of_kept(us: nat)
    ensures
        us % step_width(us) <= us,
        step_width((us - us % step_width(us)) as nat) == step_width(us),
    decreases us,
{
    reveal_with_fuel(step_width, 2);
    lemma_step_width(us);
    if us >= 2048 {
        let half = us / 2;
        let w = step_width(half);
        lemma_step_width(half);
        lemma_step_width_of_kept(half);
        assert(step_width(us) == 2 * w);
        let q = half / w;
        let r = half % w;
        vstd::arithmetic::div_mod::lemma_fundamental_div_mod(half as int, w as int);
        let rest = us - 2 * half;
        assert(us == (2 * w) * q + (2 * r + rest)) by (nonlinear_arith)
            requires
                half == w * q + r,
                us == 2 * half + rest,
        ;
        vstd::arithmetic::div_mod::lemma_fundamental_div_mod_converse(
            us as int,
            (2 * w) as int,
            q as int,
            2 * r + rest,
        );
        let start = (us - us % (2 * w)) as nat;
        assert(start == 2 * (half - r));
        assert(start / 2 == half - r);
        if half >= 2048 {
            assert(1024 * w <= half);
            assert(q >= 1024) by (nonlinear_arith)
                requires
                    half == w * q + r,
                    r < w,
                    1024 * w <= half,
            ;
            assert(w * q >= 1024 * w) by (nonlinear_arith)
                requires
                    q >= 1024,
            ;
            lemma_step_width_at_least_two(half);
        }
        assert(start >= 2048);
    }
}

proof fn lemma_step_width_at_least_two(us: nat)
    requires
        us >= 2048,
    ensures
        step_width(us) >= 2,
{
    lemma_step_width(us / 2);
}

/// Latencies of a step are kept as one: of two latencies between 2048 and 4096 that
/// differ in their last bit alone, and of four between 4096 and 8192.
pub proof fn steps_double_in_width(us: u64)
    ensures
        2048 <= us < 4096 ==> kept(us) == us - us % 2,
        4096 <= us < 8192 ==> kept(us) == us - us % 4,
        us < 2048 * step_width(us as nat),
{
    reveal_with_fuel(step_width, 4);
    lemma_step_width_is_wide(us as nat);
}

proof fn lemma_step_width_is_wide(us: nat)
    ensures
        us < 2048 * step_width(us),
    decreases us,
{
    if us >= 2048 {
        lemma_step_width_is_wide(us / 2);
    }
}

} // verus!
