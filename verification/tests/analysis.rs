//! Telemetry, lead and lag, and replay.

use beeboop::leadlag_lab::{
    cross_correlate, find_peak, has_enough_pairs, is_marked, leader, pair_returns, recording_name,
    to_returns, LagResult, Leader, PricePoint,
};
use beeboop::logging::trade_log::log_path;
use beeboop::sim::wait_us;
use beeboop::telemetry::{HealthCheck, LatencyTracker};

#[test]
fn latencies_are_counted_by_stage() {
    let mut t = LatencyTracker::new();
    assert!(t.percentiles("a").is_none());
    for us in 1..=100u64 {
        t.record("a", us * 10);
    }
    t.record("b", 5_000_000);
    let p = t.percentiles("a").unwrap();
    assert_eq!((p.count, p.p50, p.p95, p.p99), (100, 500, 950, 990));
    assert!(p.p999 == 1000);
    assert!(p.p50 <= p.p95 && p.p95 <= p.p99 && p.p99 <= p.p999);
    let q = t.percentiles("b").unwrap();
    assert_eq!(q.count, 1);
    assert!(q.p50 >= 5_000_000 && q.p50 < 5_005_000);
    assert_eq!(t.stages(), &vec!["a".to_string(), "b".to_string()]);
    t.record("b", 600_000_000);
    assert_eq!(t.percentiles("b").unwrap().count, 1);
    t.reset();
    let empty = t.percentiles("a").unwrap();
    assert_eq!((empty.count, empty.p50), (0, 0));
    assert!(!HealthCheck::default().rtds_connected);
    assert!(LatencyTracker::default().stages().is_empty());
}

fn point(price: i64, ms: i64) -> PricePoint {
    PricePoint { source: "x".into(), price, source_ts_ms: ms, local_recv_us: ms * 1000 }
}

#[test]
fn returns_skip_prices_that_are_not_positive() {
    let r = to_returns(&[point(100, 0), point(110, 10), point(0, 20), point(5, 30)]);
    assert_eq!(r, vec![(10, 100_000_000_000), (20, -1_000_000_000_000)]);
    assert!(to_returns(&[point(1, 0)]).is_empty());
}

#[test]
fn pairs_are_the_closest_within_tolerance() {
    let a = [point(100, 0), point(110, 1000), point(121, 2000)];
    let b = [point(100, 0), point(101, 1400), point(102, 2600)];
    let r = cross_correlate(&a, &b, 1000, 500);
    let lags: Vec<i64> = r.iter().map(|x| x.lag_ms).collect();
    assert_eq!(lags, vec![-1000, -500, 0, 500, 1000]);
    let sizes: Vec<usize> = r.iter().map(|x| x.pairs.len()).collect();
    assert_eq!(sizes, vec![1, 1, 1, 2, 1]);
    assert!(cross_correlate(&a[..1], &b, 1000, 500).is_empty());
    assert!(cross_correlate(&a, &b, -1, 500).is_empty());
    assert_eq!(cross_correlate(&a, &b, 0, 7).len(), 1);
}

#[test]
fn returns_meet_the_earlier_of_two_as_close() {
    let a = [(1_000i64, 1i128), (1_000, 2), (2_200, 3), (5_000, 4)];
    let b = [(600i64, 10i128), (900, 20), (1_100, 30), (1_700, 40), (4_499, 50)];
    assert_eq!(pair_returns(&a, &b, 0), vec![(1, 20), (2, 20), (3, 40)]);
    assert_eq!(pair_returns(&a, &b, -1), vec![(1, 20), (2, 20), (3, 40), (4, 50)]);
    assert!(pair_returns(&a, &[], 0).is_empty());
}

#[test]
fn the_peak_is_the_strongest() {
    let r = |lag_ms, correlation| LagResult { lag_ms, correlation, n_pairs: 10 };
    let all = [r(-100, 200_000), r(0, -700_000), r(100, 700_000)];
    assert_eq!(find_peak(&all), (-700_000, 0));
    assert_eq!(find_peak(&[]), (0, 0));
    assert_eq!((leader(5), leader(-5), leader(0)), (Leader::First, Leader::Second, Leader::Neither));
    assert!(is_marked(-300_001) && !is_marked(300_000));
    assert!(has_enough_pairs(10) && !has_enough_pairs(9));
}

#[test]
fn replay_waits_for_the_next_event() {
    assert_eq!(wait_us(1_000_000, 0, 50, 50, 1_000_000), 1_000_000);
    assert_eq!(wait_us(1_000_000, 0, 50, 50, 2_000_000), 500_000);
    assert_eq!(wait_us(1_000_000, 0, 50, 2_000_000, 1_000_000), 0);
    assert_eq!(wait_us(5, 5, 50, 50, 3_000_000), 0);
}

#[test]
fn files_are_named_by_their_stamp() {
    assert_eq!(recording_name("20260101_000000"), "events_20260101_000000.jsonl");
    assert_eq!(log_path("logs", "20260101_000000"), "logs/trades_20260101_000000.jsonl");
}
