//! What holds of several steps together, on concrete values.

use beeboop::feeds::user_ws::{reconnect_at, UserFillEvent};
use beeboop::fixed::{div_round, parse_amount, round_cents};
use beeboop::market::discovery::{parse_market, window_slug};
use beeboop::signals::signal_engine::{SignalCounters, Skip};
use beeboop::strategy::quantize_price;
use beeboop::text::{int_string, parse_i64};
use beeboop::types_v2::{ExecutionCommand, MarketDescriptor, PolymarketTop, Side};
use beeboop::vidarx_btc15::{Draws, FlashLadder};

const START: i64 = 1_774_012_200;

fn market() -> MarketDescriptor {
    MarketDescriptor {
        slug: "s".into(),
        condition_id: "c".into(),
        up_token_id: "u".into(),
        down_token_id: "d".into(),
        window_start_ts: START,
        window_end_ts: START + 900,
    }
}

fn top() -> PolymarketTop {
    PolymarketTop {
        recv_ts_ms: 0,
        up_bid: Some(500_000),
        up_ask: Some(520_000),
        down_bid: Some(480_000),
        down_ask: Some(500_000),
    }
}

fn draws() -> Draws {
    Draws {
        spike_interval_ms: 500,
        flash_interval_ms: 500,
        up_sizes: [8, 8, 8],
        dn_sizes: [8, 8, 8],
        need_sizes: [8, 8, 8],
        cancel_delay_ms: 500,
    }
}

fn fill(asset: &str, size: i64) -> UserFillEvent {
    UserFillEvent {
        order_id: "o".into(),
        asset_id: asset.into(),
        side: "BUY".into(),
        price: 450_000,
        size,
        status: "ORDER_UPDATE".into(),
        ts_ms: 0,
    }
}

#[test]
fn no_more_is_bid_for_than_a_side_lacks() {
    let mut s = FlashLadder::new();
    s.enter_window(START, 500, 99);
    s.on_fill(&fill("u", 188_000_000), &market());
    s.on_fill(&fill("d", 190_000_000), &market());
    let mut up: i128 = 0;
    let mut dn: i128 = 0;
    for c in s.tick((START + 5) * 1000, &market(), &top(), &draws()) {
        if let ExecutionCommand::PostMakerBid { side, size, post_only, price, .. } = c {
            assert!(post_only && size >= 5_000_000 && price % 10_000 == 0);
            match side {
                Side::Up => up += size,
                Side::Down => dn += size,
            }
        }
    }
    assert_eq!((up, dn), (8_000_000, 8_000_000));
}

#[test]
fn repair_mode_stays_between_its_thresholds() {
    let mut s = FlashLadder::new();
    s.enter_window(START, 500, 99);
    s.on_fill(&fill("u", 100_000_000), &market());
    s.on_fill(&fill("d", 60_000_000), &market());
    s.tick((START + 5) * 1000, &market(), &top(), &draws());
    assert!(!s.repair_mode);
    s.on_fill(&fill("u", 1_000_000), &market());
    s.tick((START + 6) * 1000, &market(), &top(), &draws());
    assert!(s.repair_mode);
    s.on_fill(&fill("d", 35_900_000), &market());
    s.tick((START + 7) * 1000, &market(), &top(), &draws());
    assert!(s.repair_mode);
    s.on_fill(&fill("d", 100_000), &market());
    s.tick((START + 8) * 1000, &market(), &top(), &draws());
    assert!(!s.repair_mode);
}

#[test]
fn the_second_phase_is_final_within_a_window() {
    let mut s = FlashLadder::new();
    s.enter_window(START, 500, 99);
    s.on_fill(&fill("u", 10_000_000), &market());
    s.tick((START + 630) * 1000, &market(), &top(), &draws());
    assert!(s.phase2_mode);
    s.tick((START + 10) * 1000, &market(), &top(), &draws());
    assert!(s.phase2_mode);
    s.enter_window(START + 900, 500, 99);
    assert!(!s.phase2_mode && !s.pair_done);
    assert_eq!((s.held.up_shares, s.held.fills), (0, 0));
}

#[test]
fn counters_add_up_tick_by_tick() {
    let mut c = SignalCounters::default();
    for skip in [
        Skip::MissingLookback,
        Skip::FastTriggerFloor,
        Skip::StateNotIdle,
        Skip::Cooldown,
        Skip::NearExpiry,
        Skip::MissingBook,
        Skip::Spread,
        Skip::EntryPriceHigh,
        Skip::MissingChainlink,
        Skip::ScoreSignMismatch,
        Skip::StrongContradiction,
        Skip::ScoreFloor,
    ] {
        c.count(&Err(skip));
    }
    assert_eq!((c.ticks_processed, c.signals_emitted), (12, 0));
    assert_eq!((c.skip_cooldown, c.skip_score_floor, c.skip_missing_book), (1, 1, 1));
    c.ticks_processed = u64::MAX;
    c.count(&Err(Skip::Spread));
    assert_eq!((c.ticks_processed, c.skip_spread), (0, 2));
}

#[test]
fn numerals_and_slugs_read_back() {
    for n in [0i64, 7, 300, 1_774_012_200, i64::MAX, i64::MIN, -45] {
        assert_eq!(parse_i64(&int_string(n as i128)), Some(n));
    }
    let slug = window_slug("btc-updown-5m", START);
    let body = r#"[{"markets":[{"outcomes":"[\"Up\",\"Down\"]","clobTokenIds":"[\"1\",\"2\"]","conditionId":"c"}]}]"#;
    assert_eq!(parse_market(body, &slug).unwrap().window_start_ts, START);
}

#[test]
fn rounding_and_quantizing_keep_order() {
    let mut last = i128::MIN;
    for n in -25..=25 {
        let q = div_round(n, 4);
        assert!(q >= last && (q * 4 - n).abs() <= 2);
        assert_eq!(div_round(-n, 4), -q);
        last = q;
    }
    for p in [0i64, 9_999, 10_000, 637_000, 999_999] {
        let q = quantize_price(p, 10_000);
        assert!(q <= p && p - q < 10_000 && q % 10_000 == 0);
        assert_eq!(quantize_price(q, 10_000), q);
        assert_eq!(round_cents(q as i128), q as i128);
    }
    assert_eq!(parse_amount("0.29"), Some(290_000));
}

#[test]
fn marks_come_once_an_interval() {
    let mut now = 1_700_000_000i64;
    for _ in 0..5 {
        let next = reconnect_at(now, 600) as i64;
        assert!(next > now && next <= now + 600 && (next + 60) % 600 == 0);
        now = next;
    }
}
