//! The bots' strategies, step by step.

use beeboop::btc_mint::{parse_mint, MintOutcome, MintSell, MAX_SNIPES_PER_WINDOW};
use beeboop::config_v2::Config;
use beeboop::extended::Extended;
use beeboop::feed_state::{
    cycle, dispatch, load_config, parse_mode, Dispatch, FeedState, Mode, Tally,
};
use beeboop::feeds::user_ws::UserFillEvent;
use beeboop::inventory::Inventory;
use beeboop::ladder::{ladder, RepairCap};
use beeboop::lockprofit_xrp::LockProfit;
use beeboop::portfolio::position_manager::{after_wait, settle_pair, PairManager};
use beeboop::signals::features::{compute_basis_bps, compute_move_bps};
use beeboop::signals::signal_engine::{
    strong_contradiction, Ema, SignalEngine, Skip, Surroundings, TimeSeriesBuffer, Weights,
    ALPHA_ONE,
};
use beeboop::state::SharedState;
use beeboop::strategy::{RiskLimits, StrategyAction};
use beeboop::strategy_v2::sniper::{compute_notional, Sniper};
use beeboop::types::{ObiSignal, OracleLagDirection, RefPrice, RefSource, TickSize, BBO};
use beeboop::types_v2::{
    BinanceTick, ChainlinkTick, EntryMode, ExecutionCommand, ExecutionEvent, LogEvent,
    MarketDescriptor, PolymarketTop, Side, Signal, StrategyState,
};
use beeboop::vidarx::Rounds;
use beeboop::vidarx_btc15::{markout, repair_pair_cost_target, Draws, FlashLadder};
use beeboop::{binance_l2, market_ws, rtds, vidarx, vidarx_xrp};

const START: i64 = 1_774_012_200;

fn market() -> MarketDescriptor {
    MarketDescriptor {
        slug: "s".into(),
        condition_id: "c".into(),
        up_token_id: "u".into(),
        down_token_id: "d".into(),
        window_start_ts: START,
        window_end_ts: START + 300,
    }
}

fn at(seconds: i64) -> i64 {
    (START + seconds) * 1000
}

fn top(up_bid: i64, up_ask: i64, down_bid: i64, down_ask: i64) -> PolymarketTop {
    PolymarketTop {
        recv_ts_ms: 0,
        up_bid: Some(up_bid),
        up_ask: Some(up_ask),
        down_bid: Some(down_bid),
        down_ask: Some(down_ask),
    }
}

fn fill(asset: &str, side: &str, size: i64, price: i64) -> UserFillEvent {
    UserFillEvent {
        order_id: "o".into(),
        asset_id: asset.into(),
        side: side.into(),
        price,
        size,
        status: "ORDER_UPDATE".into(),
        ts_ms: 0,
    }
}

fn draws() -> Draws {
    Draws {
        spike_interval_ms: 600,
        flash_interval_ms: 700,
        up_sizes: [8, 6, 6],
        dn_sizes: [5, 5, 5],
        need_sizes: [7, 7, 7],
        cancel_delay_ms: 900,
    }
}

fn reason(c: &ExecutionCommand) -> &str {
    match c {
        ExecutionCommand::CancelAll { reason } => reason,
        _ => "",
    }
}

fn bid(c: &ExecutionCommand) -> (Side, i128, i128, String) {
    match c {
        ExecutionCommand::PostMakerBid { side, price, size, ladder_key, .. } => {
            (*side, *price, *size, ladder_key.clone())
        }
        _ => panic!("no bid"),
    }
}

#[test]
fn ladders_stop_where_nothing_is_left() {
    let rungs = ladder(600_000, 620_000, None, 3, &[8, 6, 6], 13_000_000);
    let got: Vec<(usize, i128, i128)> = rungs.iter().map(|r| (r.level, r.price, r.size)).collect();
    assert_eq!(got, vec![(0, 570_000, 8_000_000), (1, 560_000, 5_000_000)]);
    assert!(ladder(600_000, 620_000, None, 3, &[8, 6, 6], 4_999_999).is_empty());
    assert!(ladder(600_000, 560_000, None, 3, &[8, 6, 6], 100_000_000).len() == 1);
    assert!(ladder(40_000, 60_000, None, 3, &[8, 6, 6], 100_000_000).is_empty());
    let cap = RepairCap { target: 970_000, cost: 60_000_000_000_000, shares: 100_000_000 };
    let capped = ladder(400_000, 420_000, Some(cap), 1, &[5, 5, 5], 100_000_000);
    assert_eq!(capped.iter().map(|r| r.price).collect::<Vec<_>>(), vec![370_000]);
}

#[test]
fn flash_ladder_posts_on_both_sides_and_cancels() {
    let mut s = FlashLadder::new();
    let c = s.enter_window(START, 500, 26);
    assert_eq!(reason(&c[0]), "new_window");
    assert!(s.enter_window(START, 500, 26).is_empty());
    assert!(!s.window_skip);
    let t = top(500_000, 520_000, 480_000, 500_000);
    let posted = s.tick(at(0), &market(), &t, &draws());
    assert_eq!(posted.len(), 6);
    assert_eq!(bid(&posted[0]), (Side::Up, 470_000, 8_000_000, "up:0".to_string()));
    assert_eq!(bid(&posted[3]), (Side::Down, 450_000, 5_000_000, "dn:0".to_string()));
    assert!(s.orders_live);
    assert!(s.tick(at(0) + 800, &market(), &t, &draws()).is_empty());
    let cancelled = s.tick(at(0) + 900, &market(), &t, &draws());
    assert_eq!(cancelled.len(), 1);
    assert_eq!(reason(&cancelled[0]), "flash_cancel");
    assert!(s.tick(at(0) + 1500, &market(), &t, &draws()).is_empty());
    assert_eq!(s.tick(at(0) + 1600, &market(), &t, &draws()).len(), 6);
    s.on_signal(560_000);
    let spiked = s.tick(at(0) + 1700, &market(), &t, &draws());
    assert_eq!(reason(&spiked[0]), "obi_spike");
}

#[test]
fn flash_ladders_start_three_cents_below_the_bid() {
    let mut s = FlashLadder::new();
    s.enter_window(START, 500, 50);
    let t = top(500_000, 550_000, 440_000, 490_000);
    let posted = s.tick(at(5), &market(), &t, &draws());
    let prices: Vec<i128> = posted.iter().map(|c| bid(c).1).collect();
    assert_eq!(prices, vec![470_000, 460_000, 450_000, 410_000, 400_000, 390_000]);
}

#[test]
fn flash_ladder_skips_a_quarter_of_the_windows() {
    let mut s = FlashLadder::new();
    s.enter_window(START, 500, 25);
    assert!(s.window_skip);
    let t = top(500_000, 520_000, 480_000, 500_000);
    assert!(s.tick(at(10), &market(), &t, &draws()).is_empty());
}

#[test]
fn flash_ladder_repairs_then_matches() {
    let mut s = FlashLadder::new();
    s.enter_window(START, 500, 50);
    s.on_fill(&fill("u", "BUY", 100_000_000, 500_000), &market());
    s.on_fill(&fill("d", "BUY", 50_000_000, 450_000), &market());
    s.on_fill(&fill("d", "SELL", 50_000_000, 450_000), &market());
    s.on_fill(&fill("z", "BUY", 50_000_000, 450_000), &market());
    assert_eq!((s.held.up_shares, s.held.dn_shares, s.held.fills), (100_000_000, 50_000_000, 2));
    assert_eq!(s.held.average_pair_cost(), 950_000);
    let t = top(500_000, 520_000, 480_000, 500_000);
    let posted = s.tick(at(20), &market(), &t, &draws());
    assert!(s.repair_mode);
    assert_eq!(bid(&posted[0]).1, 450_000);
    assert_eq!(bid(&posted[3]).1, 470_000);
    s.on_fill(&fill("d", "BUY", 45_000_000, 450_000), &market());
    s.tick(at(21), &market(), &t, &draws());
    assert!(!s.repair_mode);
    s.on_fill(&fill("u", "BUY", 96_000_000, 500_000), &market());
    let (side, c) = s.on_fill(&fill("d", "BUY", 92_000_000, 450_000), &market());
    assert_eq!(side, Some(Side::Down));
    assert_eq!(reason(&c[0]), "matched_pair_done");
    assert!(s.pair_done);
    assert!(s.tick(at(22), &market(), &t, &draws()).is_empty());
}

#[test]
fn flash_ladder_second_phase_bids_one_side() {
    let mut s = FlashLadder::new();
    s.enter_window(START, 500, 50);
    s.on_fill(&fill("u", "BUY", 198_000_000, 500_000), &market());
    let t = top(500_000, 520_000, 480_000, 500_000);
    let c = s.tick(at(20), &market(), &t, &draws());
    assert_eq!(reason(&c[0]), "phase2_start");
    assert!(s.phase2_mode);
    let posted = s.tick(at(21), &market(), &t, &draws());
    assert_eq!(posted.len(), 3);
    assert_eq!(bid(&posted[0]), (Side::Down, 470_000, 7_000_000, "p2_dn:0".to_string()));
    assert_eq!(bid(&posted[1]).3, "p2_dn:1");
}

#[test]
fn flash_ladder_second_phase_ends_where_the_sides_match() {
    let t = top(500_000, 520_000, 480_000, 500_000);
    let ended = |up: i64, dn: i64| {
        let mut s = FlashLadder::new();
        s.enter_window(START, 500, 50);
        s.on_fill(&fill("u", "BUY", up, 500_000), &market());
        assert_eq!(reason(&s.tick(at(630), &market(), &t, &draws())[0]), "phase2_start");
        s.on_fill(&fill("d", "BUY", dn, 450_000), &market());
        let done = s.tick(at(631), &market(), &t, &draws());
        assert!(s.pair_done);
        reason(done.last().unwrap()).to_string()
    };
    assert_eq!(ended(100_000_000, 95_000_000), "matched_within_tolerance");
    assert_eq!(ended(10_000_000, 6_000_000), "close_enough_sub5");
}

#[test]
fn flash_ladder_ends_late() {
    let t = top(500_000, 520_000, 480_000, 500_000);
    let mut s = FlashLadder::new();
    s.enter_window(START, 500, 50);
    s.on_fill(&fill("u", "BUY", 100_000_000, 500_000), &market());
    s.on_fill(&fill("d", "BUY", 85_000_000, 450_000), &market());
    let c = s.tick(at(735), &market(), &t, &draws());
    assert_eq!(reason(&c[0]), "late_accept");
    let mut e = FlashLadder::new();
    e.enter_window(START, 500, 50);
    assert!(e.tick(at(840), &market(), &t, &draws()).is_empty());
    assert!(e.pair_done);
    let mut early = FlashLadder::new();
    early.enter_window(START, 500, 50);
    assert!(early.tick(at(-61), &market(), &t, &draws()).is_empty());
    assert_eq!(early.tick(at(-60), &market(), &t, &draws()).len(), 6);
}

#[test]
fn flash_ladder_draws_within_range() {
    let mut s = FlashLadder::new();
    assert_eq!(s.on_market(START).len(), 1);
    assert!((500..=2000).contains(&s.next_post_interval_ms));
    s.window_skip = false;
    let t = top(500_000, 520_000, 480_000, 500_000);
    for c in s.on_tick(at(5), &market(), &t) {
        let (_, price, size, _) = bid(&c);
        assert!(price >= 420_000 && price <= 480_000);
        assert!(size >= 5_000_000 && size <= 8_000_000);
    }
    assert!((500..=2000).contains(&s.cancel_delay_ms));
    s.on_event(&ExecutionEvent::MakerOrderPosted {
        ts_ms: 0,
        ladder_key: "matching_gtc".into(),
        order_id: "o".into(),
    });
    assert!(s.matching_gtc_posted);
}

#[test]
fn repair_targets_and_markouts() {
    assert_eq!(repair_pair_cost_target(85, 100), 970_000);
    assert_eq!(repair_pair_cost_target(70, 100), 990_000);
    assert_eq!(repair_pair_cost_target(50, 100), 1_000_000);
    assert_eq!(repair_pair_cost_target(49, 100), 1_020_000);
    assert_eq!(vidarx::repair_pair_cost_target(85, 100), 960_000);
    assert_eq!(vidarx::repair_pair_cost_target(84, 100), 970_000);
    assert_eq!(vidarx::repair_pair_cost_target(50, 100), 980_000);
    assert_eq!(vidarx::repair_pair_cost_target(0, 100), 990_000);
    let t = top(500_000, 520_000, 480_000, 500_000);
    assert_eq!(markout(&t, Side::Up, 500_000), (510_000, 10_000));
    assert_eq!(markout(&PolymarketTop::default(), Side::Down, 500_000), (0, -500_000));
}

#[test]
fn inventory_counts_fills_in_any_order() {
    let mut a = Inventory::new();
    let mut b = Inventory::new();
    assert!(a.fits(Side::Up, 5_000_000, 600_000));
    a.record(Side::Up, 5_000_000, 600_000);
    a.record(Side::Down, 4_000_000, 300_000);
    b.record(Side::Down, 4_000_000, 300_000);
    b.record(Side::Up, 5_000_000, 600_000);
    assert_eq!((a.up_cost, a.dn_cost, a.fills), (b.up_cost, b.dn_cost, b.fills));
    assert_eq!((a.most(), a.least()), (5_000_000, 4_000_000));
    a.fills = u32::MAX;
    assert!(!a.fits(Side::Up, 1, 1));
}

#[test]
fn rounds_fall_due_every_twenty_five_seconds() {
    assert_eq!(vidarx::due_rounds(9), 0);
    assert_eq!(vidarx::due_rounds(10), 1);
    assert_eq!(vidarx::due_rounds(34), 1);
    assert_eq!(vidarx::due_rounds(35), 2);
    assert_eq!(vidarx::due_rounds(1000), 10);
}

#[test]
fn vidarx_bids_a_pair_at_ninety_six_cents() {
    let mut s = Rounds::new();
    assert_eq!(reason(&s.on_market(START)[0]), "new_window");
    let t = top(600_000, 620_000, 360_000, 400_000);
    assert!(s.on_tick(at(9), &market(), &t).is_empty());
    let c = s.on_tick(at(10), &market(), &t);
    assert_eq!(bid(&c[0]), (Side::Up, 600_000, 5_000_000, "up:r1".to_string()));
    assert_eq!(bid(&c[1]), (Side::Down, 360_000, 5_000_000, "dn:r1".to_string()));
    assert!(s.on_tick(at(11), &market(), &t).is_empty());
    assert_eq!(s.rounds_posted, 1);
    assert_eq!(s.on_tick(at(35), &market(), &t).len(), 2);
    assert_eq!(s.on_fill(&fill("u", "BUY", 5_000_000, 600_000), &market()), Some(Side::Up));
    assert_eq!(s.held.up_shares, 5_000_000);
    assert!(s.on_tick(at(60), &market(), &PolymarketTop::default()).is_empty());
    s.on_signal(3);
    assert_eq!(s.latest_obi, 3);
}

#[test]
fn vidarx_xrp_buys_the_expensive_side() {
    let mut s = Rounds::new();
    s.on_market(START);
    let t = top(600_000, 620_000, 360_000, 400_000);
    let c = vidarx_xrp::on_tick(&mut s, at(10), &market(), &t);
    match &c[0] {
        ExecutionCommand::PostMakerBid { side, price, post_only, ladder_key, was_cheap, .. } => {
            assert_eq!((*side, *price, *post_only), (Side::Up, 620_000, false));
            assert_eq!((ladder_key.as_str(), *was_cheap), ("exp:fok:r1", false));
        }
        _ => panic!("no order"),
    }
    assert!(vidarx_xrp::on_tick(&mut s, at(12), &market(), &t).is_empty());
    assert_eq!(vidarx_xrp::expensive_side(&top(0, 5, 0, 6)), Some((Side::Down, 6)));
    assert_eq!(vidarx_xrp::expensive_side(&top(0, 6, 0, 6)), Some((Side::Up, 6)));
}

#[test]
fn lockprofit_buys_a_pair_for_ninety_five_cents() {
    let mut s = LockProfit::new();
    s.on_market(START);
    let low = top(570_000, 590_000, 400_000, 420_000);
    assert!(s.on_tick(at(20), &market(), &low).is_empty());
    let t = top(600_000, 620_000, 360_000, 390_000);
    assert!(s.on_tick(at(9), &market(), &t).is_empty());
    let c = s.on_tick(at(20), &market(), &t);
    match &c[0] {
        ExecutionCommand::EnterTaker { side, max_price, notional, .. } => {
            assert_eq!((*side, *max_price, *notional), (Side::Up, 620_000, 20_000_000))
        }
        _ => panic!("no entry"),
    }
    assert_eq!(
        bid(&c[1]),
        (Side::Down, 330_000, 20_000_000, "lockprofit_cheap".to_string())
    );
    assert!(s.on_tick(at(100), &market(), &t).is_empty());
    let force = s.on_tick(at(210), &market(), &t);
    assert_eq!(reason(&force[0]), "force_match_t210");
    assert!(matches!(&force[1], ExecutionCommand::EnterTaker { side: Side::Down, .. }));
    assert!(s.pair_done);
    assert!(s.on_tick(at(211), &market(), &t).is_empty());
}

#[test]
fn lockprofit_starts_with_twenty_shares_a_leg() {
    let mut s = LockProfit::new();
    s.on_market(START);
    let c = s.on_tick(at(20), &market(), &top(600_000, 620_000, 380_000, 400_000));
    assert!(matches!(
        &c[0],
        ExecutionCommand::EnterTaker { side: Side::Up, notional: 20_000_000, .. }
    ));
    assert_eq!(bid(&c[1]).1, 330_000);
}

#[test]
fn lockprofit_stops_a_flip_and_sees_a_lock() {
    let t = top(600_000, 620_000, 360_000, 390_000);
    let flip = top(300_000, 320_000, 600_000, 640_000);
    let mut s = LockProfit::new();
    s.on_market(START);
    s.on_tick(at(20), &market(), &t);
    assert_eq!(reason(&s.on_tick(at(215), &market(), &flip)[0]), "flip_stop_loss");
    let mut l = LockProfit::new();
    l.on_market(START);
    l.on_tick(at(20), &market(), &t);
    l.on_fill(&fill("u", "BUY", 20_000_000, 620_000), &market());
    assert!(!l.both_legs_filled);
    l.on_fill(&fill("d", "BUY", 20_000_000, 330_000), &market());
    assert!(l.both_legs_filled);
    assert!(l.on_tick(at(30), &market(), &t).is_empty());
    assert!(l.pair_done);
    let dear = top(940_000, 945_000, 40_000, 60_000);
    let mut d = LockProfit::new();
    d.on_market(START);
    assert_eq!(d.on_tick(at(30), &market(), &dear).len(), 1);
    assert!(d.pair_done);
}

#[test]
fn lockprofit_scales_with_its_results() {
    let mut s = LockProfit::new();
    assert_eq!(s.shares_per_leg, 20_000_000);
    let mut w = START;
    s.on_market(w);
    for i in 0..30 {
        s.pair_done = true;
        s.both_legs_filled = i < 27;
        w += 300;
        s.on_market(w);
    }
    assert_eq!(s.shares_per_leg, 40_000_000);
    assert!(s.window_results.is_empty());
    for _ in 0..90 {
        s.pair_done = true;
        s.both_legs_filled = false;
        w += 300;
        s.on_market(w);
    }
    assert_eq!(s.shares_per_leg, 20_000_000);
}

#[test]
fn mint_sell_uses_its_stock_up() {
    let mut s = MintSell::new();
    let mut shared = SharedState::new();
    s.on_market(&mut shared, START);
    assert!(s.should_mint(&market()));
    assert!(s.on_signal(&market(), Side::Up, at(10), 180).is_none());
    s.on_mint_answer(&parse_mint(r#"{"success":false,"error":"gas"}"#));
    assert!(!s.minted_this_window);
    s.on_mint_answer(&parse_mint(r#"{"success":true,"elapsed_ms":12}"#));
    assert!(s.minted_this_window && !s.should_mint(&market()));
    let mut now = at(10);
    for _ in 0..MAX_SNIPES_PER_WINDOW {
        let snipe = s.on_signal(&market(), Side::Up, now, 180).unwrap();
        assert_eq!((snipe.first_token.as_str(), snipe.second_token.as_str()), ("d", "u"));
        s.on_sniped(now);
        assert!(s.on_signal(&market(), Side::Up, now + 1499, 180).is_none());
        now += 1500;
    }
    assert_eq!((s.inventory_up, s.inventory_dn), (0, 0));
    assert!(s.on_signal(&market(), Side::Up, now, 180).is_none());
    s.on_market(&mut shared, START + 300);
    assert_eq!(s.snipes_this_window, 0);
}

#[test]
fn mint_sell_keeps_to_its_direction_and_time() {
    let mut s = MintSell::new();
    let mut shared = SharedState::new();
    s.on_market(&mut shared, START);
    s.on_minted();
    assert!(s.on_signal(&market(), Side::Down, at(181), 180).is_none());
    assert!(s.on_signal(&market(), Side::Down, at(180), 180).is_some());
    assert!(s.on_signal(&market(), Side::Up, at(180), 180).is_none());
    assert!(matches!(parse_mint("x"), MintOutcome::Unreadable));
    assert!(matches!(parse_mint("{}"), MintOutcome::Failed { error } if error == "unknown"));
}

// ── Signals ─────────────────────────────────────────────────────

#[test]
fn buffers_keep_the_recent_and_find_the_latest() {
    let mut b = TimeSeriesBuffer::new(5_000);
    b.push(1_000, 1);
    b.push(3_000, 2);
    b.push(6_000, 3);
    assert_eq!(b.get_at_or_before(1_000), Some(1));
    assert_eq!(b.get_at_or_before(5_999), Some(2));
    assert_eq!(b.get_at_or_before(999), None);
    b.push(6_001, 4);
    assert_eq!(b.get_at_or_before(2_999), None);
    assert_eq!(b.get_at_or_before(9_999), Some(4));
}

#[test]
fn averages_move_towards_the_samples() {
    let n = Extended::Number;
    let mut e = Ema::new(250_000_000);
    assert_eq!(e.since_last(5), None);
    assert_eq!(e.update(10, n(1_000_000), 0), n(1_000_000));
    assert_eq!(e.since_last(30), Some(20));
    assert_eq!(e.since_last(5), Some(1));
    assert_eq!(e.update(30, n(2_000_000), ALPHA_ONE / 4), n(1_250_000));
    assert_eq!(e.update(31, n(-750_000), ALPHA_ONE), n(-750_000));
    assert_eq!(e.update(32, n(500_000), 0), n(-750_000));
    assert_eq!(e.update(33, Extended::Below, 1), Extended::Below);
    assert_eq!(e.update(34, n(0), ALPHA_ONE), Extended::Undefined);
    assert_eq!(e.update(35, n(0), ALPHA_ONE), Extended::Undefined);
}

fn tick(ts: i64, mid: i64) -> BinanceTick {
    BinanceTick { recv_ts_ms: ts, event_ts_ms: ts, bid: mid, ask: mid, mid, obi: Some(500_000) }
}

fn surroundings() -> Surroundings {
    Surroundings {
        state: StrategyState::Idle,
        cooldown_until_ms: None,
        window_end_ts: START + 300,
        top: top(450_000, 470_000, 500_000, 530_000),
        chainlink: Some(ChainlinkTick {
            recv_ts_ms: 0,
            source_ts_ms: None,
            price: 70_000_000_000,
        }),
    }
}

fn warmed(config: &Config) -> SignalEngine {
    let mut e = SignalEngine::new(config);
    let w = Weights { basis: 0, obi: 0 };
    for i in 0..11 {
        let r = e.on_tick(config, &tick(at(10) + i * 200, 70_000_000_000), &surroundings(), &w);
        assert!(r.is_err());
    }
    e
}

#[test]
fn a_fast_move_gives_a_signal() {
    let config = Config::default();
    let mut e = warmed(&config);
    assert_eq!(e.counters.skip_missing_lookback, 10);
    assert_eq!(e.counters.skip_fast_trigger_floor, 1);
    let w = Weights { basis: ALPHA_ONE / 100, obi: ALPHA_ONE };
    let now = at(10) + 2200;
    let s = e.on_tick(&config, &tick(now, 70_021_000_000), &surroundings(), &w).unwrap();
    assert_eq!((s.side, s.entry_mode), (Side::Up, EntryMode::Taker));
    let three = Extended::Number(3_000_000);
    assert_eq!((s.r200_bps, s.r2000_bps, s.fast_move_bps), (three, three, three));
    assert_eq!(s.raw_basis_bps, three);
    assert_eq!((s.basis_dev_bps, s.dbasis_bps), (Extended::Number(0), Extended::Number(0)));
    assert_eq!(s.obi_ema, 500_000);
    assert_eq!(s.score, 1_192_857);
    assert_eq!(s.confidence, 795_238);
    assert_eq!(e.counters.signals_emitted, 1);
    assert_eq!(e.counters.ticks_processed, 12);
    let down = e.on_tick(&config, &tick(now + 100, 69_979_000_000), &surroundings(), &w);
    assert_eq!(down.unwrap().side, Side::Down);
}

#[test]
fn each_gate_gives_its_reason() {
    let config = Config::default();
    let w = Weights { basis: 0, obi: 0 };
    let now = at(10) + 2200;
    let try_with = |s: Surroundings, mid: i64| {
        let mut e = warmed(&config);
        e.on_tick(&config, &tick(now, mid), &s, &w).map(|_| ()).unwrap_err()
    };
    let up = 70_021_000_000;
    let base = surroundings();
    assert_eq!(try_with(base, 70_000_000_000), Skip::FastTriggerFloor);
    let busy = Surroundings { state: StrategyState::Entering, ..base };
    assert_eq!(try_with(busy, up), Skip::StateNotIdle);
    let paused = Surroundings { cooldown_until_ms: Some(now + 1), ..base };
    assert_eq!(try_with(paused, up), Skip::Cooldown);
    let late = Surroundings { window_end_ts: now / 1000 + 59, ..base };
    assert_eq!(try_with(late, up), Skip::NearExpiry);
    let blind = Surroundings { top: PolymarketTop::default(), ..base };
    assert_eq!(try_with(blind, up), Skip::MissingBook);
    let wide = Surroundings { top: top(400_000, 450_000, 0, 0), ..base };
    assert_eq!(try_with(wide, up), Skip::Spread);
    let dear = Surroundings { top: top(970_000, 980_000, 0, 0), ..base };
    assert_eq!(try_with(dear, up), Skip::EntryPriceHigh);
    let deaf = Surroundings { chainlink: None, ..base };
    assert_eq!(try_with(deaf, up), Skip::MissingChainlink);
}

#[test]
fn mids_of_zero_give_returns_without_bound() {
    let config = Config::default();
    let w = Weights { basis: 0, obi: 0 };
    let mut e = SignalEngine::new(&config);
    for i in 0..10 {
        let _ = e.on_tick(&config, &tick(at(10) + i * 200, 0), &surroundings(), &w);
    }
    let mut last = tick(at(10) + 2000, 70_000_000_000);
    let s = e.on_tick(&config, &last, &surroundings(), &w).unwrap();
    assert_eq!((s.side, s.r200_bps, s.r2000_bps), (Side::Up, Extended::Above, Extended::Above));
    assert_eq!(s.fast_move_bps, Extended::Above);
    assert_eq!(s.raw_basis_bps, Extended::Number(0));
    assert_eq!(s.score, 1_342_857);
    // Zero from zero is undefined, which points down and has the lowest score.
    let mut z = SignalEngine::new(&config);
    for i in 0..10 {
        let _ = z.on_tick(&config, &tick(at(10) + i * 200, 0), &surroundings(), &w);
    }
    last.mid = 0;
    let d = z.on_tick(&config, &last, &surroundings(), &w).unwrap();
    assert_eq!((d.side, d.fast_move_bps), (Side::Down, Extended::Undefined));
    assert_eq!(d.score, -1_057_143);
    assert_eq!(z.counters.signals_emitted, 1);
}

#[test]
fn an_oracle_at_zero_gives_a_basis_without_bound() {
    let config = Config::default();
    let w = Weights { basis: 0, obi: 0 };
    let mut e = warmed(&config);
    let mut s = surroundings();
    s.chainlink = Some(ChainlinkTick { recv_ts_ms: 0, source_ts_ms: None, price: 0 });
    let first = e.on_tick(&config, &tick(at(10) + 2200, 70_021_000_000), &s, &w).unwrap();
    assert_eq!(first.raw_basis_bps, Extended::Above);
    assert_eq!((first.basis_dev_bps, first.dbasis_bps), (Extended::Undefined, Extended::Number(0)));
    assert_eq!(first.score, 792_857);
    assert_eq!(e.basis_ema.value, Some(Extended::Above));
    let back = surroundings();
    let _ = e.on_tick(&config, &tick(at(10) + 2300, 70_042_000_000), &back, &w);
    assert_eq!(e.basis_ema.value, Some(Extended::Undefined));
}

#[test]
fn scores_that_are_small_or_contradicted_are_dropped() {
    let mut config = Config::default();
    config.maker_score_min = 1_900_000;
    let w = Weights { basis: 0, obi: 0 };
    let mut e = warmed(&config);
    let r = e.on_tick(&config, &tick(at(10) + 2200, 70_021_000_000), &surroundings(), &w);
    assert_eq!(r.map(|_| ()).unwrap_err(), Skip::ScoreFloor);
    let n = Extended::Number;
    assert!(strong_contradiction(Side::Up, n(-1_500_001), n(-800_001), n(-2_000_001)));
    assert!(!strong_contradiction(Side::Up, n(-1_500_000), n(-800_001), n(-2_000_001)));
    assert!(strong_contradiction(Side::Down, n(1_500_001), n(800_001), n(2_000_001)));
    assert!(strong_contradiction(Side::Up, Extended::Below, Extended::Below, Extended::Below));
    assert!(!strong_contradiction(Side::Up, Extended::Undefined, Extended::Below, Extended::Below));
    assert_eq!(compute_move_bps(101_000_000, 100_000_000), 100_000_000);
    assert_eq!(compute_basis_bps(1, 0), 0);
    assert_eq!(compute_basis_bps(99_000_000, 100_000_000), -100_000_000);
}

#[test]
fn a_score_against_the_move_is_dropped() {
    let config = Config::default();
    let mut e = SignalEngine::new(&config);
    let w = Weights { basis: ALPHA_ONE, obi: ALPHA_ONE };
    let mids = [
        70_100_000_000i64,
        70_080_000_000,
        70_060_000_000,
        70_040_000_000,
        70_030_000_000,
        70_020_000_000,
        70_010_000_000,
        70_005_000_000,
        70_000_000_000,
        69_998_000_000,
        69_990_000_000,
    ];
    for (i, mid) in mids.iter().enumerate() {
        let _ = e.on_tick(&config, &tick(at(10) + i as i64 * 200, *mid), &surroundings(), &w);
    }
    let mut last = tick(at(10) + 2200, 70_004_000_000);
    last.obi = Some(-1_000_000);
    let r = e.on_tick(&config, &last, &surroundings(), &w);
    assert_eq!(r.map(|_| ()).unwrap_err(), Skip::ScoreSignMismatch);
}

#[test]
fn a_contradicted_score_is_dropped() {
    let config = Config::default();
    let mut e = SignalEngine::new(&config);
    let w = Weights { basis: 0, obi: ALPHA_ONE };
    let s = surroundings();
    for i in 0..12i64 {
        let mid = if i <= 4 { 70_100_000_000 } else { 70_000_000_000 };
        let _ = e.on_tick(&config, &tick(at(10) + i * 200, mid), &s, &w);
    }
    assert!(e.on_tick(&config, &tick(at(10) + 2300, 70_050_000_000), &s, &w).is_ok());
    let mut risen = s;
    risen.chainlink =
        Some(ChainlinkTick { recv_ts_ms: 0, source_ts_ms: None, price: 70_080_000_000 });
    let r = e.on_tick(&config, &tick(at(10) + 2600, 70_060_000_000), &risen, &w);
    assert_eq!(r.map(|_| ()).unwrap_err(), Skip::StrongContradiction);
    assert_eq!(e.counters.skip_strong_contradiction, 1);
}

fn signal(side: Side, score: i128, created: i64) -> Signal {
    Signal {
        created_ts_ms: created,
        side,
        entry_mode: EntryMode::Taker,
        r200_bps: Extended::Number(0),
        r500_bps: Extended::Number(0),
        r800_bps: Extended::Number(0),
        r2000_bps: Extended::Number(0),
        fast_move_bps: Extended::Number(0),
        raw_basis_bps: Extended::Number(0),
        basis_dev_bps: Extended::Number(0),
        dbasis_bps: Extended::Number(0),
        obi_ema: 0,
        score,
        confidence: 0,
        strong_contradiction: false,
    }
}

#[test]
fn notionals_grow_with_the_score() {
    let base = 25_000_000;
    let most = 150_000_000;
    assert_eq!(compute_notional(&signal(Side::Up, 1_000_000, 0), base, most), 40_000_000);
    assert_eq!(compute_notional(&signal(Side::Up, 5_000_000, 0), base, most), 60_000_000);
    assert_eq!(compute_notional(&signal(Side::Up, 0, 0), base, most), base as i128);
    let mut s = signal(Side::Down, -2_000_000, 0);
    s.r2000_bps = Extended::Number(-1);
    s.basis_dev_bps = Extended::Number(-1);
    s.dbasis_bps = Extended::Number(-1);
    assert_eq!(compute_notional(&s, base, most), 75_000_000);
    s.obi_ema = 500_001;
    assert_eq!(compute_notional(&s, base, most), 60_000_000);
    assert_eq!(compute_notional(&s, base, 50_000_000), 50_000_000);
}

fn skipped(log: Option<LogEvent>) -> String {
    match log {
        Some(LogEvent::TradeSkipped { reason, .. }) => reason,
        Some(_) => "other".to_string(),
        None => "silent".to_string(),
    }
}

#[test]
fn sniper_enters_once_and_locks_the_direction() {
    let config = Config::default();
    let mut shared = SharedState::new();
    let mut s = Sniper::new();
    let t = top(450_000, 470_000, 440_000, 480_000);
    let now = at(20);
    let r = s.on_signal(&config, &mut shared, &market(), &t, &signal(Side::Up, 1_000_000, now), now);
    match r.command {
        Some(ExecutionCommand::EnterTaker { token_id, max_price, notional, .. }) => {
            assert_eq!((token_id.as_str(), max_price, notional), ("u", 470_000, 40_000_000))
        }
        _ => panic!("no entry"),
    }
    assert!(matches!(r.log, Some(LogEvent::EntrySent { .. })));
    assert_eq!(shared.get_state(), StrategyState::Entering);
    let busy = s.on_signal(&config, &mut shared, &market(), &t, &signal(Side::Up, 1_000_000, now), now);
    assert_eq!(skipped(busy.log), "state=Entering");
    shared.set_state(StrategyState::Idle);
    let other = s.on_signal(&config, &mut shared, &market(), &t, &signal(Side::Down, -1_000_000, now), now);
    assert!(other.command.is_none());
    assert_eq!(skipped(other.log), "wrong_direction: signal=Down locked=Up");
    let mut next = market();
    next.window_start_ts += 300;
    next.window_end_ts += 300;
    let fresh = s.on_signal(&config, &mut shared, &next, &t, &signal(Side::Down, -1_000_000, now), now);
    assert!(fresh.command.is_some());
}

#[test]
fn sniper_tells_why_not() {
    let config = Config::default();
    let now = at(20);
    let why = |shared: &mut SharedState, m: &MarketDescriptor, t: &PolymarketTop, s: &Signal, now: i64| {
        skipped(Sniper::new().on_signal(&config, shared, m, t, s, now).log)
    };
    let up = signal(Side::Up, 1_000_000, now);
    let t = top(450_000, 470_000, 440_000, 480_000);
    let mut sh = SharedState::new();
    assert_eq!(
        why(&mut sh, &market(), &top(540_000, 550_000, 0, 0), &up, now),
        "cheap_gate: Up ask=55c >= 50c (not cheap side)"
    );
    assert_eq!(why(&mut sh, &market(), &t, &up, now + 1401), "signal_stale age=1401ms max=1400ms");
    assert_eq!(why(&mut sh, &MarketDescriptor::default(), &t, &up, now), "silent");
    let late = signal(Side::Up, 1_000_000, at(241));
    assert_eq!(why(&mut sh, &market(), &t, &late, at(241)), "expiry_too_close 59s");
    assert_eq!(why(&mut sh, &market(), &PolymarketTop::default(), &up, now), "silent");
    assert_eq!(
        why(&mut sh, &market(), &top(400_000, 470_000, 0, 0), &up, now),
        "spread 7.0c > 4.0c"
    );
    assert_eq!(
        why(&mut sh, &market(), &top(110_000, 120_000, 0, 0), &up, now),
        "ask 12c < 15c floor"
    );
    let mut strict = Config::default();
    strict.max_entry_price = 400_000;
    let r = Sniper::new().on_signal(&strict, &mut sh, &market(), &t, &up, now);
    assert_eq!(skipped(r.log), "ask 47c > 40c");
    sh.add_pnl(-2_000_000_000);
    assert_eq!(why(&mut sh, &market(), &t, &up, now), "silent");
}

fn entry_filled() -> ExecutionEvent {
    ExecutionEvent::EntryFilled {
        sent_ts_ms: 1,
        ack_ts_ms: 1_000,
        market_slug: "s".into(),
        token_id: "u".into(),
        side: Side::Up,
        filled_price: 450_000,
        filled_size: 20_000_000,
        notional: 9_000_000,
        order_id: "o".into(),
        signal: signal(Side::Up, 1, 1),
    }
}

#[test]
fn pairs_are_completed_on_the_other_side() {
    let mut m = PairManager::new();
    let mut sh = SharedState::new();
    m.on_market(&mut sh, START);
    let (log, pending) = m.on_event(&mut sh, &market(), &entry_filled(), 1_000);
    assert!(log.is_none());
    assert_eq!(sh.get_state(), StrategyState::WaitForReprice);
    let pending = pending.unwrap();
    let t = top(0, 0, 400_000, 480_000);
    assert_eq!(pending.due_ms, 3_000);
    assert!(after_wait(&mut sh, &t, &pending, 2_999).is_none());
    assert_eq!(sh.get_state(), StrategyState::WaitForReprice);
    match after_wait(&mut sh, &t, &pending, 3_000) {
        Some(ExecutionCommand::BuySecondLeg { opposite_token_id, opposite_side, ask_price, reason, .. }) => {
            assert_eq!((opposite_token_id.as_str(), opposite_side), ("d", Side::Down));
            assert_eq!((ask_price, reason.as_str()), (480_000, "leg2_pair"));
        }
        _ => panic!("no second leg"),
    }
    assert!(after_wait(&mut sh, &t, &pending, 3_001).is_none());
    let second = ExecutionEvent::SecondLegFilled {
        ts_ms: 2,
        market_slug: "s".into(),
        opposite_token_id: "d".into(),
        opposite_side: Side::Down,
        filled_price: 480_000,
        filled_size: 20_000_000,
        reason: "r".into(),
    };
    match m.on_event(&mut sh, &market(), &second, 4_000).0 {
        Some(LogEvent::PositionClosed { size, pnl_usdc, hold_ms, reason, .. }) => {
            assert_eq!((size, pnl_usdc, hold_ms), (20_000_000, 1_400_000, 3_000));
            assert_eq!(reason, "pair_complete cost=0.930");
        }
        _ => panic!("no log"),
    }
    assert_eq!(sh.get_state(), StrategyState::PairComplete);
    assert!(m.window_pair_done);
    m.check_stuck(&mut sh, 99_999);
    assert_eq!(sh.get_state(), StrategyState::PairComplete);
    m.on_market(&mut sh, START + 300);
    assert_eq!(sh.get_state(), StrategyState::Idle);
    assert!(!m.window_pair_done);
}

#[test]
fn stuck_and_rejected_pairs() {
    let mut m = PairManager::new();
    let mut sh = SharedState::new();
    m.on_market(&mut sh, START);
    m.on_event(&mut sh, &market(), &entry_filled(), 1_000);
    m.check_stuck(&mut sh, 16_000);
    assert_eq!(sh.get_state(), StrategyState::WaitForReprice);
    m.check_stuck(&mut sh, 16_001);
    assert_eq!(sh.get_state(), StrategyState::Idle);
    m.on_event(&mut sh, &market(), &entry_filled(), 1_000);
    let rejected = ExecutionEvent::SecondLegRejected { ts_ms: 1, reason: "r".into() };
    m.on_event(&mut sh, &market(), &rejected, 1_000);
    assert_eq!(sh.get_state(), StrategyState::PairComplete);
    let entry = ExecutionEvent::EntryRejected { ts_ms: 1, reason: "r".into() };
    m.on_event(&mut sh, &market(), &entry, 1_000);
    assert_eq!(sh.get_state(), StrategyState::Idle);
    let r = settle_pair(9_000_000, 0, 20_000_000, 480_000);
    assert_eq!((r.pair_shares, r.cost_per_pair), (0, 1_000_000));
}

// ── The maker bot's feeds and cycle ─────────────────────────────

fn price(source: RefSource, price: i64, ts: i64) -> RefPrice {
    RefPrice { source, symbol: "btcusdt".into(), price, timestamp: 4, local_recv_ts: ts }
}

#[test]
fn feed_state_follows_its_feeds() {
    let mut s = FeedState::new();
    s.up_token_id = "u".into();
    s.dn_token_id = "d".into();
    let bbo = BBO {
        token_id: "d".into(),
        best_bid: Some(1),
        best_ask: Some(2),
        bid_size: None,
        ask_size: None,
        timestamp: 0,
        local_recv_ts: 0,
    };
    s.on_market(&market_ws::MarketEvent::BestBidAsk(bbo));
    assert_eq!((s.dn_best_bid, s.dn_best_ask, s.up_best_ask), (Some(1), Some(2), None));
    let ts = TickSize { token_id: "u".into(), tick_size: 1_000 };
    s.on_market(&market_ws::MarketEvent::TickSizeChange(ts));
    assert_eq!((s.tick_size_up, s.tick_size_dn), (1_000, 0));
    assert!(s.oracle_lag_signal(0).is_none());
    s.on_reference(&rtds::RtdsEvent::Price(price(RefSource::RtdsBinance, 100_010_000, 0)));
    s.on_reference(&rtds::RtdsEvent::Price(price(RefSource::RtdsChainlink, 100_000_000, 0)));
    let lag = s.oracle_lag_signal(9).unwrap();
    assert_eq!((lag.lag_bps, lag.direction), (1_000_000, OracleLagDirection::Up));
    assert_eq!((lag.timestamp, lag.local_ts), (4, 9));
    let mid = |p: i64, t: i64| binance_l2::BinanceEvent::MidPrice(price(RefSource::BinanceDepth, p, t));
    s.on_exchange(&mid(100_000_000, 1_000_000));
    s.on_exchange(&mid(100_050_000, 3_000_000));
    assert_eq!(s.binance_return_2s(3_000_000), 5_000_000);
    assert_eq!(s.binance_return_2s(2_999_999), 0);
    s.on_exchange(&mid(100_050_000, 11_000_001));
    assert_eq!(s.binance_return_2s(3_000_000), 0);
    s.window_start_ts = START;
    assert_eq!(s.market_state(START + 7).elapsed_s, 7);
    assert_eq!(s.market_state(START - 1).elapsed_s, u64::MAX);
}

#[test]
fn the_cycle_decides_and_counts() {
    let config = load_config(None, None, Some("x".into()), None);
    assert_eq!((config.poly_api_secret.as_str(), config.poly_api_key.as_str()), ("x", ""));
    let mut s = FeedState::new();
    let mut risk = RiskLimits::default();
    assert!(cycle(&s, &risk, &config, 0, START).is_none());
    s.binance_mid = 1;
    s.window_start_ts = START;
    s.up_token_id = "u".into();
    s.up_best_ask = Some(650_000);
    s.tick_size_up = 10_000;
    s.obi = Some(ObiSignal { value: 800_000, levels_used: 1, timestamp: 0, local_ts: 0 });
    s.binance_rtds_price = 100_014_000;
    s.chainlink_price = 100_000_000;
    let (signal, actions) = cycle(&s, &risk, &config, 0, START + 20).unwrap();
    assert_eq!(signal.score, 312_000);
    let mut tally = Tally { total: 0, maker: 0, taker: 0, hold: 0 };
    match dispatch(&actions[0], signal.mode, &mut risk, &mut tally) {
        Dispatch::Bid { token_id, size, price, post_only } => {
            assert_eq!((token_id.as_str(), size, price), ("u", 20_000_000, 630_000));
            assert!(post_only);
        }
        _ => panic!("no bid"),
    }
    assert_eq!((risk.order_count_this_window, tally.maker), (1, 1));
    assert!(matches!(
        dispatch(&StrategyAction::CancelAll, signal.mode, &mut risk, &mut tally),
        Dispatch::CancelAll
    ));
    assert_eq!(risk.order_count_this_window, 0);
    dispatch(&StrategyAction::CancelOrder("o".into()), signal.mode, &mut risk, &mut tally);
    assert_eq!(risk.cancel_count_this_window, 1);
    dispatch(&StrategyAction::Hold, signal.mode, &mut risk, &mut tally);
    assert_eq!(tally.hold, 1);
    assert_eq!(parse_mode(Some("paper")), Mode::Paper);
    assert_eq!(parse_mode(Some("live")), Mode::Live);
    assert_eq!(parse_mode(None), Mode::Record);
}
