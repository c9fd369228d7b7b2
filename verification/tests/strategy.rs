//! The maker bot's decisions.

use beeboop::strategy::{
    compute_signal, evaluate, quantize_price, BinanceReturnSignal, ExecutionMode, MarketState,
    RiskLimits, StrategyAction,
};
use beeboop::types::{
    BotConfig, ObiSignal, OracleLagDirection, OracleLagSignal, OrderSide, OrderType,
};

fn default_config() -> BotConfig {
    BotConfig {
        poly_private_key: String::new(),
        poly_api_key: String::new(),
        poly_api_secret: String::new(),
        poly_api_passphrase: String::new(),
        market_slug: "btc-updown-5m".into(),
        window_seconds: 300,
        start_delay_s: 15,
        cancel_at_s: 240,
        max_position: 200_000_000,
        max_open_orders: 30,
        stop_loss_usd: -2_000_000_000,
        obi_threshold: 300_000,
        oracle_lag_threshold_bps: 2_000_000,
    }
}

fn obi(value: i128) -> ObiSignal {
    ObiSignal { value, levels_used: 10, timestamp: 0, local_ts: 0 }
}

fn lag(chainlink_price: i64, lag_bps: i128, direction: OracleLagDirection) -> OracleLagSignal {
    OracleLagSignal {
        binance_price: 70_000_000_000,
        chainlink_price,
        lag_bps,
        direction,
        timestamp: 0,
        local_ts: 0,
    }
}

#[test]
fn test_hold_when_no_signal() {
    let state = MarketState {
        elapsed_s: 20,
        up_best_ask: Some(650_000),
        dn_best_ask: Some(350_000),
        tick_size_up: 10_000,
        tick_size_dn: 10_000,
        ..Default::default()
    };
    let signal = compute_signal(None, None, None);
    assert_eq!(signal.mode, ExecutionMode::Hold);
    let actions = evaluate(&state, &signal, &RiskLimits::default(), &default_config());
    assert!(matches!(actions[0], StrategyAction::Hold));
    assert_eq!(signal.reason, "HOLD: score=0.000 (threshold=0.30)");
}

#[test]
fn test_maker_mode_on_moderate_signal() {
    let state = MarketState {
        elapsed_s: 20,
        up_token_id: "up_123".into(),
        up_best_ask: Some(650_000),
        tick_size_up: 10_000,
        ..Default::default()
    };
    let oracle = lag(69_990_000_000, 1_400_000, OracleLagDirection::Up);
    let signal = compute_signal(Some(&obi(800_000)), Some(&oracle), None);
    assert_eq!(signal.mode, ExecutionMode::Maker);
    assert_eq!(signal.score, 312_000);
    assert_eq!(signal.obi_component, 200_000);
    assert_eq!(signal.oracle_lag_component, 112_000);
    assert_eq!(signal.reason, "MAKER: score=0.312 obi=0.800 oracle=1.4bps ret=0.0bps");
    let actions = evaluate(&state, &signal, &RiskLimits::default(), &default_config());
    assert_eq!(actions.len(), 1);
    match &actions[0] {
        StrategyAction::PlaceOrder(o) => {
            assert_eq!(o.token_id, "up_123");
            assert_eq!(o.side, OrderSide::Buy);
            assert_eq!(o.price, 630_000);
            assert_eq!(o.size, 20_000_000);
            assert_eq!(o.order_type, OrderType::GTC);
            assert!(o.post_only);
        }
        _ => panic!("no order"),
    }
}

#[test]
fn test_taker_mode_on_strong_signal() {
    let oracle = lag(69_980_000_000, 2_900_000, OracleLagDirection::Up);
    let ret = BinanceReturnSignal { return_2s: 4_000_000, return_500ms: 2_000_000, timestamp: 0 };
    let signal = compute_signal(Some(&obi(950_000)), Some(&oracle), Some(&ret));
    assert_eq!(signal.mode, ExecutionMode::Taker);
}

#[test]
fn test_cancel_all_at_window_end() {
    let state = MarketState { elapsed_s: 241, ..Default::default() };
    let signal = compute_signal(None, None, None);
    let actions = evaluate(&state, &signal, &RiskLimits::default(), &default_config());
    assert!(actions.iter().any(|a| matches!(a, StrategyAction::CancelAll)));
}

#[test]
fn test_post_only_never_with_fok() {
    let state = MarketState {
        elapsed_s: 20,
        up_token_id: "up_123".into(),
        up_best_ask: Some(650_000),
        tick_size_up: 10_000,
        ..Default::default()
    };
    let oracle = lag(69_980_000_000, 3_000_000, OracleLagDirection::Up);
    let ret = BinanceReturnSignal { return_2s: 5_000_000, return_500ms: 3_000_000, timestamp: 0 };
    let signal = compute_signal(Some(&obi(950_000)), Some(&oracle), Some(&ret));
    let actions = evaluate(&state, &signal, &RiskLimits::default(), &default_config());
    for action in &actions {
        if let StrategyAction::PlaceOrder(req) = action {
            if req.order_type == OrderType::FOK {
                assert!(!req.post_only, "FOK must never have postOnly=true");
            }
        }
    }
}

#[test]
fn test_quantize_price() {
    assert_eq!(quantize_price(637_000, 10_000), 630_000);
    assert_eq!(quantize_price(637_000, 1_000), 637_000);
    assert_eq!(quantize_price(635_000, 50_000), 600_000);
}

#[test]
fn test_kill_switch() {
    let state = MarketState { elapsed_s: 20, ..Default::default() };
    let signal = compute_signal(None, None, None);
    let mut risk = RiskLimits::default();
    risk.kill_switch_triggered = true;
    let actions = evaluate(&state, &signal, &risk, &default_config());
    assert!(actions.iter().any(|a| matches!(a, StrategyAction::CancelAll)));
}

#[test]
fn quantizing_without_a_tick_uses_cents() {
    assert_eq!(quantize_price(637_500, 0), 630_000);
    assert_eq!(quantize_price(637_500, -5), 630_000);
    assert_eq!(quantize_price(-5_000, 10_000), -10_000);
}

#[test]
fn a_score_is_the_sum_of_its_components() {
    let ret = BinanceReturnSignal { return_2s: 10, return_500ms: 0, timestamp: 0 };
    for value in [2i128, -3, 123_457, -999_999] {
        let oracle = lag(69_990_000_000, 1_234_567, OracleLagDirection::Up);
        for l in [None, Some(&oracle)] {
            let s = compute_signal(Some(&obi(value)), l, Some(&ret));
            assert_eq!(
                s.score,
                s.obi_component + s.oracle_lag_component + s.binance_return_component
            );
        }
    }
}

#[test]
fn a_strong_signal_takes_thirty_dollars_worth() {
    let state = MarketState {
        elapsed_s: 20,
        dn_token_id: "dn_9".into(),
        dn_best_ask: Some(350_000),
        tick_size_dn: 10_000,
        ..Default::default()
    };
    let oracle = lag(69_900_000_000, -5_000_000, OracleLagDirection::Down);
    let ret = BinanceReturnSignal { return_2s: -6_000_000, return_500ms: 0, timestamp: 0 };
    let signal = compute_signal(Some(&obi(-900_000)), Some(&oracle), Some(&ret));
    assert_eq!(signal.score, -975_000);
    assert_eq!(signal.mode, ExecutionMode::Taker);
    let actions = evaluate(&state, &signal, &RiskLimits::default(), &default_config());
    match &actions[0] {
        StrategyAction::PlaceOrder(o) => {
            assert_eq!(o.token_id, "dn_9");
            assert_eq!(o.size, 85_000_000);
            assert_eq!(o.price, 990_000);
            assert_eq!(o.order_type, OrderType::FOK);
            assert!(!o.post_only);
        }
        _ => panic!("no order"),
    }
}

#[test]
fn a_small_move_does_not_pay_the_fee() {
    let state = MarketState {
        elapsed_s: 20,
        up_token_id: "up".into(),
        up_best_ask: Some(650_000),
        tick_size_up: 10_000,
        ..Default::default()
    };
    let ret = BinanceReturnSignal { return_2s: 5_000_000, return_500ms: 0, timestamp: 0 };
    let oracle = lag(69_990_000_000, 4_000_000, OracleLagDirection::Up);
    let signal = compute_signal(Some(&obi(1_000_000)), Some(&oracle), Some(&ret));
    assert_eq!(signal.mode, ExecutionMode::Taker);
    assert!(evaluate(&state, &signal, &RiskLimits::default(), &default_config()).is_empty());
}

#[test]
fn gates_of_time_and_number() {
    let signal = compute_signal(None, None, None);
    let early = MarketState { elapsed_s: 14, ..Default::default() };
    assert!(evaluate(&early, &signal, &RiskLimits::default(), &default_config()).is_empty());
    let state = MarketState { elapsed_s: 20, ..Default::default() };
    let mut risk = RiskLimits::default();
    risk.order_count_this_window = 300;
    assert!(evaluate(&state, &signal, &risk, &default_config()).is_empty());
    risk.order_count_this_window = 299;
    assert_eq!(evaluate(&state, &signal, &risk, &default_config()).len(), 1);
}

#[test]
fn a_full_side_is_not_bought() {
    let state = MarketState {
        elapsed_s: 20,
        up_token_id: "up".into(),
        up_best_ask: Some(650_000),
        up_filled: 200_000_000,
        tick_size_up: 10_000,
        ..Default::default()
    };
    let oracle = lag(69_990_000_000, 1_400_000, OracleLagDirection::Up);
    let signal = compute_signal(Some(&obi(800_000)), Some(&oracle), None);
    assert!(evaluate(&state, &signal, &RiskLimits::default(), &default_config()).is_empty());
}
