//! Amounts, texts, times and settings.

use beeboop::bots::{
    configure, feed_symbols, may_start, mode_from_arg, price_feeds, reads_credentials,
    reconnect_interval_s, Bot,
};
use beeboop::clock::{current_window, elapsed_s, to_signed, whole_seconds};
use beeboop::config_v2::{Config, PairCostMode, SignalBand, TuneConfig};
use beeboop::fixed::{
    clamp, div_floor, div_nearest, div_round, fixed_string, parse_amount, round_cents,
};
use beeboop::state::SharedState;
use beeboop::text::{
    contains, int_string, last_piece, nat_string, parse_i64, remove_char, replace_char,
};
use beeboop::types_v2::{BotMode, Position, Side, StrategyState};

#[test]
fn amounts_are_read_like_decimal_numerals() {
    assert_eq!(parse_amount("0.65"), Some(650_000));
    assert_eq!(parse_amount("-0.65"), Some(-650_000));
    assert_eq!(parse_amount("+12"), Some(12_000_000));
    assert_eq!(parse_amount(".5"), Some(500_000));
    assert_eq!(parse_amount("5."), Some(5_000_000));
    assert_eq!(parse_amount("1e3"), Some(1_000_000_000));
    assert_eq!(parse_amount("1.5E-3"), Some(1_500));
    assert_eq!(parse_amount("0.0000005"), Some(1));
    assert_eq!(parse_amount("0.00000049"), Some(0));
    assert_eq!(parse_amount("70123.456789"), Some(70_123_456_789));
    assert_eq!(parse_amount("0e99999999999999999999999"), Some(0));
    assert_eq!(parse_amount("1e-99999999999999999999999"), Some(0));
    assert_eq!(parse_amount("1000000000"), Some(1_000_000_000_000_000));
    assert_eq!(parse_amount("1000000001.5"), Some(1_000_000_001_500_000));
    assert_eq!(parse_amount("-3e12"), Some(-3_000_000_000_000_000_000));
}

#[test]
fn other_texts_are_no_amounts() {
    assert_eq!(parse_amount(""), None);
    assert_eq!(parse_amount("."), None);
    assert_eq!(parse_amount("abc"), None);
    assert_eq!(parse_amount("1e"), None);
    assert_eq!(parse_amount("1.2.3"), None);
    assert_eq!(parse_amount(" 1"), None);
    assert_eq!(parse_amount("inf"), None);
    assert_eq!(parse_amount("NaN"), None);
    assert_eq!(parse_amount("3000000000001"), None);
    assert_eq!(parse_amount("1e99999999999999999999999"), None);
}

#[test]
fn amounts_are_written_with_fixed_digits() {
    assert_eq!(fixed_string(650_000, 2), "0.65");
    assert_eq!(fixed_string(-1_234_567, 3), "-1.235");
    assert_eq!(fixed_string(20_000_000, 0), "20");
    assert_eq!(fixed_string(5_000, 2), "0.01");
    assert_eq!(fixed_string(125_000, 2), "0.12");
    assert_eq!(fixed_string(375_000, 2), "0.38");
    assert_eq!(fixed_string(-125_000, 2), "-0.12");
    assert_eq!(fixed_string(500_000, 0), "0");
    assert_eq!(fixed_string(1_500_000, 0), "2");
    assert_eq!(fixed_string(4_999, 2), "0.00");
    assert_eq!(fixed_string(999_999, 6), "0.999999");
}

#[test]
fn division_rounds_as_it_says() {
    assert_eq!(div_round(7, 2), 4);
    assert_eq!(div_round(-7, 2), -4);
    assert_eq!(div_round(5, 3), 2);
    assert_eq!(div_floor(-7, 2), -4);
    assert_eq!(div_floor(7, 2), 3);
    assert_eq!(div_nearest(7, -2), -4);
    assert_eq!(round_cents(635_000), 640_000);
    assert_eq!(round_cents(634_999), 630_000);
    assert_eq!(clamp(5, -2, 2), 2);
}

#[test]
fn texts_are_searched_and_changed() {
    assert_eq!(nat_string(0), "0");
    assert_eq!(int_string(-1_774_012_200), "-1774012200");
    assert_eq!(parse_i64("1774012200"), Some(1_774_012_200));
    assert_eq!(parse_i64("-9223372036854775808"), Some(i64::MIN));
    assert_eq!(parse_i64("9223372036854775808"), None);
    assert_eq!(parse_i64("12a"), None);
    assert!(contains("crypto_prices_chainlink", "chainlink"));
    assert!(!contains("crypto", "chainlink"));
    assert_eq!(last_piece("btc-updown-5m-1774012200", '-'), "1774012200");
    assert_eq!(remove_char("btc/usd", '/'), "btcusd");
    assert_eq!(replace_char("{'a'}", '\'', '"'), "{\"a\"}");
}

#[test]
fn times_and_windows() {
    assert_eq!(whole_seconds(1999), 1);
    assert_eq!(whole_seconds(-1999), -1);
    assert_eq!(elapsed_s(1_700_000_010_500, 1_700_000_000), 10);
    assert_eq!(current_window(1_774_012_345), 1_774_012_200);
    assert_eq!(current_window(1_774_012_200), 1_774_012_200);
    assert_eq!(current_window(-10), 0);
    assert_eq!(to_signed(60), 60);
    assert_eq!(to_signed(u64::MAX), -1);
}

#[test]
fn bands_and_modes_of_the_tuning() {
    let t = TuneConfig::default();
    assert_eq!(t.signal_band(-2_000_000), SignalBand::Extreme);
    assert_eq!(t.signal_band(1_400_000), SignalBand::Strong);
    assert_eq!(t.signal_band(800_000), SignalBand::Medium);
    assert_eq!(t.signal_band(799_999), SignalBand::Weak);
    assert_eq!(t.max_ratio_for_band(SignalBand::Weak), 1_200_000);
    assert_eq!(t.max_ratio_for_band(SignalBand::Medium), 1_500_000);
    assert_eq!(t.max_ratio_for_band(SignalBand::Strong), 2_250_000);
    assert_eq!(t.max_ratio_for_band(SignalBand::Extreme), 3_000_000);
    assert_eq!(t.pair_cost_mode(2_000_000, 49_999_999), PairCostMode::Full);
    assert_eq!(t.pair_cost_mode(995_000, 50_000_000), PairCostMode::Full);
    assert_eq!(t.pair_cost_mode(1_010_000, 50_000_000), PairCostMode::Reduced);
    assert_eq!(t.pair_cost_mode(1_030_000, 50_000_000), PairCostMode::StrongOnly);
    assert_eq!(t.pair_cost_mode(1_030_001, 50_000_000), PairCostMode::Stop);
    assert_eq!(t.cheap_target(2_000_000, true, None), 470_000);
    assert_eq!(t.cheap_target(-1_400_000, true, Some(990_000)), 500_000);
    assert_eq!(t.cheap_target(2_000_000, true, Some(990_001)), 545_000);
    assert_eq!(t.cheap_target(2_000_000, false, None), 545_000);
}

#[test]
fn credentials_are_loaded_one_by_one() {
    let mut c = Config::default();
    assert_eq!(c.trigger_min_fast_move_bps, 700_000);
    assert_eq!((c.maker_score_min, c.taker_score_min), (450_000, 900_000));
    assert!(!c.has_credentials());
    c.load_credentials(Some("k".into()), Some("a".into()), Some("s".into()), None);
    assert!(!c.has_credentials());
    c.load_credentials(None, None, None, Some("p".into()));
    assert!(c.has_credentials());
    assert_eq!(c.poly_private_key, "k");
}

#[test]
fn bots_have_their_settings() {
    let c = configure(Config::default(), Bot::VidarxBtc15);
    assert_eq!(c.market, "btc15");
    assert_eq!(c.cancel_at_s, 840);
    assert_eq!(c.start_delay_s, 5);
    let e = configure(Config::default(), Bot::EthSniper);
    assert_eq!((e.market.as_str(), e.share_base, e.max_pairs_per_window), ("eth", 10_000_000, 50));
    let m = configure(Config::default(), Bot::MintSell);
    assert_eq!((m.cooldown_ms, m.cancel_at_s), (1500, 180));
    assert_eq!(mode_from_arg(Some("live")), BotMode::Live);
    assert_eq!(mode_from_arg(Some("dryrun")), BotMode::DryRun);
    assert_eq!(mode_from_arg(None), BotMode::DryRun);
    assert_eq!(feed_symbols(Bot::LockProfit), ("xrpusdt", "xrp/usd"));
    assert_eq!(feed_symbols(Bot::Vidarx), ("btcusdt", "btc/usd"));
    assert_eq!(price_feeds(Bot::EthSniper), (true, true));
    assert_eq!(price_feeds(Bot::Sniper), (false, true));
    assert_eq!(price_feeds(Bot::VidarxXrp), (true, false));
    assert_eq!(reconnect_interval_s(Bot::VidarxBtc15), 900);
    assert_eq!(reconnect_interval_s(Bot::Vidarx), 600);
    assert!(reads_credentials(Bot::Sniper, BotMode::DryRun));
    assert!(!reads_credentials(Bot::Vidarx, BotMode::DryRun));
    let mut live = Config::default();
    assert!(may_start(&live));
    live.mode = BotMode::Live;
    assert!(!may_start(&live));
}

#[test]
fn shared_state_holds_what_was_set() {
    let mut s = SharedState::new();
    assert!(s.is_idle());
    s.set_state(StrategyState::Entering);
    assert_eq!(s.get_state(), StrategyState::Entering);
    s.set_position(Position {
        market_slug: "m".into(),
        token_id: "t".into(),
        side: Side::Up,
        entry_ts_ms: 1,
        entry_price: 2,
        size: 3,
        notional: 4,
        signal_bps: 5,
        signal_confidence: 6,
    });
    assert_eq!(s.get_position().map(|p| (p.token_id, p.size)), Some(("t".to_string(), 3)));
    s.clear_position();
    assert!(s.get_position().is_none());
    s.set_cooldown(100);
    assert!(s.is_cooling_down(99));
    assert!(!s.is_cooling_down(100));
    s.add_pnl(-2_000_000_000);
    assert!(s.should_stop(-2_000_000_000));
    assert_eq!(s.get_pnl(), -2_000_000_000);
}
