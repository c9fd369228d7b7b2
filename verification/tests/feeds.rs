//! Messages of the feeds.

use beeboop::binance_l2::{
    compute_obi, on_depth, on_ticker, parse_bookticker, parse_depth, raw_event, BinanceEvent,
};
use beeboop::feeds::binance::{book_ticker_url, parse_book_ticker};
use beeboop::feeds::market_ws::TopTracker;
use beeboop::feeds::polymarket_ws::{parse_price, price_url};
use beeboop::feeds::rtds::parse_chainlink;
use beeboop::feeds::user_ws::{auth_message, reconnect_at, subscribe_message, OrderTracker};
use beeboop::feeds::{market_ws, rtds as oracle_feed};
use beeboop::market::discovery::{
    does_slug_fit, event_url, parse_market, sleep_secs, slug_prefix, window_slug, windows_due,
};
use beeboop::market_ws::{parse_book_rest, parse_message, subscription, MarketEvent, TokenSet};
use beeboop::rtds::{binance_symbol, parse_rtds_price};
use beeboop::types::{OrderStatus, PriceLevel, RefSource};
use beeboop::user_ws::UserEvent;

#[test]
fn book_ticker_gives_a_mid() {
    let t = parse_book_ticker(r#"{"b":"70000.10","a":"70000.20","E":1700000000123}"#, 5).unwrap();
    assert_eq!((t.bid, t.ask, t.mid), (70_000_100_000, 70_000_200_000, 70_000_150_000));
    assert_eq!((t.event_ts_ms, t.recv_ts_ms), (1_700_000_000_123, 5));
    assert!(t.obi.is_none());
    assert!(parse_book_ticker(r#"{"b":"1","a":"2"}"#, 5).is_none());
    assert!(parse_book_ticker(r#"{"b":1,"a":"2","E":3}"#, 5).is_none());
    assert!(parse_book_ticker("no json", 5).is_none());
    assert_eq!(book_ticker_url("ethusdt"), "wss://fstream.binance.com/ws/ethusdt@bookTicker");
}

#[test]
fn oracle_prices_are_read() {
    let text = r#"{"topic":"crypto_prices_chainlink","payload":{"value":69990.5},"timestamp":7}"#;
    let t = parse_chainlink(text, 9).unwrap();
    assert_eq!((t.price, t.source_ts_ms, t.recv_ts_ms), (69_990_500_000, Some(7), 9));
    let by_price = r#"{"topic":"crypto_prices_chainlink","payload":{"price":2}}"#;
    assert_eq!(parse_chainlink(by_price, 9).unwrap().price, 2_000_000);
    assert!(parse_chainlink(r#"{"topic":"crypto_prices","payload":{"value":1}}"#, 9).is_none());
    assert!(parse_chainlink(r#"{"topic":"x_chainlink","payload":{}}"#, 9).is_none());
    assert_eq!(
        oracle_feed::subscription("btc/usd"),
        "{\"action\":\"subscribe\",\"subscriptions\":[{\"filters\":\"{\\\"symbol\\\":\\\"btc/usd\\\"}\",\"topic\":\"crypto_prices_chainlink\",\"type\":\"*\"}]}"
    );
}

#[test]
fn polled_prices_are_read() {
    assert_eq!(parse_price(r#"{"price":"0.53"}"#), Some(530_000));
    assert_eq!(parse_price(r#"{"price":0.53}"#), None);
    assert_eq!(
        price_url("123", "buy"),
        "https://clob.polymarket.com/price?token_id=123&side=buy"
    );
}

#[test]
fn price_changes_update_both_tokens() {
    let mut t = TopTracker::new();
    let text = r#"{"event_type":"price_change","price_changes":[
        {"asset_id":"u","best_bid":"0.60","best_ask":"0.62"},
        {"asset_id":"d","best_bid":"0.37","best_ask":"0.40"},
        {"asset_id":"x","best_bid":"0.01","best_ask":"0.99"}]}"#;
    let top = t.on_message("u", "d", text, 11).unwrap();
    assert_eq!((top.up_bid, top.up_ask), (Some(600_000), Some(620_000)));
    assert_eq!((top.down_bid, top.down_ask), (Some(370_000), Some(400_000)));
    assert_eq!(top.recv_ts_ms, 11);
    assert_eq!(t.events_received, 1);
    assert!(t.on_message("u", "d", "PONG", 12).is_none());
    assert!(t.on_message("u", "d", "pong", 12).is_none());
    assert_eq!(t.events_received, 1);
    t.forget();
    assert!(t.up_ask.is_none());
    assert_eq!(t.events_received, 1);
}

#[test]
fn other_formats_of_prices() {
    let mut t = TopTracker::new();
    let best = r#"{"event_type":"best_bid_ask","changes":[{"asset_id":"u","best_ask":"0.5"}]}"#;
    assert_eq!(t.on_message("u", "d", best, 1).unwrap().up_ask, Some(500_000));
    let flat = r#"{"asset_id":"d","best_bid":"0.45","best_ask":"0.47"}"#;
    assert_eq!(t.on_message("u", "d", flat, 2).unwrap().down_bid, Some(450_000));
    let book = r#"{"asset_id":"u","asks":[{"price":"0.58"},{"price":"0.55"},{"price":"bad"}],
        "bids":[{"price":"0.50"},{"price":"0.52"}]}"#;
    let top = t.on_message("u", "d", book, 3).unwrap();
    assert_eq!((top.up_bid, top.up_ask), (Some(520_000), Some(550_000)));
    let mut fresh = TopTracker::new();
    let trade = r#"{"asset_id":"d","price":"0.44"}"#;
    assert_eq!(fresh.on_message("u", "d", trade, 4).unwrap().down_ask, Some(440_000));
    assert!(fresh.on_message("u", "d", r#"{"asset_id":"d","price":"0.11"}"#, 5).is_none());
    assert!(fresh.on_message("u", "d", r#"{"asset_id":"z","best_ask":"0.1"}"#, 6).is_none());
    assert_eq!(
        market_ws::subscription("u", "d\""),
        "{\"assets_ids\":[\"u\",\"d\\\"\"],\"custom_feature_enabled\":true,\"type\":\"market\"}"
    );
    assert!(market_ws::worth_logging(500));
    assert!(!market_ws::worth_logging(501));
}

fn update(id: &str, matched: &str) -> String {
    format!(
        "{{\"event_type\":\"order\",\"type\":\"UPDATE\",\"id\":\"{}\",\"asset_id\":\"u\",\"price\":\"0.6\",\"size_matched\":\"{}\"}}",
        id, matched
    )
}

#[test]
fn fills_are_the_growth_of_the_matched_size() {
    let mut t = OrderTracker::new();
    let place = r#"{"event_type":"order","type":"PLACEMENT","id":"o"}"#;
    assert!(t.on_message(place, 1).is_none());
    let f = t.on_message(&update("o", "5"), 2).unwrap();
    assert_eq!((f.size, f.price, f.side.as_str()), (5_000_000, 600_000, "BUY"));
    assert_eq!((f.status.as_str(), f.asset_id.as_str(), f.ts_ms), ("ORDER_UPDATE", "u", 2));
    assert!(t.on_message(&update("o", "5"), 3).is_none());
    assert!(t.on_message(&update("o", "5.01"), 4).is_none());
    assert_eq!(t.on_message(&update("o", "8"), 5).unwrap().size, 2_990_000);
    assert!(t.on_message(r#"{"event_type":"order","type":"CANCELLATION","id":"o"}"#, 6).is_none());
    assert_eq!(t.on_message(&update("o", "8"), 7).unwrap().size, 8_000_000);
    assert!(t.on_message("PONG", 8).is_none());
    assert!(t.on_message(r#"{"event_type":"trade","status":"MATCHED"}"#, 9).is_none());
    assert_eq!(t.events_received, 8);
}

#[test]
fn fills_of_one_order_add_up() {
    let mut t = OrderTracker::new();
    let mut total: i64 = 0;
    for m in ["1", "2.5", "7", "20"] {
        if let Some(f) = t.on_message(&update("a", m), 1) {
            total += f.size;
        }
    }
    assert_eq!(total, 20_000_000);
}

#[test]
fn user_feed_messages_and_marks() {
    assert_eq!(
        auth_message("k", "s", "p"),
        "{\"auth\":{\"apiKey\":\"k\",\"passphrase\":\"p\",\"secret\":\"s\"},\"type\":\"user\"}"
    );
    assert_eq!(
        subscribe_message("0xabc"),
        "{\"markets\":[\"0xabc\"],\"operation\":\"subscribe\"}"
    );
    assert_eq!(reconnect_at(3_600_000, 3600), 3_600_000 + 3540);
    assert_eq!(reconnect_at(3_600_000 + 3540, 3600), 3_600_000 + 7140);
    assert_eq!(reconnect_at(3_600_000 + 100, 900), 3_600_000 + 840);
}

#[test]
fn markets_are_described() {
    let body = r#"[{"markets":[{"outcomes":"[\"Up\",\"Down\"]","clobTokenIds":"[\"11\",\"22\"]",
        "conditionId":"0xc"}]}]"#;
    let m = parse_market(body, "btc-updown-5m-1774012200").unwrap();
    assert_eq!((m.up_token_id.as_str(), m.down_token_id.as_str()), ("11", "22"));
    assert_eq!((m.window_start_ts, m.window_end_ts), (1_774_012_200, 1_774_012_500));
    assert_eq!((m.condition_id.as_str(), m.slug.as_str()), ("0xc", "btc-updown-5m-1774012200"));
    assert!(parse_market(body, "btc-updown-5m-x").is_none());
    assert!(parse_market("[]", "a-1").is_none());
    assert!(parse_market("{}", "a-1").is_none());
    let upper = r#"[{"markets":[{"outcomes":"[\"DOWN\",\"UP\"]","clobTokenIds":"[\"1\",\"2\"]","conditionId":"c"}]}]"#;
    assert_eq!(parse_market(upper, "a-5").unwrap().up_token_id, "2");
    let one = r#"[{"markets":[{"outcomes":"[\"Up\"]","clobTokenIds":"[\"1\",\"2\"]","conditionId":"c"}]}]"#;
    assert!(parse_market(one, "a-5").is_none());
    assert!(does_slug_fit("a-5"));
    assert!(!does_slug_fit("a-9223372036854775807"));
}

#[test]
fn discovery_asks_for_two_windows() {
    assert_eq!(slug_prefix("eth"), "eth-updown-5m");
    assert_eq!(slug_prefix("sol"), "sol-updown-5m");
    assert_eq!(slug_prefix("doge"), "btc-updown-5m");
    assert_eq!(window_slug("btc-updown-5m", 1_774_012_200), "btc-updown-5m-1774012200");
    assert_eq!(event_url("s"), "https://gamma-api.polymarket.com/events?slug=s");
    assert_eq!(windows_due(1_774_012_345, 0), Some((1_774_012_200, 1_774_012_500)));
    assert_eq!(windows_due(1_774_012_345, 1_774_012_200), None);
    assert_eq!(sleep_secs(1_774_012_200, 1_774_012_490), 12);
    assert_eq!(sleep_secs(1_774_012_200, 1_774_012_200), 30);
    assert_eq!(sleep_secs(1_774_012_200, 1_774_012_600), 1);
}

#[test]
fn tokens_are_collected_once() {
    let mut s = TokenSet::new();
    let a = r#"[{"markets":[{"outcomes":"[\"Up\"]","clobTokenIds":"[\"11\",\"22\",\"\"]"}]}]"#;
    let b = r#"[{"markets":[{"outcomes":"[\"Up\",\"Down\"]","clobTokenIds":"[\"22\",\"33\"]"},{}]},{}]"#;
    assert!(s.add_answer(a, 100).is_ok());
    assert!(s.add_answer(b, 400).is_ok());
    assert_eq!(s.token_ids, vec!["11", "22", "33"]);
    let infos: Vec<(String, i64)> =
        s.token_infos.iter().map(|t| (t.outcome.clone(), t.window_ts)).collect();
    assert_eq!(
        infos,
        vec![("Up".to_string(), 100), (String::new(), 100), ("Down".to_string(), 400)]
    );
    assert!(s.add_answer("nope", 0).is_err());
    assert_eq!(
        subscription(&s.token_ids),
        "{\"assets_ids\":[\"11\",\"22\",\"33\"],\"custom_feature_enabled\":true,\"type\":\"market\"}"
    );
}

#[test]
fn market_events_are_read() {
    let text = r#"[{"event_type":"book","asset_id":"u","timestamp":3,
          "bids":[{"price":"0.5","size":"10"},{"price":"x","size":"1"}],"asks":[]},
        {"event_type":"best_bid_ask","asset_id":"u","best_bid":"0.4","best_ask_size":"7"},
        {"event_type":"last_trade_price","asset_id":"u","price":"0.45","size":"2","side":"SELL"},
        {"event_type":"tick_size_change","asset_id":"u","tick_size":"0.001"},
        {"event_type":"tick_size_change","asset_id":"u"},
        {"event_type":"price_change","asset_id":"u","price":0.5},
        {"event_type":"book"},{"event_type":"other"}]"#;
    let events = parse_message(text, 9).unwrap();
    assert_eq!(events.len(), 5);
    match &events[0] {
        MarketEvent::Book(b) => {
            assert_eq!(b.bids, vec![PriceLevel { price: 500_000, size: 10_000_000 }]);
            assert!(b.asks.is_empty());
            assert_eq!((b.timestamp, b.local_recv_ts), (3, 9));
        }
        _ => panic!("no book"),
    }
    match &events[1] {
        MarketEvent::BestBidAsk(b) => {
            assert_eq!((b.best_bid, b.best_ask, b.ask_size), (Some(400_000), None, Some(7_000_000)))
        }
        _ => panic!("no prices"),
    }
    assert!(matches!(&events[2], MarketEvent::LastTradePrice(t) if t.side == "SELL"));
    assert!(matches!(&events[3], MarketEvent::TickSizeChange(t) if t.tick_size == 1_000));
    assert!(matches!(&events[4], MarketEvent::PriceChange { price: 500_000, .. }));
    assert_eq!(parse_message(r#"{"event_type":"price_change"}"#, 1).unwrap().len(), 1);
    assert!(parse_message("{", 1).is_err());
    assert_eq!(
        parse_book_rest(r#"{"asks":[{"price":"0.6"},{"price":"0.5"}],"bids":[{"price":"0.4"}]}"#),
        Some((400_000, 500_000))
    );
    assert_eq!(parse_book_rest(r#"{"asks":[],"bids":[{"price":"0.4"}]}"#), None);
}

#[test]
fn user_events_are_read() {
    let text = r#"[{"event_type":"order","order_id":"o","status":"MATCHED","filled_size":"3"},
        {"event_type":"trade","id":"t","order_id":"o","status":"MINED","price":"0.5","size":"2"},
        {"event_type":"order","status":"?"}]"#;
    let events = beeboop::user_ws::parse_message(text, 4).unwrap();
    assert_eq!(events.len(), 3);
    match &events[0] {
        UserEvent::OrderUpdate { status, filled_size, local_recv_us, .. } => {
            assert_eq!((*status, *filled_size, *local_recv_us), (OrderStatus::Matched, 3_000_000, 4))
        }
        _ => panic!("no order"),
    }
    assert!(matches!(&events[1], UserEvent::TradeUpdate { price: 500_000, .. }));
    assert!(matches!(&events[2], UserEvent::OrderUpdate { status: OrderStatus::Pending, .. }));
    assert_eq!(beeboop::user_ws::auth_message("k"), "{\"apiKey\":\"k\",\"type\":\"Auth\"}");
}

#[test]
fn reference_prices_are_read() {
    let p = parse_rtds_price(
        r#"{"topic":"crypto_prices","payload":{"value":1.5,"symbol":"btcusdt","timestamp":8}}"#,
        2,
    )
    .unwrap();
    assert_eq!((p.source, p.price, p.timestamp), (RefSource::RtdsBinance, 1_500_000, 8));
    assert_eq!(p.symbol, "btcusdt");
    let q = parse_rtds_price(
        r#"{"topic":"crypto_prices_chainlink","timestamp":5,"payload":{"price":2}}"#,
        2,
    )
    .unwrap();
    assert_eq!((q.source, q.timestamp), (RefSource::RtdsChainlink, 5));
    assert_eq!(parse_rtds_price(r#"{"topic":"x"}"#, 2).unwrap_err(), "no payload");
    assert_eq!(parse_rtds_price(r#"{"payload":{}}"#, 2).unwrap_err(), "no price value");
    assert_eq!(
        parse_rtds_price(r#"{"topic":"x","payload":{"value":1}}"#, 2).unwrap_err(),
        "unknown topic: x"
    );
    assert!(parse_rtds_price("", 2).is_err());
    assert_eq!(binance_symbol("BTC/usd"), "btcusdt");
    assert!(beeboop::rtds::subscription("btc/usd").contains("\\\"btcusdt\\\""));
}

fn level(size: i64) -> PriceLevel {
    PriceLevel { price: 1, size }
}

#[test]
fn imbalance_weighs_the_first_levels() {
    let bids = vec![level(4_000_000), level(4_000_000)];
    let asks = vec![level(2_000_000), level(4_000_000)];
    assert_eq!(compute_obi(&bids, &asks, 10), 200_000);
    assert_eq!(compute_obi(&asks, &bids, 10), -200_000);
    assert_eq!(compute_obi(&bids, &asks, 1), 333_333);
    assert_eq!(compute_obi(&[], &asks, 10), 0);
    assert_eq!(compute_obi(&[level(0)], &[level(0)], 10), 0);
    assert_eq!(compute_obi(&[level(1)], &[level(0)], 10), 1_000_000);
    let deep_bids: Vec<PriceLevel> = (0..200).map(|_| level(3_000_000)).collect();
    let deep_asks: Vec<PriceLevel> = (0..150).map(|_| level(1_000_000)).collect();
    assert_eq!(compute_obi(&deep_bids, &deep_asks, 500), 500_000);
}

#[test]
fn depth_gives_imbalance_mid_and_book() {
    let text = r#"{"E":1,"T":2,"U":3,"u":4,"b":[["10","3"],["9"]],"a":[["12","1"]]}"#;
    let d = parse_depth(text, 7).unwrap();
    assert_eq!((d.first_update_id, d.last_update_id, d.bids.len()), (3, 4, 1));
    let events = on_depth(d, 7);
    assert_eq!(events.len(), 3);
    assert!(matches!(&events[0], BinanceEvent::Obi(o) if o.value == 500_000 && o.levels_used == 1));
    assert!(matches!(&events[1], BinanceEvent::MidPrice(p) if p.price == 11_000_000));
    let empty = on_depth(parse_depth("{}", 7).unwrap(), 7);
    assert_eq!(empty.len(), 2);
    assert!(parse_depth("", 7).is_err());
}

#[test]
fn ticker_gives_mid_and_prices() {
    let t = parse_bookticker(r#"{"s":"BTCUSDT","b":"1","B":"2","a":"2","A":"3","T":9}"#, 5).unwrap();
    assert_eq!((t.best_bid, t.best_ask_qty, t.transaction_time), (1_000_000, 3_000_000, 9));
    let events = on_ticker(t, 5);
    assert!(matches!(&events[0], BinanceEvent::MidPrice(p) if p.price == 1_500_000));
    assert!(matches!(&events[1], BinanceEvent::BookTicker(_)));
    assert!(matches!(raw_event("x", "depth", 1), BinanceEvent::Raw(r) if r.raw_json == "x"));
}
