//! Orders and what comes of them.

use beeboop::execution::{
    accept, hmac_sign, judge_reply, message_to_sign, parse_answer, read_answer, read_reply,
    sign_order, sign_with, time_result, Cancel, CancelReply, Credentials, ExecutionEngine, OrderResult, Plan,
    TickSizeRegistry, VenueOrder,
};
use beeboop::execution_v2::executor::{
    answer_total, clean_key, dry_run, is_in_range, is_order_in_range, next_heartbeat, plan_fok_buy, plan_fok_sell,
    plan_gtc_bid, plan_order, plan_sale, reconciliation, record, report, sends_orders,
    settle_order, trades_url, worth_a_warning, FillResult,
};
use beeboop::extended::Extended;
use beeboop::json::Json;
use beeboop::types::{OrderSide, OrderType, TickSize};
use beeboop::types_v2::{
    cancel_all, BotMode, EntryMode, ExecutionCommand, ExecutionEvent, LogEvent, Side, Signal,
};

fn tick(token: &str, tick_size: i64) -> TickSize {
    TickSize { token_id: token.into(), tick_size }
}

#[test]
fn prices_are_quantized_by_token() {
    let mut r = TickSizeRegistry::new();
    assert_eq!(r.quantize("t", 637_500), Some(630_000));
    r.update(&tick("t", 1_000));
    assert_eq!(r.quantize("t", 637_500), Some(637_000));
    assert_eq!(r.quantize("other", 637_500), Some(630_000));
    assert_eq!(r.quantize("t", 999), None);
    r.update(&tick("t", 0));
    assert_eq!(r.quantize("t", 637_500), None);
}

#[test]
fn signatures_follow_the_known_vector() {
    assert_eq!(
        hmac_sign("a2V5", "The quick brown fox ", "jumps ", "over ", "the lazy dog").unwrap(),
        "97yD9DBThCSxMpjmqm-xQ-9NWaFJRhdZl0edvC0aPNg="
    );
    assert_eq!(
        hmac_sign("a2V5", "1700000000", "POST", "/order", "{'a':'b'}").unwrap(),
        "DW3Wl0uCUvs_chXl18SEg2qzC9Ix15D1uIejnEfzJPo="
    );
    assert!(hmac_sign("!", "1", "POST", "/", "").unwrap_err().starts_with("base64 decode secret: "));
    assert_eq!(message_to_sign("1", "GET", "/p", "{'a'}"), "1GET/p{\"a\"}");
    assert_eq!(sign_with(Err("x".into()), "m").unwrap_err(), "base64 decode secret: x");
}

fn credentials() -> Credentials {
    Credentials {
        private_key: "pk".into(),
        api_key: "ak".into(),
        api_secret: "a2V5".into(),
        api_passphrase: "pp".into(),
    }
}

#[test]
fn requests_carry_their_headers() {
    let h = sign_order(&credentials(), "1700000000", "{'a':'b'}").unwrap();
    let names: Vec<&str> = h.iter().map(|x| x.0.as_str()).collect();
    assert_eq!(
        names,
        vec![
            "POLY_ADDRESS",
            "POLY_SIGNATURE",
            "POLY_TIMESTAMP",
            "POLY_API_KEY",
            "POLY_PASSPHRASE",
            "Content-Type"
        ]
    );
    assert_eq!(h[1].1, "DW3Wl0uCUvs_chXl18SEg2qzC9Ix15D1uIejnEfzJPo=");
    let bad = Credentials { api_secret: "%".into(), ..credentials() };
    assert!(sign_order(&bad, "1", "").is_err());
}

#[test]
fn paper_mode_sends_nothing() {
    let e = ExecutionEngine::new(true);
    for plan in [
        e.taker_fok_buy("t", 30_000_000, 77, 5).unwrap(),
        e.maker_gtc_buy("t", 20_000_000, 630_000, true, 77, 5).unwrap(),
    ] {
        match plan {
            Plan::Paper(r) => {
                assert_eq!((r.order_id.as_str(), r.status.as_str()), ("paper-77", "PAPER"));
                assert!(r.success && r.error.is_none() && r.latency_us == 5);
            }
            Plan::Send { .. } => panic!("sent"),
        }
    }
    match e.taker_fok_sell("t", 1, 77, 5).unwrap() {
        Plan::Paper(r) => assert_eq!(r.order_id, "paper-sell-77"),
        Plan::Send { .. } => panic!("sent"),
    }
    match e.maker_gtc_buy("t", 1, 9_999, true, 77, 5) {
        Err(m) => assert_eq!(m, "price quantizes to zero"),
        Ok(_) => panic!("planned"),
    }
}

#[test]
fn missing_credentials_are_named_in_turn() {
    let mut e = ExecutionEngine::new(false);
    let err = |e: &ExecutionEngine| match e.taker_fok_buy("t", 1, 0, 0) {
        Err(m) => m,
        Ok(_) => String::new(),
    };
    assert_eq!(err(&e), "no private key");
    assert_eq!(e.ensure_auth().unwrap_err(), "no credentials set");
    e.private_key = Some("pk".into());
    assert_eq!(err(&e), "no api key");
    e.api_key = Some("ak".into());
    assert_eq!(err(&e), "no api secret");
    assert!(e.is_ready());
    e.api_secret = Some("s".into());
    assert_eq!(err(&e), "no api passphrase");
    e.set_credentials("a".into(), "b".into(), "c".into(), "d".into());
    assert_eq!(err(&e), "");
    assert!(e.ensure_auth().is_ok());
    assert!(!e.is_paper());
}

#[test]
fn live_orders_are_written_out() {
    let mut e = ExecutionEngine::new(false);
    e.set_credentials("a".into(), "b".into(), "c".into(), "d".into());
    e.update_tick_size(&tick("t", 1_000));
    match e.maker_gtc_sell("t", 20_500_000, 637_900, true, 0, 0).unwrap() {
        Plan::Send { order, credentials } => {
            assert_eq!((order.size.as_str(), order.price.as_deref()), ("20.50", Some("0.6370")));
            assert_eq!((order.side, order.order_type), (OrderSide::Sell, OrderType::GTC));
            assert!(order.post_only);
            assert_eq!(credentials.api_passphrase, "d");
        }
        Plan::Paper(_) => panic!("paper"),
    }
    match e.taker_fok_buy("t", 30_126_000, 0, 0).unwrap() {
        Plan::Send { order, .. } => {
            assert_eq!((order.size.as_str(), order.price), ("30.13", None));
            assert_eq!(order.order_type, OrderType::FOK);
            assert!(!order.post_only);
        }
        Plan::Paper(_) => panic!("paper"),
    }
    match e.taker_fok_sell("t", 5_000_000, 0, 0).unwrap() {
        Plan::Send { order, .. } => {
            assert_eq!((order.size.as_str(), order.price.as_deref()), ("5.00", Some("0.01")))
        }
        Plan::Paper(_) => panic!("paper"),
    }
}

fn answer(id: &str, success: bool) -> OrderResult {
    OrderResult {
        order_id: id.into(),
        success,
        status: "live".into(),
        error: None,
        latency_us: 0,
    }
}

fn live() -> ExecutionEngine {
    let mut e = ExecutionEngine::new(false);
    e.set_credentials("a".into(), "b".into(), "c".into(), "d".into());
    e
}

fn bid_to_send(e: &ExecutionEngine, price: i64) -> VenueOrder {
    match e.maker_gtc_buy("t", 20_000_000, price, true, 0, 0).unwrap() {
        Plan::Send { order, .. } => order,
        Plan::Paper(_) => panic!("paper"),
    }
}

fn with_orders(ids: &[&str]) -> ExecutionEngine {
    let mut e = live();
    let order = bid_to_send(&e, 637_500);
    for id in ids {
        let r = e.settle_gtc_buy(Ok(answer(id, true)), &order, 3, 44).unwrap();
        assert_eq!(r.latency_us, 44);
    }
    e
}

#[test]
fn accepted_bids_are_tracked_as_they_were_sent() {
    let mut e = with_orders(&["a", "b", "a"]);
    let order = bid_to_send(&e, 637_500);
    assert!(e.settle_gtc_buy(Ok(answer("c", false)), &order, 3, 44).is_ok());
    assert!(e.settle_gtc_buy(Err("x".into()), &order, 3, 44).is_err());
    assert_eq!(e.open_order_count(), 2);
    assert_eq!((order.limit, order.price.as_deref()), (Some(630_000), Some("0.6300")));
    for (_, entry) in e.get_open_orders() {
        assert_eq!((entry.token_id.as_str(), entry.side.as_str()), ("t", "BUY"));
        assert_eq!((entry.price, entry.size, entry.posted_at_us), (630_000, 20_000_000, 3));
        assert_eq!(entry.order_mode, "GTC postOnly");
    }
    assert_eq!(time_result(Ok(answer("a", true)), 9).unwrap().latency_us, 9);
}

#[test]
fn paper_cancels_forget_at_once() {
    let mut e = with_orders(&["a", "b"]);
    e.paper_mode = true;
    assert!(matches!(e.cancel_order("b"), Ok(None)));
    assert_eq!(e.open_order_count(), 1);
    assert!(matches!(e.cancel_all(), Ok(Cancel::Done(1))));
    assert_eq!(e.open_order_count(), 0);
    let mut bare = ExecutionEngine::new(false);
    assert!(bare.cancel_order("b").is_err());
    assert!(bare.cancel_all().is_err());
}

#[test]
fn live_cancels_follow_the_reply() {
    let mut e = with_orders(&["a", "b"]);
    assert!(matches!(e.cancel_order("a"), Ok(Some(_))));
    let reply = |ids: &[&str], rest: &str| {
        Ok(CancelReply {
            canceled: ids.iter().map(|x| x.to_string()).collect(),
            not_canceled: rest.to_string(),
        })
    };
    assert_eq!(e.settle_cancel("a", Err("down".into())).unwrap_err(), "down");
    assert_eq!(
        e.settle_cancel("a", reply(&[], "{\"a\": \"matched\"}")).unwrap_err(),
        "not cancelled: {\"a\": \"matched\"}"
    );
    assert_eq!(e.settle_cancel("a", reply(&["b"], "{}")).unwrap_err(), "not cancelled: {}");
    assert_eq!(e.open_order_count(), 2);
    assert!(e.settle_cancel("a", reply(&["z", "a"], "{}")).is_ok());
    assert_eq!(e.open_order_count(), 1);
    assert_eq!(e.get_open_orders()[0].0, "b");
    assert!(matches!(e.cancel_all(), Ok(Cancel::Send(_))));
    assert_eq!(e.settle_cancel_all(Err("down".into())).unwrap_err(), "down");
    assert_eq!(e.open_order_count(), 1);
    assert_eq!(e.settle_cancel_all(Ok(7)).unwrap(), 7);
    assert_eq!(e.open_order_count(), 0);
}

#[test]
fn acceptance_is_decided_by_the_answer() {
    assert_eq!(accept(answer("7", true)).unwrap(), "7");
    let mut no = answer("7", false);
    assert_eq!(accept(no.clone()).unwrap_err(), "rejected: live None");
    no.error = Some("no \"funds\"".into());
    assert_eq!(accept(no).unwrap_err(), "rejected: live Some(\"no \\\"funds\\\"\")");
}

#[test]
fn replies_are_judged_by_their_status() {
    let body = r#"{ "orderID" : "8", "success": true }"#;
    let r = read_reply(true, "200 OK", body).unwrap();
    assert_eq!((r.order_id.as_str(), r.success), ("8", true));
    assert_eq!(
        read_reply(false, "400 Bad Request", r#"{ "error" : [1,  2] }"#).unwrap_err(),
        r#"HTTP 400 Bad Request: {"error":[1,2]}"#
    );
    assert!(read_reply(false, "502 Bad Gateway", "<html>").unwrap_err().starts_with("json: "));
    assert!(read_reply(true, "200 OK", "<html>").unwrap_err().starts_with("json: "));
    assert_eq!(judge_reply(false, "1", answer("a", true), "b").unwrap_err(), "HTTP 1: b");
    assert_eq!(judge_reply(true, "1", answer("a", false), "b").unwrap().order_id, "a");
}

#[test]
fn answers_are_read() {
    let v = Json::Object(vec![
        ("orderID".to_string(), Json::Text("7".to_string())),
        ("success".to_string(), Json::Bool(true)),
        ("errorMsg".to_string(), Json::Text("e".to_string())),
    ]);
    let r = read_answer(&v);
    assert_eq!((r.order_id.as_str(), r.success, r.status.as_str()), ("7", true, ""));
    assert_eq!(r.error.as_deref(), Some("e"));
    assert!(!read_answer(&Json::Null).success);
    assert_eq!(parse_answer(r#"{"orderID":"8","status":"live"}"#).unwrap().order_id, "8");
    assert!(parse_answer("<html>").unwrap_err().starts_with("json: "));
}

fn signal() -> Signal {
    Signal {
        created_ts_ms: 0,
        side: Side::Up,
        entry_mode: EntryMode::Taker,
        r200_bps: Extended::Number(0),
        r500_bps: Extended::Number(0),
        r800_bps: Extended::Number(0),
        r2000_bps: Extended::Number(0),
        fast_move_bps: Extended::Number(0),
        raw_basis_bps: Extended::Number(0),
        basis_dev_bps: Extended::Number(0),
        dbasis_bps: Extended::Number(0),
        obi_ema: 0,
        score: 0,
        confidence: 0,
        strong_contradiction: false,
    }
}

fn enter() -> ExecutionCommand {
    ExecutionCommand::EnterTaker {
        market_slug: "m".into(),
        token_id: "t".into(),
        side: Side::Up,
        max_price: 400_000,
        notional: 50_000_000,
        signal: signal(),
    }
}

#[test]
fn purchases_post_whole_shares_at_the_limit() {
    let p = plan_fok_buy(20_000_000, 600_000);
    assert_eq!((p.shares, p.size_text.as_str(), p.price_text.as_str()), (12_000_000, "12", "0.99"));
    assert_eq!(plan_fok_buy(20_000_000, 10_000).shares, 1_000_000);
    assert_eq!(plan_fok_buy(25_000_000, 650_000).shares, 16_000_000);
    let s = plan_fok_sell(20_009_999).unwrap();
    assert_eq!((s.shares, s.size_text.as_str()), (20_000_000, "20.00"));
    assert_eq!(plan_fok_sell(9_999).unwrap_err(), "shares rounds to 0");
    let b = plan_gtc_bid(5_125_000, 430_000).unwrap();
    assert_eq!((b.size_text.as_str(), b.price_text.as_str()), ("5.12", "0.43"));
    assert_eq!(plan_gtc_bid(-1, 1).unwrap_err(), "size rounds to 0");
}

fn exit(shares: i128) -> ExecutionCommand {
    ExecutionCommand::ExitTaker {
        market_slug: "m".into(),
        token_id: "t".into(),
        side: Side::Up,
        shares,
        min_price: 100_000,
        reason: "r".into(),
    }
}

fn resting(size: i128, post_only: bool) -> ExecutionCommand {
    ExecutionCommand::PostMakerBid {
        market_slug: "m".into(),
        token_id: "t".into(),
        side: Side::Up,
        price: 430_000,
        size,
        post_only,
        ladder_key: "k".into(),
        was_cheap: false,
    }
}

#[test]
fn commands_become_orders() {
    let buy = plan_order(&enter(), 20_000_000).unwrap();
    assert_eq!((buy.order.side, buy.order.order_type), (OrderSide::Buy, OrderType::FOK));
    assert_eq!((buy.order.size.as_str(), buy.order.price.as_deref()), ("8", Some("0.99")));
    assert_eq!((buy.order.limit, buy.order.amount), (Some(990_000), 8_000_000));
    assert_eq!((buy.price, buy.size, buy.order.post_only), (400_000, 8_000_000, false));
    let leg = ExecutionCommand::BuySecondLeg {
        market_slug: "m".into(),
        opposite_token_id: "o".into(),
        opposite_side: Side::Down,
        ask_price: 430_000,
        reason: "r".into(),
    };
    let second = plan_order(&leg, 20_000_000).unwrap();
    assert_eq!((second.order.token_id.as_str(), second.price), ("o", 430_000));
    let sell = plan_order(&exit(20_009_999), 20_000_000).unwrap();
    assert_eq!((sell.order.side, sell.order.order_type), (OrderSide::Sell, OrderType::FOK));
    assert_eq!((sell.order.size.as_str(), sell.order.price.clone()), ("20.00", None));
    assert_eq!((sell.price, sell.size), (100_000, 20_000_000));
    assert_eq!(plan_order(&exit(9_999), 1).unwrap_err(), "shares rounds to 0");
    assert_eq!(plan_sale("x", 5_000_000, 10_000).unwrap().order.token_id, "x");
    let bid = plan_order(&resting(5_129_000, true), 20_000_000).unwrap();
    assert_eq!((bid.order.side, bid.order.order_type), (OrderSide::Buy, OrderType::GTC));
    assert_eq!((bid.order.size.as_str(), bid.order.price.as_deref()), ("5.12", Some("0.43")));
    assert_eq!((bid.price, bid.size, bid.order.post_only), (430_000, 0, true));
    assert!(!plan_order(&resting(5_000_000, false), 1).unwrap().order.post_only);
    assert_eq!(plan_order(&resting(1, true), 1).unwrap_err(), "size rounds to 0");
    assert_eq!(plan_order(&cancel_all("r"), 1).unwrap_err(), "not an order");
    let free = ExecutionCommand::EnterTaker {
        market_slug: "m".into(),
        token_id: "t".into(),
        side: Side::Up,
        max_price: 0,
        notional: i128::MAX,
        signal: signal(),
    };
    assert!(is_order_in_range(&free) && !is_in_range(&free));
    let one = plan_order(&free, 20_000_000).unwrap();
    assert_eq!((one.order.size.as_str(), one.order.price.as_deref()), ("1", Some("0.99")));
    assert_eq!((one.price, one.size), (0, 1_000_000));
}

#[test]
fn planned_orders_are_settled_by_their_answers() {
    let plan = plan_order(&enter(), 20_000_000).unwrap();
    let fill = settle_order(&plan, Ok(answer("9", true))).unwrap();
    assert_eq!(fill.order_id, "9");
    assert_eq!((fill.filled_price, fill.filled_size, fill.latency_ms), (400_000, 8_000_000, 0));
    assert_eq!(settle_order(&plan, Ok(answer("9", false))).unwrap_err(), "rejected: live None");
    assert_eq!(settle_order(&plan, Err("post: x".into())).unwrap_err(), "post: x");
}

#[test]
fn dry_runs_fill_at_the_asked_price() {
    assert!(is_in_range(&enter()));
    let f = dry_run(&enter(), 20_000_000, 123).unwrap();
    assert_eq!((f.order_id.as_str(), f.filled_price, f.filled_size), ("dry-123", 400_000, 125_000_000));
    let x = dry_run(&exit(7_000_000), 20_000_000, 5).unwrap();
    assert_eq!((x.order_id.as_str(), x.filled_price, x.filled_size), ("dry-sell-5", 105_000, 7_000_000));
    let leg = ExecutionCommand::BuySecondLeg {
        market_slug: "m".into(),
        opposite_token_id: "o".into(),
        opposite_side: Side::Down,
        ask_price: 430_000,
        reason: "r".into(),
    };
    assert_eq!(dry_run(&leg, 20_000_000, 5).unwrap().filled_size, 8_000_000);
    assert!(dry_run(&cancel_all("r"), 20_000_000, 5).is_none());
    let free = ExecutionCommand::EnterTaker {
        market_slug: "m".into(),
        token_id: "t".into(),
        side: Side::Up,
        max_price: 0,
        notional: 1,
        signal: signal(),
    };
    assert!(!is_in_range(&free));
}

#[test]
fn outcomes_are_reported_and_recorded() {
    let ok = Ok(FillResult {
        order_id: "o".into(),
        filled_price: 1,
        filled_size: 2,
        latency_ms: 0,
    });
    match report(&enter(), &ok, 10, 20).unwrap() {
        ExecutionEvent::EntryFilled { sent_ts_ms, ack_ts_ms, order_id, filled_size, .. } => {
            assert_eq!((sent_ts_ms, ack_ts_ms, order_id.as_str(), filled_size), (10, 20, "o", 2))
        }
        _ => panic!("no fill"),
    }
    assert!(matches!(record(&enter(), &ok, 20, 9), Some(LogEvent::EntryFilled { latency_ms: 9, .. })));
    let err: Result<FillResult, String> = Err("why".into());
    assert!(matches!(report(&enter(), &err, 10, 20), Some(ExecutionEvent::EntryRejected { .. })));
    assert!(matches!(record(&enter(), &err, 20, 9), Some(LogEvent::EntryRejected { .. })));
    assert!(report(&cancel_all("r"), &err, 1, 2).is_none());
    assert!(!worth_a_warning("order would cross the book"));
    assert!(!worth_a_warning("invalid post-only order"));
    assert!(worth_a_warning("no balance"));
}

#[test]
fn executor_odds_and_ends() {
    assert!(sends_orders(BotMode::Live, true));
    assert!(!sends_orders(BotMode::Live, false));
    assert!(!sends_orders(BotMode::DryRun, true));
    assert_eq!(clean_key("0xab"), "ab");
    assert_eq!(clean_key("ab"), "ab");
    assert_eq!(next_heartbeat(Ok("h".into())), Some("h".to_string()));
    assert_eq!(next_heartbeat(Err("x".into())), None);
    assert_eq!(
        answer_total(
            r#"[{"size":"5","maker_address":"0x1"},{"size":"7","maker_address":""},{"size":"9"},
                {"size":"2.5","maker_address":"0x2"}]"#
        ),
        7_500_000
    );
    assert_eq!(answer_total("{}"), 0);
    assert_eq!(answer_total("no"), 0);
    assert_eq!(
        trades_url("11"),
        "https://data-api.polymarket.com/trades?asset_id=11&limit=100"
    );
    let r = reconciliation(1, 2, 3);
    assert_eq!((r.open_order_count, r.up_size_matched, r.down_size_matched, r.ts_ms), (0, 1, 2, 3));
}
