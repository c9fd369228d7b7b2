//! The exchange's best bid and ask.

use vstd::prelude::*;

use crate::fixed::{amount_ok, div_round, rounded};
use crate::json::{json_of, parse_json, Json, JsonView};
use crate::text::join3;
use crate::types_v2::BinanceTick;

verus! {

/// The address of a symbol's feed.
pub fn book_ticker_url(symbol: &str) -> (r: String)
    ensures
        r@ == "wss://fstream.binance.com/ws/"@ + symbol@ + "@bookTicker"@,
{
    join3("wss://fstream.binance.com/ws/", symbol, "@bookTicker")
}

/// Half way between two prices.
pub open spec fn midpoint(bid: int, ask: int) -> int {
    rounded(bid + ask, 2)
}

/// Half way between two prices.
pub fn mid_of(bid: i64, ask: i64) -> (r: i64)
    requires
        amount_ok(bid as int),
        amount_ok(ask as int),
    ensures
        r == midpoint(bid as int, ask as int),
        amount_ok(r as int),
        bid <= ask ==> bid <= r <= ask,
{
    proof {
        crate::fixed::rounding_keeps_bounds(
            bid + ask,
            2,
            -crate::fixed::MAX_AMOUNT as int,
            crate::fixed::MAX_AMOUNT as int,
        );
        if bid <= ask {
            crate::fixed::rounding_keeps_bounds(bid + ask, 2, bid as int, ask as int);
        }
    }
    div_round(bid as i128 + ask as i128, 2) as i64
}

/// The tick in a message: bid, ask and event time, or nothing where one is
/// missing.
pub open spec fn book_tick(v: JsonView, recv_ts_ms: i64) -> Option<BinanceTick> {
    match (v.field_amount("b"@), v.field_amount("a"@), v.field_signed("E"@)) {
        (Some(bid), Some(ask), Some(event_ts_ms)) => Some(
            BinanceTick {
                recv_ts_ms,
                event_ts_ms,
                bid,
                ask,
                mid: midpoint(bid as int, ask as int) as i64,
                obi: None,
            },
        ),
        _ => None,
    }
}

/// The tick in a message.
pub fn read_book_tick(v: &Json, recv_ts_ms: i64) -> (r: Option<BinanceTick>)
    ensures
        r == book_tick(v@, recv_ts_ms),
        r matches Some(t) ==> amount_ok(t.bid as int) && amount_ok(t.ask as int) && amount_ok(
            t.mid as int,
        ),
{
    match (v.get_amount("b"), v.get_amount("a"), v.get_i64("E")) {
        (Some(bid), Some(ask), Some(event_ts_ms)) => Some(
            BinanceTick {
                recv_ts_ms,
                event_ts_ms,
                bid,
                ask,
                mid: mid_of(bid, ask),
                obi: None,
            },
        ),
        _ => None,
    }
}

/// Reads a message of the feed.
pub fn parse_book_ticker(text: &str, recv_ts_ms: i64) -> (r: Option<BinanceTick>)
    ensures
        r == match json_of(text@) {
            Ok(v) => book_tick(v, recv_ts_ms),
            Err(_) => None,
        },
        r matches Some(t) ==> amount_ok(t.bid as int) && amount_ok(t.ask as int) && amount_ok(
            t.mid as int,
        ),
{
    match parse_json(text) {
        Ok(v) => read_book_tick(&v, recv_ts_ms),
        Err(_) => None,
    }
}

/// A tick holds the message's bid and ask, and the mid half way between them.
pub proof fn ticks_tell_bid_and_ask(v: JsonView, recv_ts_ms: i64)
    requires
        crate::fixed::opt_amount_ok(v.field_amount("b"@)),
        crate::fixed::opt_amount_ok(v.field_amount("a"@)),
    ensures
        book_tick(v, recv_ts_ms) matches Some(t) ==> {
            &&& v.field_amount("b"@) == Some(t.bid)
            &&& v.field_amount("a"@) == Some(t.ask)
            &&& v.field_signed("E"@) == Some(t.event_ts_ms)
            &&& t.recv_ts_ms == recv_ts_ms
            &&& -1 <= 2 * t.mid - (t.bid + t.ask) <= 1
            &&& t.obi is None
        },
        book_tick(v, recv_ts_ms) is None ==> v.field_amount("b"@) is None || v.field_amount(
            "a"@,
        ) is None || v.field_signed("E"@) is None,
{
    if let (Some(b), Some(a)) = (v.field_amount("b"@), v.field_amount("a"@)) {
        crate::fixed::rounding_is_nearest(b + a, 2);
    }
}

} // verus!
