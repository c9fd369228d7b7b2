//! The oracle's prices.

use vstd::prelude::*;

use crate::fixed::amount_ok;
use crate::json::{json_of, json_quoted, parse_json, quote, Json, JsonView};
use crate::text::{contains, join3, occurs};
use crate::types_v2::ChainlinkTick;

verus! {

/// The filter for a symbol.
pub open spec fn symbol_filter(symbol: Seq<char>) -> Seq<char> {
    "{\"symbol\":\""@ + symbol + "\"}"@
}

/// Writes the filter for a symbol.
pub fn filter_for(symbol: &str) -> (r: String)
    ensures
        r@ == symbol_filter(symbol@),
{
    join3("{\"symbol\":\"", symbol, "\"}")
}

/// The request for the oracle's prices of a symbol.
pub fn subscription(symbol: &str) -> (r: String)
    ensures
        r@ == "{\"action\":\"subscribe\",\"subscriptions\":[{\"filters\":"@ + json_quoted(
            symbol_filter(symbol@),
        ) + ",\"topic\":\"crypto_prices_chainlink\",\"type\":\"*\"}]}"@,
{
    let filter: String = filter_for(symbol);
    let quoted: String = quote(filter.as_str());
    join3(
        "{\"action\":\"subscribe\",\"subscriptions\":[{\"filters\":",
        quoted.as_str(),
        ",\"topic\":\"crypto_prices_chainlink\",\"type\":\"*\"}]}",
    )
}

/// The price of a payload: its value, or its price where it has no value.
pub open spec fn payload_price(payload: JsonView) -> Option<i64> {
    match payload.field("value"@) {
        Some(v) => v.amount(),
        None => payload.field_number("price"@),
    }
}

/// The price of a payload.
pub fn read_payload_price(payload: &Json) -> (r: Option<i64>)
    ensures
        r == payload_price(payload@),
        crate::fixed::opt_amount_ok(r),
{
    match payload.get("value") {
        Some(v) => v.as_amount(),
        None => payload.get_number("price"),
    }
}

/// The tick in a message: a price of a topic of the oracle.
pub open spec fn oracle_tick(v: JsonView, recv_ts_ms: i64) -> Option<ChainlinkTick> {
    match (v.field_text("topic"@), v.field("payload"@)) {
        (Some(topic), Some(payload)) if occurs(topic, "chainlink"@) => match payload_price(
            payload,
        ) {
            Some(price) => Some(
                ChainlinkTick { recv_ts_ms, source_ts_ms: v.field_signed("timestamp"@), price },
            ),
            None => None,
        },
        _ => None,
    }
}

/// The tick in a message.
pub fn read_oracle_tick(v: &Json, recv_ts_ms: i64) -> (r: Option<ChainlinkTick>)
    ensures
        r == oracle_tick(v@, recv_ts_ms),
        r matches Some(t) ==> amount_ok(t.price as int),
{
    let ours: bool = match v.get_str("topic") {
        Some(topic) => contains(topic, "chainlink"),
        None => false,
    };
    if !ours {
        return None;
    }
    match v.get("payload") {
        Some(payload) => match read_payload_price(payload) {
            Some(price) => Some(
                ChainlinkTick { recv_ts_ms, source_ts_ms: v.get_i64("timestamp"), price },
            ),
            None => None,
        },
        None => None,
    }
}

/// Reads a message of the feed.
pub fn parse_chainlink(text: &str, recv_ts_ms: i64) -> (r: Option<ChainlinkTick>)
    ensures
        r == match json_of(text@) {
            Ok(v) => oracle_tick(v, recv_ts_ms),
            Err(_) => None,
        },
        r matches Some(t) ==> amount_ok(t.price as int),
{
    match parse_json(text) {
        Ok(v) => read_oracle_tick(&v, recv_ts_ms),
        Err(_) => None,
    }
}

} // verus!
