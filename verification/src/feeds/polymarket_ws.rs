//! Token prices by polling.

use vstd::prelude::*;

use crate::fixed::opt_amount_ok;
use crate::json::{json_of, parse_json};
use crate::text::{join, join3};
use crate::types_v2::{MarketDescriptor, PolymarketTop};

verus! {

/// Whether both tokens of a market are known, so that its prices can be polled.
pub fn can_poll(market: &MarketDescriptor) -> (r: bool)
    ensures
        r == (market@.up_token_id.len() > 0 && market@.down_token_id.len() > 0),
{
    !market.up_token_id.as_str().is_empty() && !market.down_token_id.as_str().is_empty()
}

/// The address of a token's price on a side of the book.
pub fn price_url(token_id: &str, side: &str) -> (r: String)
    ensures
        r@ == "https://clob.polymarket.com/price?token_id="@ + token_id@ + ("&side="@ + side@),
{
    let tail: String = join("&side=", side);
    join3("https://clob.polymarket.com/price?token_id=", token_id, tail.as_str())
}

/// Reads the answer to a question for a price.
pub fn parse_price(body: &str) -> (r: Option<i64>)
    ensures
        r == match json_of(body@) {
            Ok(v) => v.field_amount("price"@),
            Err(_) => None,
        },
        opt_amount_ok(r),
{
    match parse_json(body) {
        Ok(v) => v.get_amount("price"),
        Err(_) => None,
    }
}

/// The top of both books from four answers.
pub fn polled_top(
    recv_ts_ms: i64,
    up_ask: Option<i64>,
    up_bid: Option<i64>,
    down_ask: Option<i64>,
    down_bid: Option<i64>,
) -> (r: PolymarketTop)
    ensures
        r == (PolymarketTop { recv_ts_ms, up_bid, up_ask, down_bid, down_ask }),
{
    PolymarketTop { recv_ts_ms, up_bid, up_ask, down_bid, down_ask }
}

} // verus!
