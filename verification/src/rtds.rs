//! The venue's feed of reference prices: the exchange's and the oracle's.

use vstd::prelude::*;
use vstd::string::StringExecFns;

use crate::feeds::rtds::{filter_for, payload_price, read_payload_price, symbol_filter};
use crate::json::{json_of, json_quoted, parse_json, quote, text_or, Json, JsonView};
use crate::text::{join, lowercase, remove_char, same, to_lower, without_char};
use crate::types::{RecordedEvent, RecordedEventView, RefPrice, RefPriceView, RefSource};

verus! {

/// An event of the reference feed.
#[derive(Debug, Clone)]
pub enum RtdsEvent {
    Price(RefPrice),
    Raw(RecordedEvent),
}

pub ghost enum RtdsEventView {
    Price(RefPriceView),
    Raw(RecordedEventView),
}

impl View for RtdsEvent {
    type V = RtdsEventView;

    open spec fn view(&self) -> RtdsEventView {
        match self {
            RtdsEvent::Price(x) => RtdsEventView::Price(x@),
            RtdsEvent::Raw(x) => RtdsEventView::Raw(x@),
        }
    }
}

/// The exchange's symbol for a pair against the dollar: `btc/usd` is `btcusdt`.
pub open spec fn exchange_symbol(symbol: Seq<char>) -> Seq<char> {
    lowercase(without_char(symbol, '/')) + "t"@
}

/// The exchange's symbol for a pair against the dollar.
pub fn binance_symbol(symbol: &str) -> (r: String)
    ensures
        r@ == exchange_symbol(symbol@),
{
    let plain: String = remove_char(symbol, '/');
    let lower: String = to_lower(plain.as_str());
    join(lower.as_str(), "t")
}

/// The request for both prices of a symbol.
pub open spec fn subscription_text(symbol: Seq<char>) -> Seq<char> {
    "{\"action\":\"subscribe\",\"subscriptions\":[{\"topic\":\"crypto_prices\",\"type\":\"*\",\"filters\":"@
        + json_quoted(symbol_filter(exchange_symbol(symbol)))
        + "},{\"topic\":\"crypto_prices_chainlink\",\"type\":\"*\",\"filters\":"@ + json_quoted(
        symbol_filter(symbol),
    ) + "}]}"@
}

/// Writes the request for both prices of a symbol.
pub fn subscription(symbol: &str) -> (r: String)
    ensures
        r@ == subscription_text(symbol@),
{
    let exchange: String = binance_symbol(symbol);
    let exchange_filter: String = filter_for(exchange.as_str());
    let a: String = quote(exchange_filter.as_str());
    let oracle_filter: String = filter_for(symbol);
    let b: String = quote(oracle_filter.as_str());
    let mut s: String =
        "{\"action\":\"subscribe\",\"subscriptions\":[{\"topic\":\"crypto_prices\",\"type\":\"*\",\"filters\":".to_owned();
    s.append(a.as_str());
    s.append("},{\"topic\":\"crypto_prices_chainlink\",\"type\":\"*\",\"filters\":");
    s.append(b.as_str());
    s.append("}]}");
    s
}

/// The source that a topic stands for.
pub open spec fn source_of(topic: Seq<char>) -> Option<RefSource> {
    if topic == "crypto_prices"@ {
        Some(RefSource::RtdsBinance)
    } else if topic == "crypto_prices_chainlink"@ {
        Some(RefSource::RtdsChainlink)
    } else {
        None
    }
}

fn parse_source(topic: &str) -> (r: Option<RefSource>)
    ensures
        r == source_of(topic@),
{
    if same(topic, "crypto_prices") {
        Some(RefSource::RtdsBinance)
    } else if same(topic, "crypto_prices_chainlink") {
        Some(RefSource::RtdsChainlink)
    } else {
        None
    }
}

/// The time of a message: the payload's, or else its own, or else zero.
pub open spec fn message_time(v: JsonView, payload: JsonView) -> i64 {
    match (payload.field_signed("timestamp"@), v.field_signed("timestamp"@)) {
        (Some(t), _) => t,
        (None, Some(t)) => t,
        (None, None) => 0,
    }
}

/// The price in a message. A message without a payload, without a price, or of
/// an unknown topic is an error, in this order.
pub open spec fn price_in(v: JsonView, local_recv_us: i64) -> Result<RefPriceView, Seq<char>> {
    let topic = text_or(v.field_text("topic"@), ""@);
    match v.field("payload"@) {
        None => Err("no payload"@),
        Some(payload) => match payload_price(payload) {
            None => Err("no price value"@),
            Some(price) => match source_of(topic) {
                None => Err("unknown topic: "@ + topic),
                Some(source) => Ok(
                    RefPriceView {
                        source,
                        symbol: text_or(payload.field_text("symbol"@), ""@),
                        price,
                        timestamp: message_time(v, payload),
                        local_recv_ts: local_recv_us,
                    },
                ),
            },
        },
    }
}

/// Reads the price in a message's value.
pub fn read_price(v: &Json, local_recv_us: i64) -> (r: Result<RefPrice, String>)
    ensures
        price_in(v@, local_recv_us) == match r {
            Ok(p) => Ok(p@),
            Err(e) => Err(e@),
        },
{
    let topic: String = v.get_str_or("topic", "");
    let payload: &Json = match v.get("payload") {
        Some(p) => p,
        None => {
            return Err("no payload".to_owned());
        },
    };
    let price: i64 = match read_payload_price(payload) {
        Some(p) => p,
        None => {
            return Err("no price value".to_owned());
        },
    };
    let timestamp: i64 = match payload.get_i64("timestamp") {
        Some(t) => t,
        None => match v.get_i64("timestamp") {
            Some(t) => t,
            None => 0,
        },
    };
    let symbol: String = payload.get_str_or("symbol", "");
    match parse_source(topic.as_str()) {
        Some(source) => Ok(
            RefPrice { source, symbol, price, timestamp, local_recv_ts: local_recv_us },
        ),
        None => Err(join("unknown topic: ", topic.as_str())),
    }
}

/// Reads a message of the feed.
pub fn parse_rtds_price(text: &str, local_recv_us: i64) -> (r: Result<RefPrice, String>)
    ensures
        match json_of(text@) {
            Ok(v) => price_in(v, local_recv_us) == (match r {
                Ok(p) => Ok(p@),
                Err(e) => Err(e@),
            }),
            Err(e) => r matches Err(m) && m@ == e,
        },
{
    match parse_json(text) {
        Ok(v) => read_price(&v, local_recv_us),
        Err(e) => Err(e),
    }
}

/// A message for the recording.
pub fn raw_event(text: &str, local_recv_us: i64) -> (r: RtdsEvent)
    ensures
        r@ == RtdsEventView::Raw(
            RecordedEventView {
                local_recv_us,
                source: "rtds"@,
                event_type: "raw"@,
                raw_json: text@,
            },
        ),
{
    RtdsEvent::Raw(crate::types::recorded(local_recv_us, "rtds", "raw", text))
}

/// A price is the exchange's or the oracle's by its topic, with the payload's own
/// symbol, and the payload's time before the message's.
pub proof fn prices_are_told_by_topic(v: JsonView, local_recv_us: i64)
    ensures
        source_of("crypto_prices"@) == Some(RefSource::RtdsBinance),
        source_of("crypto_prices_chainlink"@) == Some(RefSource::RtdsChainlink),
        v.field("payload"@) is None ==> price_in(v, local_recv_us) is Err,
        price_in(v, local_recv_us) matches Ok(p) ==> {
            &&& p.source == RefSource::RtdsBinance || p.source == RefSource::RtdsChainlink
            &&& p.source == RefSource::RtdsBinance ==> text_or(v.field_text("topic"@), ""@)
                == "crypto_prices"@
            &&& p.source == RefSource::RtdsChainlink ==> text_or(v.field_text("topic"@), ""@)
                == "crypto_prices_chainlink"@
            &&& p.local_recv_ts == local_recv_us
            &&& v.field("payload"@) matches Some(payload) && {
                &&& payload.field_signed("timestamp"@) matches Some(t) ==> p.timestamp == t
                &&& payload.field_signed("timestamp"@) is None && v.field_signed(
                    "timestamp"@,
                ) is Some ==> Some(p.timestamp) == v.field_signed("timestamp"@)
                &&& payload.field_text("symbol"@) matches Some(s) ==> p.symbol == s
                &&& payload.field("value"@) matches Some(x) ==> x.amount() == Some(p.price)
                &&& payload.field("value"@) is None ==> payload.field_number("price"@) == Some(
                    p.price,
                )
            }
        },
{
    reveal_strlit("crypto_prices");
    reveal_strlit("crypto_prices_chainlink");
    assert("crypto_prices"@.len() == 13 && "crypto_prices_chainlink"@.len() == 23);
}

} // verus!
