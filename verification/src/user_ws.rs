//! The venue's user feed: the life of orders and trades.

use vstd::prelude::*;

use crate::json::{json_of, json_quoted, parse_json, quote, text_or, views, Json, JsonView};
use crate::market_ws::{
    amount_or_zero, get_amount_or_zero, get_signed_or_zero, items_in, signed_or_zero,
};
use crate::text::{join3, same};
use crate::types::{OrderStatus, RecordedEvent, RecordedEventView};

verus! {

/// An event of the user feed.
#[derive(Debug, Clone)]
pub enum UserEvent {
    OrderUpdate {
        order_id: String,
        status: OrderStatus,
        filled_size: i64,
        timestamp: i64,
        local_recv_us: i64,
    },
    TradeUpdate {
        trade_id: String,
        order_id: String,
        status: String,
        price: i64,
        size: i64,
        timestamp: i64,
        local_recv_us: i64,
    },
    Raw(RecordedEvent),
}

pub ghost enum UserEventView {
    OrderUpdate {
        order_id: Seq<char>,
        status: OrderStatus,
        filled_size: i64,
        timestamp: i64,
        local_recv_us: i64,
    },
    TradeUpdate {
        trade_id: Seq<char>,
        order_id: Seq<char>,
        status: Seq<char>,
        price: i64,
        size: i64,
        timestamp: i64,
        local_recv_us: i64,
    },
    Raw(RecordedEventView),
}

impl View for UserEvent {
    type V = UserEventView;

    open spec fn view(&self) -> UserEventView {
        match self {
            UserEvent::OrderUpdate { order_id, status, filled_size, timestamp, local_recv_us } => UserEventView::OrderUpdate {
                order_id: order_id@,
                status: *status,
                filled_size: *filled_size,
                timestamp: *timestamp,
                local_recv_us: *local_recv_us,
            },
            UserEvent::TradeUpdate { trade_id, order_id, status, price, size, timestamp, local_recv_us } => UserEventView::TradeUpdate {
                trade_id: trade_id@,
                order_id: order_id@,
                status: status@,
                price: *price,
                size: *size,
                timestamp: *timestamp,
                local_recv_us: *local_recv_us,
            },
            UserEvent::Raw(x) => UserEventView::Raw(x@),
        }
    }
}

/// Writes the first message: who asks.
pub fn auth_message(api_key: &str) -> (r: String)
    ensures
        r@ == "{\"apiKey\":"@ + json_quoted(api_key@) + ",\"type\":\"Auth\"}"@,
{
    let key: String = quote(api_key);
    join3("{\"apiKey\":", key.as_str(), ",\"type\":\"Auth\"}")
}

/// The status that a word stands for; pending for an unknown one.
pub open spec fn status_of(word: Seq<char>) -> OrderStatus {
    if word == "PLACEMENT"@ {
        OrderStatus::Placed
    } else if word == "CANCELLATION"@ {
        OrderStatus::Cancelled
    } else if word == "MATCHED"@ {
        OrderStatus::Matched
    } else {
        OrderStatus::Pending
    }
}

/// The status that a word stands for.
pub fn parse_status(word: &str) -> (r: OrderStatus)
    ensures
        r == status_of(word@),
{
    if same(word, "PLACEMENT") {
        OrderStatus::Placed
    } else if same(word, "CANCELLATION") {
        OrderStatus::Cancelled
    } else if same(word, "MATCHED") {
        OrderStatus::Matched
    } else {
        OrderStatus::Pending
    }
}

/// What an event of the feed says; nothing for an unknown kind.
pub open spec fn event_in(v: JsonView, local_recv_us: i64) -> Option<UserEventView> {
    let kind = text_or(v.field_text("event_type"@), ""@);
    if kind == "order"@ {
        Some(
            UserEventView::OrderUpdate {
                order_id: text_or(v.field_text("order_id"@), ""@),
                status: status_of(text_or(v.field_text("status"@), ""@)),
                filled_size: amount_or_zero(v, "filled_size"@),
                timestamp: signed_or_zero(v, "timestamp"@),
                local_recv_us,
            },
        )
    } else if kind == "trade"@ {
        Some(
            UserEventView::TradeUpdate {
                trade_id: text_or(v.field_text("id"@), ""@),
                order_id: text_or(v.field_text("order_id"@), ""@),
                status: text_or(v.field_text("status"@), ""@),
                price: amount_or_zero(v, "price"@),
                size: amount_or_zero(v, "size"@),
                timestamp: signed_or_zero(v, "timestamp"@),
                local_recv_us,
            },
        )
    } else {
        None
    }
}

fn read_event(v: &Json, local_recv_us: i64) -> (r: Option<UserEvent>)
    ensures
        event_in(v@, local_recv_us) == match r {
            Some(e) => Some(e@),
            None => None,
        },
{
    let kind: String = v.get_str_or("event_type", "");
    if same(kind.as_str(), "order") {
        let word: String = v.get_str_or("status", "");
        Some(
            UserEvent::OrderUpdate {
                order_id: v.get_str_or("order_id", ""),
                status: parse_status(word.as_str()),
                filled_size: get_amount_or_zero(v, "filled_size"),
                timestamp: get_signed_or_zero(v, "timestamp"),
                local_recv_us,
            },
        )
    } else if same(kind.as_str(), "trade") {
        Some(
            UserEvent::TradeUpdate {
                trade_id: v.get_str_or("id", ""),
                order_id: v.get_str_or("order_id", ""),
                status: v.get_str_or("status", ""),
                price: get_amount_or_zero(v, "price"),
                size: get_amount_or_zero(v, "size"),
                timestamp: get_signed_or_zero(v, "timestamp"),
                local_recv_us,
            },
        )
    } else {
        None
    }
}

/// What a run of events says, in its order.
pub open spec fn events_in(items: Seq<JsonView>, local_recv_us: i64) -> Seq<UserEventView>
    decreases items.len(),
{
    if items.len() == 0 {
        Seq::empty()
    } else {
        let front = events_in(items.drop_last(), local_recv_us);
        match event_in(items.last(), local_recv_us) {
            Some(e) => front.push(e),
            None => front,
        }
    }
}

/// The views of a run of events.
pub open spec fn event_views(events: Seq<UserEvent>) -> Seq<UserEventView> {
    events.map_values(|e: UserEvent| e@)
}

/// Reads the events of a message's value.
pub fn read_events(v: &Json, local_recv_us: i64) -> (r: Vec<UserEvent>)
    ensures
        event_views(r@) == events_in(items_in(v@), local_recv_us),
{
    let mut out: Vec<UserEvent> = Vec::new();
    assert(event_views(out@) =~= Seq::empty());
    match v.as_array() {
        Some(items) => {
            let ghost all = views(items@);
            let mut i: usize = 0;
            assert(all.take(0) =~= Seq::empty());
            while i < items.len()
                invariant
                    i <= items@.len(),
                    all == views(items@),
                    event_views(out@) == events_in(all.take(i as int), local_recv_us),
                decreases items@.len() - i,
            {
                let ghost before = out@;
                if let Some(e) = read_event(&items[i], local_recv_us) {
                    let ghost view = e@;
                    out.push(e);
                    assert(event_views(out@) =~= event_views(before).push(view));
                }
                i = i + 1;
                assert(all.take(i as int).drop_last() =~= all.take(i as int - 1));
                assert(all.take(i as int).last() == all[i as int - 1]);
            }
            assert(all.take(i as int) =~= all);
        },
        None => {
            proof {
                reveal_with_fuel(events_in, 2);
                assert(seq![v@].drop_last() =~= Seq::empty());
            }
            if let Some(e) = read_event(v, local_recv_us) {
                let ghost view = e@;
                out.push(e);
                assert(event_views(out@) =~= Seq::empty().push(view));
            }
        },
    }
    out
}

/// Reads a message of the feed; one that is no JSON is an error.
pub fn parse_message(text: &str, local_recv_us: i64) -> (r: Result<Vec<UserEvent>, String>)
    ensures
        match json_of(text@) {
            Ok(v) => r matches Ok(events) && event_views(events@) == events_in(
                items_in(v),
                local_recv_us,
            ),
            Err(e) => r matches Err(m) && m@ == e,
        },
{
    match parse_json(text) {
        Ok(v) => Ok(read_events(&v, local_recv_us)),
        Err(e) => Err(e),
    }
}

/// A message for the recording.
pub fn raw_event(text: &str, local_recv_us: i64) -> (r: UserEvent)
    ensures
        r@ == UserEventView::Raw(
            RecordedEventView {
                local_recv_us,
                source: "user_ws"@,
                event_type: "raw"@,
                raw_json: text@,
            },
        ),
{
    UserEvent::Raw(crate::types::recorded(local_recv_us, "user_ws", "raw", text))
}

/// An update tells the order's own identifier, status and filled size; a trade its
/// own identifier and its order's, with its price and size.
pub proof fn user_events_tell_their_order(v: JsonView, local_recv_us: i64)
    ensures
        v.field_text("event_type"@) == Some("order"@) ==> (match event_in(v, local_recv_us) {
            Some(UserEventView::OrderUpdate { order_id, status, filled_size, timestamp, local_recv_us: at }) => {
                &&& v.field_text("order_id"@) matches Some(x) ==> order_id == x
                &&& v.field_amount("filled_size"@) matches Some(x) ==> filled_size == x
                &&& v.field_amount("filled_size"@) is None ==> filled_size == 0
                &&& v.field_signed("timestamp"@) matches Some(x) ==> timestamp == x
                &&& v.field_text("status"@) == Some("PLACEMENT"@) ==> status == OrderStatus::Placed
                &&& v.field_text("status"@) == Some("MATCHED"@) ==> status == OrderStatus::Matched
                &&& v.field_text("status"@) == Some("CANCELLATION"@) ==> status
                    == OrderStatus::Cancelled
                &&& v.field_text("status"@) is None ==> status == OrderStatus::Pending
                &&& at == local_recv_us
            },
            _ => false,
        }),
        v.field_text("event_type"@) == Some("trade"@) ==> (match event_in(v, local_recv_us) {
            Some(UserEventView::TradeUpdate { trade_id, order_id, status, price, size, timestamp, local_recv_us: at }) => {
                &&& v.field_text("id"@) matches Some(x) ==> trade_id == x
                &&& v.field_text("order_id"@) matches Some(x) ==> order_id == x
                &&& v.field_text("status"@) matches Some(x) ==> status == x
                &&& v.field_amount("price"@) matches Some(x) ==> price == x
                &&& v.field_amount("size"@) matches Some(x) ==> size == x
                &&& v.field_signed("timestamp"@) matches Some(x) ==> timestamp == x
                &&& at == local_recv_us
            },
            _ => false,
        }),
{
    reveal_strlit("order");
    reveal_strlit("trade");
    reveal_strlit("PLACEMENT");
    reveal_strlit("MATCHED");
    reveal_strlit("CANCELLATION");
    reveal_strlit("");
    assert("order"@[0] == 'o' && "trade"@[0] == 't');
    assert("PLACEMENT"@.len() == 9 && "MATCHED"@.len() == 7 && "CANCELLATION"@.len() == 12
        && ""@.len() == 0);
}

/// A further event of a message comes behind the others.
pub proof fn user_events_keep_their_order(items: Seq<JsonView>, item: JsonView, local_recv_us: i64)
    ensures
        events_in(Seq::empty(), local_recv_us).len() == 0,
        event_in(item, local_recv_us) is None ==> events_in(items.push(item), local_recv_us)
            == events_in(items, local_recv_us),
        event_in(item, local_recv_us) matches Some(e) ==> events_in(items.push(item), local_recv_us)
            == events_in(items, local_recv_us).push(e),
{
    assert(items.push(item).drop_last() =~= items);
}

} // verus!
