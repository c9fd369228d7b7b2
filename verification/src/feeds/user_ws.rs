//! The authenticated feed of a user's own orders and trades.
//!
//! Fills are told by the growth of an order's matched size between two updates.

use vstd::hash_map::StringHashMap;
use vstd::prelude::*;
use vstd::string::StringExecFns;

use crate::fixed::amount_ok;
use crate::json::{json_of, json_quoted, parse_json, quote, text_or, Json, JsonView};
use crate::text::{join3, same};
use crate::types_v2::MarketDescriptor;

verus! {

/// Growth up to this is no fill: a hundredth of a share.
pub const LEAST_FILL: i64 = 10_000;

/// A fill, as the growth of an order's matched size shows it.
#[derive(Debug, Clone)]
pub struct UserFillEvent {
    pub order_id: String,
    pub asset_id: String,
    pub side: String,
    pub price: i64,
    /// What was filled since the order's previous update.
    pub size: i64,
    pub status: String,
    pub ts_ms: i64,
}

pub ghost struct FillView {
    pub order_id: Seq<char>,
    pub asset_id: Seq<char>,
    pub side: Seq<char>,
    pub price: i64,
    pub size: i64,
    pub status: Seq<char>,
    pub ts_ms: i64,
}

impl View for UserFillEvent {
    type V = FillView;

    open spec fn view(&self) -> FillView {
        FillView {
            order_id: self.order_id@,
            asset_id: self.asset_id@,
            side: self.side@,
            price: self.price,
            size: self.size,
            status: self.status@,
            ts_ms: self.ts_ms,
        }
    }
}

// ── Messages to the venue ───────────────────────────────────────

/// The first message: who asks.
pub open spec fn auth_text(key: Seq<char>, secret: Seq<char>, passphrase: Seq<char>) -> Seq<char> {
    "{\"auth\":{\"apiKey\":"@ + json_quoted(key) + ",\"passphrase\":"@ + json_quoted(passphrase)
        + ",\"secret\":"@ + json_quoted(secret) + "},\"type\":\"user\"}"@
}

/// Writes the first message.
pub fn auth_message(api_key: &str, api_secret: &str, api_passphrase: &str) -> (r: String)
    ensures
        r@ == auth_text(api_key@, api_secret@, api_passphrase@),
{
    let key: String = quote(api_key);
    let secret: String = quote(api_secret);
    let passphrase: String = quote(api_passphrase);
    let mut s: String = "{\"auth\":{\"apiKey\":".to_owned();
    s.append(key.as_str());
    s.append(",\"passphrase\":");
    s.append(passphrase.as_str());
    s.append(",\"secret\":");
    s.append(secret.as_str());
    s.append("},\"type\":\"user\"}");
    s
}

/// Writes the second message: which market.
pub fn subscribe_message(condition_id: &str) -> (r: String)
    ensures
        r@ == "{\"markets\":["@ + json_quoted(condition_id@) + "],\"operation\":\"subscribe\"}"@,
{
    let id: String = quote(condition_id);
    join3("{\"markets\":[", id.as_str(), "],\"operation\":\"subscribe\"}")
}

// ── Reconnecting ────────────────────────────────────────────────

/// The next time, strictly later, at which a minute is left of an interval.
pub open spec fn next_mark(now: int, interval_s: int) -> int {
    let into = now % interval_s;
    let target = interval_s - 60;
    if into < target {
        now + (target - into)
    } else {
        now + (interval_s - into + target)
    }
}

/// When to connect anew: the next time at which a minute is left of an interval.
/// With an hour that is the fifty-ninth minute of each.
pub fn reconnect_at(now: i64, interval_s: i64) -> (r: i128)
    requires
        interval_s >= 60,
    ensures
        r == next_mark(now as int, interval_s as int),
{
    let wide: i128 = now as i128;
    let step: i128 = interval_s as i128;
    let q: i128 = crate::fixed::div_floor(wide, step);
    proof {
        vstd::arithmetic::div_mod::lemma_fundamental_div_mod(wide as int, step as int);
        assert(step * q == q * step) by (nonlinear_arith);
    }
    let into: i128 = wide - q * step;
    let target: i128 = step - 60;
    if into < target {
        wide + (target - into)
    } else {
        wide + (step - into + target)
    }
}

/// The next mark is later, at most an interval away, and a minute before a
/// multiple of the interval.
pub proof fn marks_recur(now: int, interval_s: int)
    requires
        interval_s >= 60,
    ensures
        now < next_mark(now, interval_s) <= now + interval_s,
        (next_mark(now, interval_s) + 60) % interval_s == 0,
{
    let into = now % interval_s;
    let q = now / interval_s;
    vstd::arithmetic::div_mod::lemma_fundamental_div_mod(now, interval_s);
    if into < interval_s - 60 {
        assert(next_mark(now, interval_s) + 60 == (q + 1) * interval_s) by (nonlinear_arith)
            requires
                now == interval_s * q + into,
                next_mark(now, interval_s) == now + (interval_s - 60 - into),
        ;
        vstd::arithmetic::div_mod::lemma_mod_multiples_basic(q + 1, interval_s);
    } else {
        assert(next_mark(now, interval_s) + 60 == (q + 2) * interval_s) by (nonlinear_arith)
            requires
                now == interval_s * q + into,
                next_mark(now, interval_s) == now + (interval_s - into + interval_s - 60),
        ;
        vstd::arithmetic::div_mod::lemma_mod_multiples_basic(q + 2, interval_s);
    }
}

/// Whether a market asks for another connection.
pub fn condition_changed(market: &MarketDescriptor, condition_id: &str) -> (r: bool)
    ensures
        r == (market@.condition_id != condition_id@ && market@.condition_id.len() > 0),
{
    !same(market.condition_id.as_str(), condition_id) && !market.condition_id.as_str().is_empty()
}

// ── Orders ──────────────────────────────────────────────────────

/// An order's matched size, none counting as zero.
pub open spec fn matched_of(m: Map<Seq<char>, i64>, id: Seq<char>) -> i64 {
    if m.contains_key(id) {
        m[id]
    } else {
        0
    }
}

/// An amount of a message, none counting as zero.
pub open spec fn amount_or_zero(v: JsonView, key: Seq<char>) -> i64 {
    match v.field_amount(key) {
        Some(x) => x,
        None => 0,
    }
}

/// The matched sizes after a message, and the fill that it shows.
pub ghost struct Orders {
    pub matched: Map<Seq<char>, i64>,
    pub fill: Option<FillView>,
}

/// The effect of an order's message: a placement starts at zero, an update sets
/// the matched size and shows a fill where it grew, a cancellation ends the
/// tracking.
pub open spec fn after_order(m: Map<Seq<char>, i64>, v: JsonView, ts_ms: i64) -> Orders {
    let id = text_or(v.field_text("id"@), ""@);
    let kind = text_or(v.field_text("type"@), ""@);
    let size = amount_or_zero(v, "size_matched"@);
    let growth = size - matched_of(m, id);
    if kind == "PLACEMENT"@ {
        Orders { matched: m.insert(id, 0), fill: None }
    } else if kind == "UPDATE"@ {
        Orders {
            matched: m.insert(id, size),
            fill: if growth > LEAST_FILL {
                Some(
                    FillView {
                        order_id: id,
                        asset_id: text_or(v.field_text("asset_id"@), ""@),
                        side: text_or(v.field_text("side"@), "BUY"@),
                        price: amount_or_zero(v, "price"@),
                        size: growth as i64,
                        status: "ORDER_UPDATE"@,
                        ts_ms,
                    },
                )
            } else {
                None
            },
        }
    } else if kind == "CANCELLATION"@ {
        Orders { matched: m.remove(id), fill: None }
    } else {
        Orders { matched: m, fill: None }
    }
}

/// The effect of a message: only those of orders have one.
pub open spec fn after_value(m: Map<Seq<char>, i64>, v: JsonView, ts_ms: i64) -> Orders {
    if text_or(v.field_text("event_type"@), ""@) == "order"@ {
        after_order(m, v, ts_ms)
    } else {
        Orders { matched: m, fill: None }
    }
}

/// Matched sizes by order.
pub struct OrderTracker {
    pub matched: StringHashMap<i64>,
    pub events_received: u64,
}

impl OrderTracker {
    /// The matched sizes are within range.
    pub open spec fn wf(self) -> bool {
        forall|id: Seq<char>|
            self.matched@.contains_key(id) ==> amount_ok(#[trigger] self.matched@[id] as int)
    }

    pub fn new() -> (r: OrderTracker)
        ensures
            r.matched@ == Map::<Seq<char>, i64>::empty(),
            r.events_received == 0,
            r.wf(),
    {
        OrderTracker { matched: StringHashMap::new(), events_received: 0 }
    }

    fn on_order(&mut self, v: &Json, ts_ms: i64) -> (r: Option<UserFillEvent>)
        requires
            old(self).wf(),
        ensures
            ({
                let o = after_order(old(self).matched@, v@, ts_ms);
                &&& final(self).matched@ == o.matched
                &&& o.fill == match r {
                    Some(f) => Some(f@),
                    None => None,
                }
            }),
            final(self).events_received == old(self).events_received,
            final(self).wf(),
    {
        let kind: String = v.get_str_or("type", "");
        let id: String = v.get_str_or("id", "");
        if same(kind.as_str(), "PLACEMENT") {
            self.matched.insert(id, 0);
            None
        } else if same(kind.as_str(), "UPDATE") {
            let size: i64 = match v.get_amount("size_matched") {
                Some(x) => x,
                None => 0,
            };
            let before: i64 = match self.matched.get(id.as_str()) {
                Some(x) => *x,
                None => 0,
            };
            assert(before == matched_of(self.matched@, id@));
            let growth: i64 = size - before;
            self.matched.insert(id.clone(), size);
            if growth > LEAST_FILL {
                let price: i64 = match v.get_amount("price") {
                    Some(x) => x,
                    None => 0,
                };
                Some(
                    UserFillEvent {
                        order_id: id,
                        asset_id: v.get_str_or("asset_id", ""),
                        side: v.get_str_or("side", "BUY"),
                        price,
                        size: growth,
                        status: "ORDER_UPDATE".to_owned(),
                        ts_ms,
                    },
                )
            } else {
                None
            }
        } else if same(kind.as_str(), "CANCELLATION") {
            self.matched.remove(id.as_str());
            None
        } else {
            None
        }
    }

    /// Takes a message's value.
    pub fn on_value(&mut self, v: &Json, ts_ms: i64) -> (r: Option<UserFillEvent>)
        requires
            old(self).wf(),
        ensures
            ({
                let o = after_value(old(self).matched@, v@, ts_ms);
                &&& final(self).matched@ == o.matched
                &&& o.fill == match r {
                    Some(f) => Some(f@),
                    None => None,
                }
            }),
            final(self).events_received == old(self).events_received,
            final(self).wf(),
    {
        let kind: String = v.get_str_or("event_type", "");
        if same(kind.as_str(), "order") {
            self.on_order(v, ts_ms)
        } else {
            None
        }
    }

    /// Takes a message of the feed. Answers to pings and what is no JSON are
    /// passed over.
    pub fn on_message(&mut self, text: &str, ts_ms: i64) -> (r: Option<UserFillEvent>)
        requires
            old(self).wf(),
            old(self).events_received < u64::MAX,
        ensures
            match json_of(text@) {
                Ok(v) if text@ != "PONG"@ => {
                    let o = after_value(old(self).matched@, v, ts_ms);
                    &&& final(self).matched@ == o.matched
                    &&& o.fill == match r {
                        Some(f) => Some(f@),
                        None => None,
                    }
                    &&& final(self).events_received == old(self).events_received + 1
                },
                _ => *final(self) == *old(self) && r is None,
            },
            final(self).wf(),
    {
        if same(text, "PONG") {
            return None;
        }
        match parse_json(text) {
            Ok(v) => {
                self.events_received = self.events_received + 1;
                self.on_value(&v, ts_ms)
            },
            Err(_) => None,
        }
    }
}

// ── Laws ────────────────────────────────────────────────────────

/// The matched sizes after a run of messages.
pub open spec fn after_run(m: Map<Seq<char>, i64>, run: Seq<JsonView>, ts_ms: i64) -> Map<
    Seq<char>,
    i64,
>
    decreases run.len(),
{
    if run.len() == 0 {
        m
    } else {
        after_order(after_run(m, run.drop_last(), ts_ms), run.last(), ts_ms).matched
    }
}

/// The size of the fills that a run of messages shows, together.
pub open spec fn shown(m: Map<Seq<char>, i64>, run: Seq<JsonView>, ts_ms: i64) -> int
    decreases run.len(),
{
    if run.len() == 0 {
        0
    } else {
        shown(m, run.drop_last(), ts_ms) + match after_order(
            after_run(m, run.drop_last(), ts_ms),
            run.last(),
            ts_ms,
        ).fill {
            Some(f) => f.size as int,
            None => 0,
        }
    }
}

/// Whether a run of messages are updates of one order that each show a fill.
pub open spec fn all_fill(m: Map<Seq<char>, i64>, run: Seq<JsonView>, id: Seq<char>, ts_ms: i64) -> bool
    decreases run.len(),
{
    run.len() > 0 ==> {
        &&& all_fill(m, run.drop_last(), id, ts_ms)
        &&& text_or(run.last().field_text("type"@), ""@) == "UPDATE"@
        &&& text_or(run.last().field_text("id"@), ""@) == id
        &&& opt_in_range(run.last())
        &&& after_order(after_run(m, run.drop_last(), ts_ms), run.last(), ts_ms).fill is Some
    }
}

/// Fills add up: where each update of an order shows a fill, the fills sum to
/// what is matched in the end, less what was matched at first.
pub proof fn fills_add_up(m: Map<Seq<char>, i64>, run: Seq<JsonView>, id: Seq<char>, ts_ms: i64)
    requires
        amount_ok(matched_of(m, id) as int),
        all_fill(m, run, id, ts_ms),
    ensures
        shown(m, run, ts_ms) == matched_of(after_run(m, run, ts_ms), id) - matched_of(m, id),
        amount_ok(matched_of(after_run(m, run, ts_ms), id) as int),
    decreases run.len(),
{
    if run.len() > 0 {
        fills_add_up(m, run.drop_last(), id, ts_ms);
        reveal_strlit("UPDATE");
        reveal_strlit("PLACEMENT");
        assert("UPDATE"@.len() != "PLACEMENT"@.len());
    }
}

/// An update sets the order's matched size and no other's; the fill that it
/// shows, if any, is the growth; and the same update again shows none.
pub proof fn updates_show_growth_once(m: Map<Seq<char>, i64>, v: JsonView, ts_ms: i64, other: Seq<char>)
    requires
        forall|id: Seq<char>| m.contains_key(id) ==> amount_ok(#[trigger] m[id] as int),
        opt_in_range(v),
        text_or(v.field_text("type"@), ""@) == "UPDATE"@,
        other != text_or(v.field_text("id"@), ""@),
    ensures
        ({
            let id = text_or(v.field_text("id"@), ""@);
            let o = after_order(m, v, ts_ms);
            &&& matched_of(o.matched, id) == amount_or_zero(v, "size_matched"@)
            &&& matched_of(o.matched, other) == matched_of(m, other)
            &&& o.fill matches Some(f) ==> f.size == matched_of(o.matched, id) - matched_of(m, id)
            &&& after_order(o.matched, v, ts_ms).fill is None
            &&& after_order(o.matched, v, ts_ms).matched == o.matched
        }),
{
    reveal_strlit("UPDATE");
    reveal_strlit("PLACEMENT");
    let id = text_or(v.field_text("id"@), ""@);
    let o = after_order(m, v, ts_ms);
    assert("UPDATE"@.len() != "PLACEMENT"@.len());
    assert(matched_of(m, id) as int == 0 || amount_ok(m[id] as int));
    assert(after_order(o.matched, v, ts_ms).matched =~= o.matched);
}

/// The amounts of a message are within range, as every amount that is read is.
pub open spec fn opt_in_range(v: JsonView) -> bool {
    crate::fixed::opt_amount_ok(v.field_amount("size_matched"@))
}

/// What a message of an order leads to: a placement starts the order at nothing
/// matched, an update takes over what is matched and shows the growth where that
/// is more than a hundredth of a share, and a cancellation forgets the order.
pub proof fn orders_are_followed(m: Map<Seq<char>, i64>, v: JsonView, ts_ms: i64, id: Seq<char>, size: i64)
    requires
        forall|k: Seq<char>| m.contains_key(k) ==> amount_ok(#[trigger] m[k] as int),
        amount_ok(size as int),
        v.field_text("id"@) == Some(id),
        v.field_amount("size_matched"@) == Some(size),
    ensures
        ({
            let o = after_order(m, v, ts_ms);
            let known: int = if m.contains_key(id) {
                m[id] as int
            } else {
                0
            };
            &&& v.field_text("type"@) == Some("PLACEMENT"@) ==> o.fill is None
                && o.matched.contains_key(id) && o.matched[id] == 0
            &&& v.field_text("type"@) == Some("UPDATE"@) ==> {
                &&& o.matched.contains_key(id) && o.matched[id] == size
                &&& o.fill is Some <==> size > known + 10_000
                &&& o.fill matches Some(f) ==> {
                    &&& f.order_id == id
                    &&& f.size == size - known
                    &&& f.ts_ms == ts_ms
                    &&& f.status == "ORDER_UPDATE"@
                    &&& v.field_text("asset_id"@) matches Some(a) ==> f.asset_id == a
                    &&& v.field_text("side"@) matches Some(s) ==> f.side == s
                    &&& v.field_text("side"@) is None ==> f.side == "BUY"@
                    &&& v.field_amount("price"@) matches Some(p) ==> f.price == p
                }
            }
            &&& v.field_text("type"@) == Some("CANCELLATION"@) ==> o.fill is None
                && !o.matched.contains_key(id)
            &&& forall|other: Seq<char>| other != id ==> {
                &&& #[trigger] o.matched.contains_key(other) <==> m.contains_key(other)
                &&& m.contains_key(other) ==> o.matched[other] == m[other]
            }
        }),
{
    reveal_strlit("UPDATE");
    reveal_strlit("PLACEMENT");
    reveal_strlit("CANCELLATION");
    assert("UPDATE"@.len() == 6 && "PLACEMENT"@.len() == 9 && "CANCELLATION"@.len() == 12);
    if m.contains_key(id) {
        assert(amount_ok(m[id] as int));
    }
}

/// Messages of other kinds than an order's change nothing.
pub proof fn other_messages_change_nothing(m: Map<Seq<char>, i64>, v: JsonView, ts_ms: i64)
    ensures
        v.field_text("event_type"@) is Some && v.field_text("event_type"@)->0 != "order"@
            ==> after_value(m, v, ts_ms).matched == m && after_value(m, v, ts_ms).fill is None,
        v.field_text("event_type"@) == Some("order"@) ==> after_value(m, v, ts_ms) == after_order(
            m,
            v,
            ts_ms,
        ),
{
}

} // verus!
