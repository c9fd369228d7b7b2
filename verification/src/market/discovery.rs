//! Which market is open, and its tokens.

use vstd::prelude::*;

use crate::clock::{current_window, window_start, WINDOW_SECONDS};
use crate::json::{
    json_of, parse_json, parse_strings, string_list, string_views, Json, JsonView,
};
use crate::text::{
    after_last, contains, int_string, int_text, join3, last_piece, lowercase, occurs, parse_i64,
    same, signed_value, to_lower,
};
use crate::types_v2::{MarketDescriptor, MarketView};

verus! {

/// The front of the slugs of a market's windows; Bitcoin's for an unknown one.
pub open spec fn slug_front(market: Seq<char>) -> Seq<char> {
    if market == "eth"@ {
        "eth-updown-5m"@
    } else if market == "sol"@ {
        "sol-updown-5m"@
    } else {
        "btc-updown-5m"@
    }
}

/// The front of the slugs of a market's windows.
pub fn slug_prefix(market: &str) -> (r: &'static str)
    ensures
        r@ == slug_front(market@),
{
    if same(market, "eth") {
        "eth-updown-5m"
    } else if same(market, "sol") {
        "sol-updown-5m"
    } else {
        "btc-updown-5m"
    }
}

/// The slug of a window.
pub open spec fn slug_of(front: Seq<char>, window_ts: int) -> Seq<char> {
    front + "-"@ + int_text(window_ts)
}

/// Writes the slug of a window.
pub fn window_slug(front: &str, window_ts: i64) -> (r: String)
    ensures
        r@ == slug_of(front@, window_ts as int),
{
    let n: String = int_string(window_ts as i128);
    join3(front, "-", n.as_str())
}

/// The address of an event.
pub fn event_url(slug: &str) -> (r: String)
    ensures
        r@ == "https://gamma-api.polymarket.com/events?slug="@ + slug@,
{
    crate::text::join("https://gamma-api.polymarket.com/events?slug=", slug)
}

/// What to fetch at a time: the windows to ask for, the present one first; none
/// where the present one was asked for already.
pub fn windows_due(now: i64, last_window_ts: i64) -> (r: Option<(i64, i64)>)
    requires
        now <= i64::MAX - 600,
    ensures
        r == if window_start(now as int) != last_window_ts {
            Some((window_start(now as int) as i64, (window_start(now as int) + 300) as i64))
        } else {
            None
        },
{
    let current: i64 = current_window(now);
    if current != last_window_ts {
        Some((current, current + WINDOW_SECONDS))
    } else {
        None
    }
}

/// How long to sleep: until two seconds into the next window, at least a second
/// and at most half a minute.
pub open spec fn sleep_for(window_ts: int, now: int) -> int {
    let left = window_ts + 302 - now;
    if left < 1 {
        1
    } else if left > 30 {
        30
    } else {
        left
    }
}

/// How long to sleep, in seconds, from a window's start and the time.
pub fn sleep_secs(window_ts: i64, now: i64) -> (r: u64)
    ensures
        r == sleep_for(window_ts as int, now as int),
        1 <= r <= 30,
{
    let left: i128 = window_ts as i128 + 302 - now as i128;
    if left < 1 {
        1
    } else if left > 30 {
        30
    } else {
        left as u64
    }
}

/// The tokens of the two outcomes.
pub ghost struct Tokens {
    pub up: Seq<char>,
    pub down: Seq<char>,
}

/// The tokens after some outcomes: that of the last one with `up` in its name,
/// and of the last other one with `down` in it; empty where there is none.
pub open spec fn tokens_after(outcomes: Seq<Seq<char>>, ids: Seq<Seq<char>>, n: nat) -> Tokens
    decreases n,
{
    if n == 0 {
        Tokens { up: Seq::empty(), down: Seq::empty() }
    } else {
        let before = tokens_after(outcomes, ids, (n - 1) as nat);
        let name = lowercase(outcomes[n - 1]);
        if occurs(name, "up"@) {
            Tokens { up: ids[n - 1], ..before }
        } else if occurs(name, "down"@) {
            Tokens { down: ids[n - 1], ..before }
        } else {
            before
        }
    }
}

/// The number of outcomes that have a token.
pub open spec fn paired(outcomes: Seq<Seq<char>>, ids: Seq<Seq<char>>) -> nat {
    if outcomes.len() < ids.len() {
        outcomes.len()
    } else {
        ids.len()
    }
}

/// The first item of a list.
pub open spec fn first_item(v: Option<Seq<JsonView>>) -> Option<JsonView> {
    match v {
        Some(items) => if items.len() > 0 {
            Some(items[0])
        } else {
            None
        },
        None => None,
    }
}

/// The first market of the first event of an answer.
pub open spec fn first_market(body: JsonView) -> Option<JsonView> {
    match first_item(body.items()) {
        Some(event) => first_item(event.field_items("markets"@)),
        None => None,
    }
}

/// The descriptor of a market: both outcomes with a token each, a condition, and
/// the window that the slug ends with.
pub open spec fn described(market: JsonView, slug: Seq<char>) -> Option<MarketView> {
    match (
        market.field_text("outcomes"@),
        market.field_text("clobTokenIds"@),
        market.field_text("conditionId"@),
    ) {
        (Some(outcomes_text), Some(ids_text), Some(condition_id)) => match (
            string_list(outcomes_text),
            string_list(ids_text),
            signed_value(after_last(slug, '-')),
        ) {
            (Some(outcomes), Some(ids), Some(start)) => {
                let tokens = tokens_after(outcomes, ids, paired(outcomes, ids));
                if outcomes.len() >= 2 && ids.len() >= 2 && tokens.up.len() > 0
                    && tokens.down.len() > 0 && i64::MIN <= start <= i64::MAX {
                    Some(
                        MarketView {
                            slug,
                            condition_id,
                            up_token_id: tokens.up,
                            down_token_id: tokens.down,
                            window_start_ts: start as i64,
                            window_end_ts: (start + 300) as i64,
                        },
                    )
                } else {
                    None
                }
            },
            _ => None,
        },
        _ => None,
    }
}

/// The descriptor in an answer.
pub open spec fn market_in(body: Seq<char>, slug: Seq<char>) -> Option<MarketView> {
    match json_of(body) {
        Ok(v) => match first_market(v) {
            Some(market) => described(market, slug),
            None => None,
        },
        Err(_) => None,
    }
}

/// Whether the end of a slug's window is a number of 64 bits.
pub open spec fn slug_fits(slug: Seq<char>) -> bool {
    signed_value(after_last(slug, '-')) matches Some(n) ==> n > i64::MAX || n <= i64::MAX - 300
}

/// Whether the end of a slug's window is a number of 64 bits.
pub fn does_slug_fit(slug: &str) -> (r: bool)
    ensures
        r == slug_fits(slug@),
{
    let tail: String = last_piece(slug, '-');
    match parse_i64(tail.as_str()) {
        Some(n) => n <= i64::MAX - WINDOW_SECONDS,
        None => true,
    }
}

fn pick_tokens(outcomes: &Vec<String>, ids: &Vec<String>) -> (r: (String, String))
    ensures
        ({
            let o = string_views(outcomes@);
            let t = string_views(ids@);
            (Tokens { up: r.0@, down: r.1@ }) == tokens_after(o, t, paired(o, t))
        }),
{
    let ghost o = string_views(outcomes@);
    let ghost t = string_views(ids@);
    let mut up: String = String::new();
    let mut down: String = String::new();
    let mut i: usize = 0;
    assert(up@ =~= Seq::<char>::empty());
    assert(down@ =~= Seq::<char>::empty());
    while i < outcomes.len() && i < ids.len()
        invariant
            i <= outcomes@.len(),
            i <= ids@.len(),
            o == string_views(outcomes@),
            t == string_views(ids@),
            (Tokens { up: up@, down: down@ }) == tokens_after(o, t, i as nat),
        decreases outcomes@.len() - i,
    {
        let name: String = to_lower(outcomes[i].as_str());
        if contains(name.as_str(), "up") {
            up = ids[i].clone();
        } else if contains(name.as_str(), "down") {
            down = ids[i].clone();
        }
        i = i + 1;
    }
    (up, down)
}

/// Reads a market.
pub fn describe(market: &Json, slug: &str) -> (r: Option<MarketDescriptor>)
    requires
        slug_fits(slug@),
    ensures
        described(market@, slug@) == match r {
            Some(d) => Some(d@),
            None => None,
        },
{
    let (outcomes_text, ids_text, condition_id): (&str, &str, &str) = match (
        market.get_str("outcomes"),
        market.get_str("clobTokenIds"),
        market.get_str("conditionId"),
    ) {
        (Some(a), Some(b), Some(c)) => (a, b, c),
        _ => {
            return None;
        },
    };
    let tail: String = last_piece(slug, '-');
    let (outcomes, ids, start): (Vec<String>, Vec<String>, i64) = match (
        parse_strings(outcomes_text),
        parse_strings(ids_text),
        parse_i64(tail.as_str()),
    ) {
        (Some(a), Some(b), Some(c)) => (a, b, c),
        _ => {
            return None;
        },
    };
    if outcomes.len() < 2 || ids.len() < 2 {
        return None;
    }
    let (up, down): (String, String) = pick_tokens(&outcomes, &ids);
    if up.as_str().is_empty() || down.as_str().is_empty() {
        return None;
    }
    Some(
        MarketDescriptor {
            slug: slug.to_owned(),
            condition_id: condition_id.to_owned(),
            up_token_id: up,
            down_token_id: down,
            window_start_ts: start,
            window_end_ts: start + WINDOW_SECONDS,
        },
    )
}

/// Reads the answer to a question for a window's market.
pub fn parse_market(body: &str, slug: &str) -> (r: Option<MarketDescriptor>)
    requires
        slug_fits(slug@),
    ensures
        market_in(body@, slug@) == match r {
            Some(d) => Some(d@),
            None => None,
        },
{
    let v: Json = match parse_json(body) {
        Ok(v) => v,
        Err(_) => {
            return None;
        },
    };
    match v.as_array() {
        Some(events) if events.len() > 0 => match events[0].get_array("markets") {
            Some(markets) if markets.len() > 0 => describe(&markets[0], slug),
            _ => None,
        },
        _ => None,
    }
}

/// A market that was found has both tokens, keeps the slug that it was asked by,
/// and its window is five minutes long.
pub proof fn found_markets_are_complete(market: JsonView, slug: Seq<char>)
    requires
        slug_fits(slug),
        described(market, slug) is Some,
    ensures
        ({
            let m = described(market, slug)->0;
            &&& m.slug == slug
            &&& m.up_token_id.len() > 0
            &&& m.down_token_id.len() > 0
            &&& m.window_end_ts == m.window_start_ts + WINDOW_SECONDS
            &&& signed_value(after_last(slug, '-')) == Some(m.window_start_ts as int)
        }),
{
}

/// The slug of a window gives the window back.
pub proof fn slugs_tell_the_window(front: Seq<char>, window_ts: int)
    requires
        window_ts >= 0,
    ensures
        signed_value(after_last(slug_of(front, window_ts), '-')) == Some(window_ts),
{
    crate::text::integer_reads_back(window_ts);
    let digits = int_text(window_ts);
    crate::text::numeral_reads_back(window_ts as nat);
    let slug = slug_of(front, window_ts);
    reveal_strlit("-");
    let k = front.len() as int + 1;
    assert(slug.skip(k) =~= digits);
    assert(slug[k - 1] == '-');
    assert forall|j: int| k <= j < slug.len() implies slug[j] != '-' by {
        assert(slug[j] == digits[j - k]);
        assert(crate::text::digit_value(digits[j - k]) is Some);
    }
    crate::text::lemma_after_last(slug, '-', k);
}

/// The sleep ends two seconds into the next window where that is between a second
/// and half a minute away, and else at the nearer of the two.
pub proof fn sleeps_end_in_the_next_window(window_ts: int, now: int)
    ensures
        1 <= sleep_for(window_ts, now) <= 30,
        window_ts + 272 <= now <= window_ts + 301 ==> now + sleep_for(window_ts, now) == window_ts
            + 300 + 2,
        now > window_ts + 301 ==> sleep_for(window_ts, now) == 1,
        now < window_ts + 272 ==> sleep_for(window_ts, now) == 30,
{
}

/// A further outcome named up sets the up token and leaves the down one; one named
/// down the other way round; another name sets neither.
pub proof fn outcomes_name_their_token(outcomes: Seq<Seq<char>>, ids: Seq<Seq<char>>, n: nat)
    requires
        n < outcomes.len(),
        n < ids.len(),
    ensures
        ({
            let before = tokens_after(outcomes, ids, n);
            let after = tokens_after(outcomes, ids, n + 1);
            let name = lowercase(outcomes[n as int]);
            &&& occurs(name, "up"@) ==> after.up == ids[n as int] && after.down == before.down
            &&& !occurs(name, "up"@) ==> after.up == before.up
            &&& !occurs(name, "up"@) && occurs(name, "down"@) ==> after.down == ids[n as int]
            &&& !occurs(name, "down"@) ==> after.down == before.down
        }),
        tokens_after(outcomes, ids, 0).up.len() == 0,
        tokens_after(outcomes, ids, 0).down.len() == 0,
{
}

/// Every market but Ether's and Solana's has Bitcoin's slugs.
pub proof fn slugs_name_their_market(market: Seq<char>)
    ensures
        market == "eth"@ ==> slug_front(market) == "eth-updown-5m"@,
        market == "sol"@ && market != "eth"@ ==> slug_front(market) == "sol-updown-5m"@,
        market != "eth"@ && market != "sol"@ ==> slug_front(market) == "btc-updown-5m"@,
{
}

/// A market is found exactly where it lists at least two outcomes and two tokens,
/// has an up and a down token among them and a condition, and its slug ends with a
/// time.
pub proof fn markets_need_both_tokens(
    market: JsonView,
    slug: Seq<char>,
    outcomes: Seq<Seq<char>>,
    ids: Seq<Seq<char>>,
    start: i64,
)
    requires
        slug_fits(slug),
        market.field_text("outcomes"@) is Some,
        market.field_text("clobTokenIds"@) is Some,
        string_list(market.field_text("outcomes"@)->0) == Some(outcomes),
        string_list(market.field_text("clobTokenIds"@)->0) == Some(ids),
        signed_value(after_last(slug, '-')) == Some(start as int),
    ensures
        ({
            let n = if outcomes.len() < ids.len() {
                outcomes.len()
            } else {
                ids.len()
            };
            let t = tokens_after(outcomes, ids, n);
            let d = described(market, slug);
            &&& d is Some <==> market.field_text("conditionId"@) is Some && n >= 2 && t.up.len() > 0
                && t.down.len() > 0
            &&& d matches Some(m) ==> {
                &&& Some(m.condition_id) == market.field_text("conditionId"@)
                &&& m.slug == slug
                &&& m.up_token_id == t.up
                &&& m.down_token_id == t.down
                &&& m.window_start_ts == start
                &&& m.window_end_ts == start + 300
            }
        }),
{
}

} // verus!
