//! Placing and cancelling orders.
//!
//! Prices are quantized to the tick of their token. Post-only goes with resting
//! orders alone. In paper mode nothing is sent.

use vstd::hash_map::StringHashMap;
use vstd::prelude::*;
use vstd::string::StringExecFns;

use base64::engine::general_purpose::URL_SAFE;
use base64::Engine;
use hmac::{Hmac, Mac};
use sha2::Sha256;

use crate::fixed::{amount_ok, fixed_string, fixed_text};
use crate::json::{
    json_of, json_rewritten, parse_json, rewrite_json, string_views, text_or, Json, JsonView,
};
use crate::strategy::{quantize_price, quantized};
use crate::text::{
    debug_of, debug_text, int_string, int_text, join, replace_char, same, with_replaced,
};
use crate::types::{OrderSide, OrderType, TickSize};

verus! {

// ── Tick sizes ──────────────────────────────────────────────────

/// The tick of a token that none is known of: a cent.
pub const DEFAULT_TICK: i64 = 10_000;

/// Tick sizes by token.
pub struct TickSizeRegistry {
    pub tick_sizes: StringHashMap<i64>,
}

/// The tick of a token.
pub open spec fn tick_of(m: Map<Seq<char>, i64>, token_id: Seq<char>) -> i64 {
    if m.contains_key(token_id) {
        m[token_id]
    } else {
        DEFAULT_TICK
    }
}

/// A price rounded down to a tick; nothing where the tick or the outcome is not
/// positive.
pub open spec fn ticked_price(tick: int, price: int) -> Option<int> {
    if tick <= 0 || quantized(price, tick) <= 0 {
        None
    } else {
        Some(quantized(price, tick))
    }
}

impl TickSizeRegistry {
    /// The ticks are within range.
    pub open spec fn wf(self) -> bool {
        forall|id: Seq<char>|
            self.tick_sizes@.contains_key(id) ==> amount_ok(#[trigger] self.tick_sizes@[id] as int)
    }

    pub fn new() -> (r: TickSizeRegistry)
        ensures
            r.tick_sizes@ == Map::<Seq<char>, i64>::empty(),
            r.wf(),
    {
        TickSizeRegistry { tick_sizes: StringHashMap::new() }
    }

    /// Takes over a token's tick.
    pub fn update(&mut self, ts: &TickSize)
        requires
            old(self).wf(),
            amount_ok(ts.tick_size as int),
        ensures
            final(self).tick_sizes@ == old(self).tick_sizes@.insert(ts@.token_id, ts@.tick_size),
            final(self).wf(),
    {
        self.tick_sizes.insert(ts.token_id.clone(), ts.tick_size);
    }

    /// Rounds a price down to the tick of its token.
    pub fn quantize(&self, token_id: &str, price: i64) -> (r: Option<i64>)
        requires
            self.wf(),
            amount_ok(price as int),
        ensures
            ticked_price(tick_of(self.tick_sizes@, token_id@) as int, price as int) == match r {
                Some(q) => Some(q as int),
                None => None,
            },
            r matches Some(q) ==> 0 < q <= price,
    {
        let tick: i64 = match self.tick_sizes.get(token_id) {
            Some(t) => *t,
            None => DEFAULT_TICK,
        };
        assert(tick == tick_of(self.tick_sizes@, token_id@));
        if tick <= 0 {
            return None;
        }
        proof {
            crate::strategy::quantizing_rounds_down(price as int, tick as int);
        }
        let q: i64 = quantize_price(price, tick);
        if q <= 0 {
            None
        } else {
            Some(q)
        }
    }
}

// ── Signatures ──────────────────────────────────────────────────

/// What `base64`'s URL-safe engine with padding reads in a text: bytes, or the
/// message of its error.
pub uninterp spec fn base64_decoded(text: Seq<char>) -> Result<Seq<u8>, Seq<char>>;

/// `base64`'s `URL_SAFE.decode`. The contract names the outcome, and claims that
/// it depends on the text alone.
#[verifier::external_body]
fn decode_base64(text: &str) -> (r: Result<Vec<u8>, String>)
    ensures
        base64_decoded(text@) == match r {
            Ok(bytes) => Ok(bytes@),
            Err(e) => Err(e@),
        },
{
    URL_SAFE.decode(text).map_err(|e| e.to_string())
}

/// What `base64`'s URL-safe engine with padding writes for some bytes.
pub uninterp spec fn base64_encoded(bytes: Seq<u8>) -> Seq<char>;

/// `base64`'s `URL_SAFE.encode`. The contract names the outcome, and claims that
/// it depends on the bytes alone. It panics on inputs whose encoding does not
/// fit the address space, which no signature comes near.
#[verifier::external_body]
fn encode_base64(bytes: &[u8]) -> (r: String)
    requires
        bytes@.len() <= 0xffff,
    ensures
        r@ == base64_encoded(bytes@),
{
    URL_SAFE.encode(bytes)
}

/// The HMAC with SHA-256 of a text under a key.
pub uninterp spec fn hmac_sha256(key: Seq<u8>, message: Seq<char>) -> Seq<u8>;

/// `hmac`'s `Hmac<Sha256>`: `new_from_slice`, `update` with the text's bytes, and
/// `finalize`. The contract names the outcome, claims that it depends on the key
/// and the text alone, and that it is thirty-two bytes long. A key of any length
/// is accepted.
#[verifier::external_body]
fn compute_hmac(key: &[u8], message: &str) -> (r: Vec<u8>)
    ensures
        r@ == hmac_sha256(key@, message@),
        r@.len() == 32,
{
    let mut mac = Hmac::<Sha256>::new_from_slice(key).unwrap();
    mac.update(message.as_bytes());
    mac.finalize().into_bytes().to_vec()
}

/// The text that a request is signed by: its time, method, path and body, the
/// body with double quotation marks for single ones.
pub open spec fn signed_text(
    timestamp: Seq<char>,
    method: Seq<char>,
    path: Seq<char>,
    body: Seq<char>,
) -> Seq<char> {
    timestamp + method + path + with_replaced(body, '\'', '"')
}

/// The signature of a text under a decoded secret, or the error of its decoding.
pub open spec fn signature_of(secret: Result<Seq<u8>, Seq<char>>, message: Seq<char>) -> Result<
    Seq<char>,
    Seq<char>,
> {
    match secret {
        Ok(key) => Ok(base64_encoded(hmac_sha256(key, message))),
        Err(e) => Err("base64 decode secret: "@ + e),
    }
}

/// Writes the text that a request is signed by.
pub fn message_to_sign(timestamp: &str, method: &str, path: &str, body: &str) -> (r: String)
    ensures
        r@ == signed_text(timestamp@, method@, path@, body@),
{
    let plain: String = replace_char(body, '\'', '"');
    let mut s: String = timestamp.to_owned();
    s.append(method);
    s.append(path);
    s.append(plain.as_str());
    s
}

/// Signs a text with a secret as it was decoded.
pub fn sign_with(secret: Result<Vec<u8>, String>, message: &str) -> (r: Result<String, String>)
    ensures
        signature_of(
            match secret {
                Ok(k) => Ok(k@),
                Err(e) => Err(e@),
            },
            message@,
        ) == match r {
            Ok(s) => Ok(s@),
            Err(e) => Err(e@),
        },
{
    match secret {
        Ok(key) => {
            let mac: Vec<u8> = compute_hmac(key.as_slice(), message);
            Ok(encode_base64(mac.as_slice()))
        },
        Err(e) => Err(join("base64 decode secret: ", e.as_str())),
    }
}

/// Signs a request with a secret.
pub fn hmac_sign(secret: &str, timestamp: &str, method: &str, path: &str, body: &str) -> (r: Result<
    String,
    String,
>)
    ensures
        signature_of(
            base64_decoded(secret@),
            signed_text(timestamp@, method@, path@, body@),
        ) == match r {
            Ok(s) => Ok(s@),
            Err(e) => Err(e@),
        },
{
    let message: String = message_to_sign(timestamp, method, path, body);
    sign_with(decode_base64(secret), message.as_str())
}

// ── Orders ──────────────────────────────────────────────────────

/// What came of an order.
#[derive(Debug, Clone)]
pub struct OrderResult {
    pub order_id: String,
    pub success: bool,
    pub status: String,
    pub error: Option<String>,
    pub latency_us: u64,
}

pub ghost struct OrderResultView {
    pub order_id: Seq<char>,
    pub success: bool,
    pub status: Seq<char>,
    pub error: Option<Seq<char>>,
    pub latency_us: u64,
}

impl View for OrderResult {
    type V = OrderResultView;

    open spec fn view(&self) -> OrderResultView {
        OrderResultView {
            order_id: self.order_id@,
            success: self.success,
            status: self.status@,
            error: match self.error {
                Some(e) => Some(e@),
                None => None,
            },
            latency_us: self.latency_us,
        }
    }
}

/// An order that rests.
#[derive(Debug, Clone)]
pub struct OrderTracking {
    pub token_id: String,
    pub side: String,
    pub price: i128,
    pub size: i128,
    pub order_mode: String,
    pub posted_at_us: i64,
}

pub ghost struct OrderTrackingView {
    pub token_id: Seq<char>,
    pub side: Seq<char>,
    pub price: i128,
    pub size: i128,
    pub order_mode: Seq<char>,
    pub posted_at_us: i64,
}

impl View for OrderTracking {
    type V = OrderTrackingView;

    open spec fn view(&self) -> OrderTrackingView {
        OrderTrackingView {
            token_id: self.token_id@,
            side: self.side@,
            price: self.price,
            size: self.size,
            order_mode: self.order_mode@,
            posted_at_us: self.posted_at_us,
        }
    }
}

/// What an order is signed with.
#[derive(Debug, Clone)]
pub struct Credentials {
    pub private_key: String,
    pub api_key: String,
    pub api_secret: String,
    pub api_passphrase: String,
}

pub ghost struct CredentialsView {
    pub private_key: Seq<char>,
    pub api_key: Seq<char>,
    pub api_secret: Seq<char>,
    pub api_passphrase: Seq<char>,
}

impl View for Credentials {
    type V = CredentialsView;

    open spec fn view(&self) -> CredentialsView {
        CredentialsView {
            private_key: self.private_key@,
            api_key: self.api_key@,
            api_secret: self.api_secret@,
            api_passphrase: self.api_passphrase@,
        }
    }
}

/// An order in the venue's terms: size and price as decimal numerals, beside the
/// amounts that they write. An order without a price takes what the book gives:
/// it buys for so many dollars, or sells so many shares.
#[derive(Debug, Clone)]
pub struct VenueOrder {
    pub token_id: String,
    pub side: OrderSide,
    pub order_type: OrderType,
    pub amount: i128,
    pub size: String,
    pub limit: Option<i128>,
    pub price: Option<String>,
    pub post_only: bool,
}

pub ghost struct VenueOrderView {
    pub token_id: Seq<char>,
    pub side: OrderSide,
    pub order_type: OrderType,
    pub amount: i128,
    pub size: Seq<char>,
    pub limit: Option<i128>,
    pub price: Option<Seq<char>>,
    pub post_only: bool,
}

impl View for VenueOrder {
    type V = VenueOrderView;

    open spec fn view(&self) -> VenueOrderView {
        VenueOrderView {
            token_id: self.token_id@,
            side: self.side,
            order_type: self.order_type,
            amount: self.amount,
            size: self.size@,
            limit: self.limit,
            price: match self.price {
                Some(p) => Some(p@),
                None => None,
            },
            post_only: self.post_only,
        }
    }
}

/// What to do about an order: nothing more in paper mode, else send it.
pub enum Plan {
    Paper(OrderResult),
    Send { order: VenueOrder, credentials: Credentials },
}

pub ghost enum PlanView {
    Paper(OrderResultView),
    Send { order: VenueOrderView, credentials: CredentialsView },
}

impl View for Plan {
    type V = PlanView;

    open spec fn view(&self) -> PlanView {
        match self {
            Plan::Paper(r) => PlanView::Paper(r@),
            Plan::Send { order, credentials } => PlanView::Send {
                order: order@,
                credentials: credentials@,
            },
        }
    }
}

/// The view of a plan or of the reason for none.
pub open spec fn plan_view(r: Result<Plan, String>) -> Result<PlanView, Seq<char>> {
    match r {
        Ok(p) => Ok(p@),
        Err(e) => Err(e@),
    }
}

/// The result of an order in paper mode.
pub open spec fn paper_result(prefix: Seq<char>, now_ms: int, latency_us: u64) -> OrderResultView {
    OrderResultView {
        order_id: prefix + int_text(now_ms),
        success: true,
        status: "PAPER"@,
        error: None,
        latency_us,
    }
}

fn paper(prefix: &str, now_ms: i64, latency_us: u64) -> (r: OrderResult)
    ensures
        r@ == paper_result(prefix@, now_ms as int, latency_us),
{
    let n: String = int_string(now_ms as i128);
    OrderResult {
        order_id: join(prefix, n.as_str()),
        success: true,
        status: "PAPER".to_owned(),
        error: None,
        latency_us,
    }
}

/// The resting orders without one.
pub open spec fn without_order(s: Seq<(Seq<char>, OrderTrackingView)>, id: Seq<char>) -> Seq<
    (Seq<char>, OrderTrackingView),
>
    decreases s.len(),
{
    if s.len() == 0 {
        s
    } else {
        let front = without_order(s.drop_last(), id);
        if s.last().0 == id {
            front
        } else {
            front.push(s.last())
        }
    }
}

proof fn lemma_without_order(s: Seq<(Seq<char>, OrderTrackingView)>, id: Seq<char>)
    ensures
        without_order(s, id).len() <= s.len(),
        forall|i: int|
            0 <= i < without_order(s, id).len() ==> (#[trigger] without_order(s, id)[i]).0 != id
                && s.contains(without_order(s, id)[i]),
        (forall|i: int, j: int| 0 <= i < j < s.len() ==> s[i].0 != s[j].0) ==> forall|
            i: int,
            j: int,
        |
            0 <= i < j < without_order(s, id).len() ==> without_order(s, id)[i].0
                != without_order(s, id)[j].0,
    decreases s.len(),
{
    if s.len() > 0 {
        let front = s.drop_last();
        lemma_without_order(front, id);
        let kept = without_order(front, id);
        assert forall|i: int| 0 <= i < kept.len() implies s.contains(#[trigger] kept[i]) by {
            let k = choose|k: int| 0 <= k < front.len() && front[k] == kept[i];
            assert(s[k] == kept[i]);
        }
        assert(s[s.len() - 1] == s.last());
        if forall|i: int, j: int| 0 <= i < j < s.len() ==> s[i].0 != s[j].0 {
            assert forall|i: int| 0 <= i < kept.len() implies (#[trigger] kept[i]).0 != s.last().0 by {
                let k = choose|k: int| 0 <= k < front.len() && front[k] == kept[i];
                assert(s[k] == kept[i]);
            }
        }
    }
}

/// What the venue replies to a cancel: the orders that it cancelled, and what it
/// says of those that it did not.
#[derive(Debug, Clone)]
pub struct CancelReply {
    pub canceled: Vec<String>,
    pub not_canceled: String,
}

/// The engine: tick sizes, resting orders, and the credentials.
pub struct ExecutionEngine {
    pub tick_sizes: TickSizeRegistry,
    pub open_orders: Vec<(String, OrderTracking)>,
    pub paper_mode: bool,
    pub private_key: Option<String>,
    pub api_key: Option<String>,
    pub api_secret: Option<String>,
    pub api_passphrase: Option<String>,
}

pub open spec fn opt_view(s: Option<String>) -> Option<Seq<char>> {
    match s {
        Some(x) => Some(x@),
        None => None,
    }
}

/// All four credentials, or the first that is missing.
pub open spec fn credentials_of(
    private_key: Option<Seq<char>>,
    api_key: Option<Seq<char>>,
    api_secret: Option<Seq<char>>,
    api_passphrase: Option<Seq<char>>,
) -> Result<CredentialsView, Seq<char>> {
    match (private_key, api_key, api_secret, api_passphrase) {
        (None, _, _, _) => Err("no private key"@),
        (_, None, _, _) => Err("no api key"@),
        (_, _, None, _) => Err("no api secret"@),
        (_, _, _, None) => Err("no api passphrase"@),
        (Some(private_key), Some(api_key), Some(api_secret), Some(api_passphrase)) => Ok(
            CredentialsView { private_key, api_key, api_secret, api_passphrase },
        ),
    }
}

/// The plan for an order: paper, or sending with the credentials.
pub open spec fn planned(
    paper_mode: bool,
    paper: OrderResultView,
    credentials: Result<CredentialsView, Seq<char>>,
    order: VenueOrderView,
) -> Result<PlanView, Seq<char>> {
    if paper_mode {
        Ok(PlanView::Paper(paper))
    } else {
        match credentials {
            Ok(credentials) => Ok(PlanView::Send { order, credentials }),
            Err(e) => Err(e),
        }
    }
}

/// A market order that spends dollars.
pub open spec fn fok_buy_order(token_id: Seq<char>, spend: int) -> VenueOrderView {
    VenueOrderView {
        token_id,
        side: OrderSide::Buy,
        order_type: OrderType::FOK,
        amount: spend as i128,
        size: fixed_text(spend, 2),
        limit: None,
        price: None,
        post_only: false,
    }
}

/// An order that sells shares at once, at a cent or more.
pub open spec fn fok_sell_order(token_id: Seq<char>, shares: int) -> VenueOrderView {
    VenueOrderView {
        token_id,
        side: OrderSide::Sell,
        order_type: OrderType::FOK,
        amount: shares as i128,
        size: fixed_text(shares, 2),
        limit: Some(10_000i128),
        price: Some("0.01"@),
        post_only: false,
    }
}

/// An order that rests.
pub open spec fn gtc_order(
    token_id: Seq<char>,
    side: OrderSide,
    shares: int,
    price: int,
    post_only: bool,
) -> VenueOrderView {
    VenueOrderView {
        token_id,
        side,
        order_type: OrderType::GTC,
        amount: shares as i128,
        size: fixed_text(shares, 2),
        limit: Some(price as i128),
        price: Some(fixed_text(price, 4)),
        post_only,
    }
}

impl ExecutionEngine {
    /// The resting orders.
    pub open spec fn orders(self) -> Seq<(Seq<char>, OrderTrackingView)> {
        Seq::new(
            self.open_orders@.len(),
            |i: int| (self.open_orders@[i].0@, self.open_orders@[i].1@),
        )
    }

    /// The credentials, or the first that is missing.
    pub open spec fn credentials(self) -> Result<CredentialsView, Seq<char>> {
        credentials_of(
            opt_view(self.private_key),
            opt_view(self.api_key),
            opt_view(self.api_secret),
            opt_view(self.api_passphrase),
        )
    }

    /// The ticks are within range, and no order is there twice.
    pub open spec fn wf(self) -> bool {
        &&& self.tick_sizes.wf()
        &&& forall|i: int, j: int|
            0 <= i < j < self.orders().len() ==> self.orders()[i].0 != self.orders()[j].0
    }

    pub fn new(paper_mode: bool) -> (r: ExecutionEngine)
        ensures
            r.paper_mode == paper_mode,
            r.orders() == Seq::<(Seq<char>, OrderTrackingView)>::empty(),
            r.tick_sizes.tick_sizes@ == Map::<Seq<char>, i64>::empty(),
            r.private_key is None,
            r.api_key is None,
            r.api_secret is None,
            r.api_passphrase is None,
            r.wf(),
    {
        let r: ExecutionEngine = ExecutionEngine {
            tick_sizes: TickSizeRegistry::new(),
            open_orders: Vec::new(),
            paper_mode,
            private_key: None,
            api_key: None,
            api_secret: None,
            api_passphrase: None,
        };
        assert(r.orders() =~= Seq::empty());
        r
    }

    /// Stores the credentials.
    pub fn set_credentials(
        &mut self,
        private_key: String,
        api_key: String,
        api_secret: String,
        api_passphrase: String,
    )
        ensures
            *final(self) == (ExecutionEngine {
                private_key: Some(private_key),
                api_key: Some(api_key),
                api_secret: Some(api_secret),
                api_passphrase: Some(api_passphrase),
                ..*old(self)
            }),
    {
        self.private_key = Some(private_key);
        self.api_key = Some(api_key);
        self.api_secret = Some(api_secret);
        self.api_passphrase = Some(api_passphrase);
    }

    /// Whether credentials were stored.
    pub fn ensure_auth(&self) -> (r: Result<(), String>)
        ensures
            match r {
                Ok(_) => self.private_key is Some,
                Err(e) => self.private_key is None && e@ == "no credentials set"@,
            },
    {
        if self.private_key.is_some() {
            Ok(())
        } else {
            Err("no credentials set".to_owned())
        }
    }

    /// Takes over a token's tick.
    pub fn update_tick_size(&mut self, ts: &TickSize)
        requires
            old(self).wf(),
            amount_ok(ts.tick_size as int),
        ensures
            final(self).tick_sizes.tick_sizes@ == old(self).tick_sizes.tick_sizes@.insert(
                ts@.token_id,
                ts@.tick_size,
            ),
            final(self).open_orders == old(self).open_orders,
            final(self).paper_mode == old(self).paper_mode,
            final(self).credentials() == old(self).credentials(),
            final(self).wf(),
    {
        self.tick_sizes.update(ts);
        assert(self.orders() =~= old(self).orders());
    }

    fn get_credentials(&self) -> (r: Result<Credentials, String>)
        ensures
            self.credentials() == match r {
                Ok(c) => Ok(c@),
                Err(e) => Err(e@),
            },
    {
        match (&self.private_key, &self.api_key, &self.api_secret, &self.api_passphrase) {
            (None, _, _, _) => Err("no private key".to_owned()),
            (_, None, _, _) => Err("no api key".to_owned()),
            (_, _, None, _) => Err("no api secret".to_owned()),
            (_, _, _, None) => Err("no api passphrase".to_owned()),
            (Some(a), Some(b), Some(c), Some(d)) => Ok(
                Credentials {
                    private_key: a.clone(),
                    api_key: b.clone(),
                    api_secret: c.clone(),
                    api_passphrase: d.clone(),
                },
            ),
        }
    }

    fn plan(&self, paper: OrderResult, order: VenueOrder) -> (r: Result<Plan, String>)
        ensures
            plan_view(r) == planned(self.paper_mode, paper@, self.credentials(), order@),
    {
        if self.paper_mode {
            return Ok(Plan::Paper(paper));
        }
        match self.get_credentials() {
            Ok(credentials) => Ok(Plan::Send { order, credentials }),
            Err(e) => Err(e),
        }
    }

    /// Plans a purchase for some dollars that fills at once or not at all.
    pub fn taker_fok_buy(&self, token_id: &str, spend_usdc: i64, now_ms: i64, latency_us: u64) -> (r: Result<
        Plan,
        String,
    >)
        ensures
            plan_view(r) == planned(
                self.paper_mode,
                paper_result("paper-"@, now_ms as int, latency_us),
                self.credentials(),
                fok_buy_order(token_id@, spend_usdc as int),
            ),
    {
        let order: VenueOrder = VenueOrder {
            token_id: token_id.to_owned(),
            side: OrderSide::Buy,
            order_type: OrderType::FOK,
            amount: spend_usdc as i128,
            size: fixed_string(spend_usdc as i128, 2),
            limit: None,
            price: None,
            post_only: false,
        };
        self.plan(paper("paper-", now_ms, latency_us), order)
    }

    fn plan_gtc(
        &self,
        token_id: &str,
        side: OrderSide,
        shares: i64,
        price: i64,
        post_only: bool,
        paper_prefix: &str,
        now_ms: i64,
        latency_us: u64,
    ) -> (r: Result<Plan, String>)
        requires
            self.wf(),
            amount_ok(price as int),
        ensures
            plan_view(r) == match ticked_price(
                tick_of(self.tick_sizes.tick_sizes@, token_id@) as int,
                price as int,
            ) {
                None => Err("price quantizes to zero"@),
                Some(q) => planned(
                    self.paper_mode,
                    paper_result(paper_prefix@, now_ms as int, latency_us),
                    self.credentials(),
                    gtc_order(token_id@, side, shares as int, q, post_only),
                ),
            },
    {
        let q: i64 = match self.tick_sizes.quantize(token_id, price) {
            Some(q) => q,
            None => {
                return Err("price quantizes to zero".to_owned());
            },
        };
        let order: VenueOrder = VenueOrder {
            token_id: token_id.to_owned(),
            side,
            order_type: OrderType::GTC,
            amount: shares as i128,
            size: fixed_string(shares as i128, 2),
            limit: Some(q as i128),
            price: Some(fixed_string(q as i128, 4)),
            post_only,
        };
        self.plan(paper(paper_prefix, now_ms, latency_us), order)
    }

    /// Plans a bid that rests, at the price rounded down to the token's tick.
    pub fn maker_gtc_buy(
        &self,
        token_id: &str,
        shares: i64,
        price: i64,
        post_only: bool,
        now_ms: i64,
        latency_us: u64,
    ) -> (r: Result<Plan, String>)
        requires
            self.wf(),
            amount_ok(price as int),
        ensures
            plan_view(r) == match ticked_price(
                tick_of(self.tick_sizes.tick_sizes@, token_id@) as int,
                price as int,
            ) {
                None => Err("price quantizes to zero"@),
                Some(q) => planned(
                    self.paper_mode,
                    paper_result("paper-"@, now_ms as int, latency_us),
                    self.credentials(),
                    gtc_order(token_id@, OrderSide::Buy, shares as int, q, post_only),
                ),
            },
    {
        self.plan_gtc(
            token_id,
            OrderSide::Buy,
            shares,
            price,
            post_only,
            "paper-",
            now_ms,
            latency_us,
        )
    }

    /// Plans a sale that fills at once or not at all.
    pub fn taker_fok_sell(&self, token_id: &str, shares: i64, now_ms: i64, latency_us: u64) -> (r: Result<
        Plan,
        String,
    >)
        ensures
            plan_view(r) == planned(
                self.paper_mode,
                paper_result("paper-sell-"@, now_ms as int, latency_us),
                self.credentials(),
                fok_sell_order(token_id@, shares as int),
            ),
    {
        let order: VenueOrder = VenueOrder {
            token_id: token_id.to_owned(),
            side: OrderSide::Sell,
            order_type: OrderType::FOK,
            amount: shares as i128,
            size: fixed_string(shares as i128, 2),
            limit: Some(10_000),
            price: Some("0.01".to_owned()),
            post_only: false,
        };
        self.plan(paper("paper-sell-", now_ms, latency_us), order)
    }

    /// Plans an offer that rests, at the price rounded down to the token's tick.
    pub fn maker_gtc_sell(
        &self,
        token_id: &str,
        shares: i64,
        price: i64,
        post_only: bool,
        now_ms: i64,
        latency_us: u64,
    ) -> (r: Result<Plan, String>)
        requires
            self.wf(),
            amount_ok(price as int),
        ensures
            plan_view(r) == match ticked_price(
                tick_of(self.tick_sizes.tick_sizes@, token_id@) as int,
                price as int,
            ) {
                None => Err("price quantizes to zero"@),
                Some(q) => planned(
                    self.paper_mode,
                    paper_result("paper-sell-"@, now_ms as int, latency_us),
                    self.credentials(),
                    gtc_order(token_id@, OrderSide::Sell, shares as int, q, post_only),
                ),
            },
    {
        self.plan_gtc(
            token_id,
            OrderSide::Sell,
            shares,
            price,
            post_only,
            "paper-sell-",
            now_ms,
            latency_us,
        )
    }

    fn forget_order(&mut self, id: &str)
        requires
            old(self).wf(),
        ensures
            final(self).wf(),
            final(self).orders() == without_order(old(self).orders(), id@),
            final(self).tick_sizes == old(self).tick_sizes,
            final(self).paper_mode == old(self).paper_mode,
            final(self).private_key == old(self).private_key,
            final(self).api_key == old(self).api_key,
            final(self).api_secret == old(self).api_secret,
            final(self).api_passphrase == old(self).api_passphrase,
    {
        let ghost all = self.orders();
        let mut kept: Vec<(String, OrderTracking)> = Vec::new();
        let mut rest: Vec<(String, OrderTracking)> = Vec::new();
        core::mem::swap(&mut rest, &mut self.open_orders);
        let ghost full = rest@;
        // The orders are taken off from the back, and put back in their order.
        let mut back: Vec<(String, OrderTracking)> = Vec::new();
        while rest.len() > 0
            invariant
                rest@.len() + back@.len() == full.len(),
                forall|i: int| 0 <= i < rest@.len() ==> rest@[i] == full[i],
                forall|i: int|
                    0 <= i < back@.len() ==> #[trigger] back@[i] == full[full.len() - 1 - i],
            decreases rest@.len(),
        {
            if let Some(entry) = rest.pop() {
                back.push(entry);
            }
        }
        let ghost mut done: int = 0;
        assert(all.take(0) =~= Seq::empty());
        assert(views_of(kept@) =~= Seq::empty());
        while back.len() > 0
            invariant
                0 <= done <= full.len(),
                back@.len() == full.len() - done,
                all.len() == full.len(),
                forall|i: int| 0 <= i < all.len() ==> #[trigger] all[i] == (full[i].0@, full[i].1@),
                forall|i: int|
                    0 <= i < back@.len() ==> #[trigger] back@[i] == full[full.len() - 1 - i],
                views_of(kept@) == without_order(all.take(done), id@),
            decreases back@.len(),
        {
            if let Some(entry) = back.pop() {
                assert(entry == full[done]);
                let ghost before = kept@;
                let ghost view = (entry.0@, entry.1@);
                assert(all.take(done + 1).drop_last() =~= all.take(done));
                assert(all.take(done + 1).last() == view);
                if !same(entry.0.as_str(), id) {
                    kept.push(entry);
                    assert(views_of(kept@) =~= views_of(before).push(view));
                }
                proof {
                    done = done + 1;
                }
            }
        }
        assert(all.take(done) =~= all);
        self.open_orders = kept;
        assert(self.orders() =~= views_of(kept@));
        proof {
            lemma_without_order(all, id@);
        }
    }

    /// Takes the answer to a bid that was sent: it is tracked as it was sent,
    /// where the venue accepted it, and the time that it took is noted.
    pub fn settle_gtc_buy(
        &mut self,
        answer: Result<OrderResult, String>,
        order: &VenueOrder,
        posted_at_us: i64,
        latency_us: u64,
    ) -> (r: Result<OrderResult, String>)
        requires
            old(self).wf(),
        ensures
            result_view(r) == timed(result_view(answer), latency_us),
            final(self).orders() == match result_view(answer) {
                Ok(o) => if o.success {
                    without_order(old(self).orders(), o.order_id).push(
                        (o.order_id, resting_entry(order@, posted_at_us)),
                    )
                } else {
                    old(self).orders()
                },
                Err(_) => old(self).orders(),
            },
            final(self).tick_sizes == old(self).tick_sizes,
            final(self).paper_mode == old(self).paper_mode,
            final(self).credentials() == old(self).credentials(),
            final(self).wf(),
    {
        if let Ok(o) = &answer {
            if o.success {
                let id: String = o.order_id.clone();
                self.forget_order(id.as_str());
                let ghost before = self.orders();
                proof {
                    lemma_without_order(old(self).orders(), id@);
                }
                let order_mode: String = if order.post_only {
                    "GTC postOnly".to_owned()
                } else {
                    "GTC".to_owned()
                };
                let price: i128 = match order.limit {
                    Some(p) => p,
                    None => 0,
                };
                let entry: OrderTracking = OrderTracking {
                    token_id: order.token_id.clone(),
                    side: "BUY".to_owned(),
                    price,
                    size: order.amount,
                    order_mode,
                    posted_at_us,
                };
                let ghost pair = (id@, entry@);
                self.open_orders.push((id, entry));
                assert(self.orders() =~= before.push(pair));
            }
        }
        time_result(answer, latency_us)
    }

    /// Takes the venue's reply to the cancel of an order. The cancel succeeded where
    /// the order is among those cancelled; then it is forgotten, and else everything
    /// stays, and the error shows what the venue said of those not cancelled.
    pub fn settle_cancel(&mut self, order_id: &str, reply: Result<CancelReply, String>) -> (r: Result<
        (),
        String,
    >)
        requires
            old(self).wf(),
        ensures
            r is Ok <==> reply_lists(reply, order_id@),
            r is Ok ==> final(self).orders() == without_order(old(self).orders(), order_id@)
                && final(self).tick_sizes == old(self).tick_sizes && final(self).paper_mode
                == old(self).paper_mode && final(self).credentials() == old(self).credentials(),
            r is Err ==> *final(self) == *old(self),
            r matches Err(m) ==> m@ == (match reply {
                Ok(answered) => "not cancelled: "@ + answered.not_canceled@,
                Err(e) => e@,
            }),
            final(self).wf(),
    {
        match reply {
            Ok(answered) => if is_listed(&answered.canceled, order_id) {
                self.forget_order(order_id);
                Ok(())
            } else {
                Err(join("not cancelled: ", answered.not_canceled.as_str()))
            },
            Err(e) => Err(e),
        }
    }

    /// Plans the cancel of an order: in paper mode it is forgotten at once, else
    /// the credentials are given to cancel it with.
    pub fn cancel_order(&mut self, order_id: &str) -> (r: Result<Option<Credentials>, String>)
        requires
            old(self).wf(),
        ensures
            old(self).paper_mode ==> (match r {
                Ok(c) => c is None && final(self).orders() == without_order(
                    old(self).orders(),
                    order_id@,
                ),
                Err(_) => false,
            }),
            !old(self).paper_mode ==> *final(self) == *old(self) && (match r {
                Ok(Some(c)) => old(self).credentials() == Ok::<CredentialsView, Seq<char>>(c@),
                Ok(None) => false,
                Err(e) => old(self).credentials() == Err::<CredentialsView, Seq<char>>(e@),
            }),
            final(self).tick_sizes == old(self).tick_sizes,
            final(self).paper_mode == old(self).paper_mode,
            final(self).credentials() == old(self).credentials(),
            final(self).wf(),
    {
        if self.paper_mode {
            self.forget_order(order_id);
            return Ok(None);
        }
        match self.get_credentials() {
            Ok(c) => Ok(Some(c)),
            Err(e) => Err(e),
        }
    }

    /// Takes the venue's answer to the cancel of all orders: how many it
    /// cancelled. Then all are forgotten; after a failure everything stays.
    pub fn settle_cancel_all(&mut self, answer: Result<usize, String>) -> (r: Result<usize, String>)
        requires
            old(self).wf(),
        ensures
            r == answer,
            r is Ok ==> final(self).orders() == Seq::<(Seq<char>, OrderTrackingView)>::empty()
                && final(self).tick_sizes == old(self).tick_sizes && final(self).paper_mode
                == old(self).paper_mode && final(self).credentials() == old(self).credentials(),
            r is Err ==> *final(self) == *old(self),
            final(self).wf(),
    {
        if answer.is_ok() {
            self.open_orders = Vec::new();
            assert(self.orders() =~= Seq::empty());
        }
        answer
    }

    /// Plans the cancel of all orders: in paper mode they are forgotten at once
    /// and counted, else the credentials are given to cancel them with.
    pub fn cancel_all(&mut self) -> (r: Result<Cancel, String>)
        requires
            old(self).wf(),
        ensures
            old(self).paper_mode ==> (match r {
                Ok(Cancel::Done(n)) => n == old(self).orders().len() && final(self).orders().len()
                    == 0,
                _ => false,
            }),
            !old(self).paper_mode ==> *final(self) == *old(self) && (match r {
                Ok(Cancel::Send(c)) => old(self).credentials() == Ok::<CredentialsView, Seq<char>>(
                    c@,
                ),
                Ok(Cancel::Done(_)) => false,
                Err(e) => old(self).credentials() == Err::<CredentialsView, Seq<char>>(e@),
            }),
            final(self).tick_sizes == old(self).tick_sizes,
            final(self).paper_mode == old(self).paper_mode,
            final(self).credentials() == old(self).credentials(),
            final(self).wf(),
    {
        if self.paper_mode {
            let n: usize = self.open_orders.len();
            self.open_orders = Vec::new();
            return Ok(Cancel::Done(n));
        }
        match self.get_credentials() {
            Ok(c) => Ok(Cancel::Send(c)),
            Err(e) => Err(e),
        }
    }

    pub fn open_order_count(&self) -> (r: usize)
        ensures
            r == self.orders().len(),
    {
        self.open_orders.len()
    }

    pub fn get_open_orders(&self) -> (r: &Vec<(String, OrderTracking)>)
        ensures
            views_of(r@) == self.orders(),
    {
        assert(views_of(self.open_orders@) =~= self.orders());
        &self.open_orders
    }

    pub fn is_paper(&self) -> (r: bool)
        ensures
            r == self.paper_mode,
    {
        self.paper_mode
    }

    pub fn is_ready(&self) -> (r: bool)
        ensures
            r == (self.private_key is Some && self.api_key is Some),
    {
        self.private_key.is_some() && self.api_key.is_some()
    }
}

/// What to do about a cancel of all orders.
pub enum Cancel {
    /// So many orders were forgotten.
    Done(usize),
    Send(Credentials),
}

/// The views of a run of resting orders.
pub open spec fn views_of(orders: Seq<(String, OrderTracking)>) -> Seq<
    (Seq<char>, OrderTrackingView),
> {
    Seq::new(orders.len(), |i: int| (orders[i].0@, orders[i].1@))
}

/// The tracking of a bid, as it was sent.
pub open spec fn resting_entry(order: VenueOrderView, posted_at_us: i64) -> OrderTrackingView {
    OrderTrackingView {
        token_id: order.token_id,
        side: "BUY"@,
        price: match order.limit {
            Some(p) => p,
            None => 0,
        },
        size: order.amount,
        order_mode: if order.post_only {
            "GTC postOnly"@
        } else {
            "GTC"@
        },
        posted_at_us,
    }
}

/// Whether a reply to a cancel lists an order.
pub open spec fn reply_lists(reply: Result<CancelReply, String>, order_id: Seq<char>) -> bool {
    match reply {
        Ok(answered) => string_views(answered.canceled@).contains(order_id),
        Err(_) => false,
    }
}

fn is_listed(listed: &Vec<String>, order_id: &str) -> (r: bool)
    ensures
        r == string_views(listed@).contains(order_id@),
{
    let ghost all = string_views(listed@);
    let mut i: usize = 0;
    while i < listed.len()
        invariant
            i <= listed@.len(),
            all == string_views(listed@),
            forall|j: int| 0 <= j < i ==> #[trigger] all[j] != order_id@,
        decreases listed@.len() - i,
    {
        if same(listed[i].as_str(), order_id) {
            assert(all[i as int] == order_id@);
            return true;
        }
        assert(all[i as int] != order_id@);
        i = i + 1;
    }
    false
}

/// The view of an answer.
pub open spec fn result_view(r: Result<OrderResult, String>) -> Result<OrderResultView, Seq<char>> {
    match r {
        Ok(o) => Ok(o@),
        Err(e) => Err(e@),
    }
}

/// An answer with the time that it took.
pub open spec fn timed(r: Result<OrderResultView, Seq<char>>, latency_us: u64) -> Result<
    OrderResultView,
    Seq<char>,
> {
    match r {
        Ok(o) => Ok(OrderResultView { latency_us, ..o }),
        Err(e) => Err(e),
    }
}

/// Notes the time that an answer took.
pub fn time_result(r: Result<OrderResult, String>, latency_us: u64) -> (out: Result<
    OrderResult,
    String,
>)
    ensures
        result_view(out) == timed(result_view(r), latency_us),
{
    match r {
        Ok(o) => Ok(
            OrderResult {
                order_id: o.order_id,
                success: o.success,
                status: o.status,
                error: o.error,
                latency_us,
            },
        ),
        Err(e) => Err(e),
    }
}

/// The result that the venue's answer holds.
pub open spec fn answered(v: JsonView) -> OrderResultView {
    OrderResultView {
        order_id: text_or(v.field_text("orderID"@), ""@),
        success: v.field("success"@) == Some(JsonView::Bool(true)),
        status: text_or(v.field_text("status"@), ""@),
        error: v.field_text("errorMsg"@),
        latency_us: 0,
    }
}

/// Reads the venue's answer to an order.
pub fn read_answer(v: &Json) -> (r: OrderResult)
    ensures
        r@ == answered(v@),
{
    let success: bool = match v.get("success") {
        Some(b) => match b.as_bool() {
            Some(x) => x,
            None => false,
        },
        None => false,
    };
    let error: Option<String> = match v.get_str("errorMsg") {
        Some(e) => Some(e.to_owned()),
        None => None,
    };
    OrderResult {
        order_id: v.get_str_or("orderID", ""),
        success,
        status: v.get_str_or("status", ""),
        error,
        latency_us: 0,
    }
}

/// Reads the venue's answer to an order; one that is no JSON is an error.
pub fn parse_answer(body: &str) -> (r: Result<OrderResult, String>)
    ensures
        result_view(r) == match json_of(body@) {
            Ok(v) => Ok(answered(v)),
            Err(e) => Err("json: "@ + e),
        },
{
    match parse_json(body) {
        Ok(v) => Ok(read_answer(&v)),
        Err(e) => Err(join("json: ", e.as_str())),
    }
}

/// The identifier of an accepted order, or why it was rejected.
pub open spec fn acceptance(o: OrderResultView) -> Result<Seq<char>, Seq<char>> {
    if o.success {
        Ok(o.order_id)
    } else {
        Err("rejected: "@ + o.status + " "@ + debug_text(o.error))
    }
}

/// The identifier of an accepted order, or why it was rejected.
pub fn accept(o: OrderResult) -> (r: Result<String, String>)
    ensures
        acceptance(o@) == match r {
            Ok(id) => Ok(id@),
            Err(e) => Err(e@),
        },
{
    if o.success {
        Ok(o.order_id)
    } else {
        let why: String = debug_of(&o.error);
        let mut s: String = "rejected: ".to_owned();
        s.append(o.status.as_str());
        s.append(" ");
        s.append(why.as_str());
        Err(s)
    }
}

/// What a reply with an HTTP status amounts to: its answer where the status is a
/// success, else an error with the status and the body.
pub fn judge_reply(success: bool, status: &str, answer: OrderResult, body: &str) -> (r: Result<
    OrderResult,
    String,
>)
    ensures
        result_view(r) == if success {
            Ok(answer@)
        } else {
            Err("HTTP "@ + status@ + ": "@ + body@)
        },
{
    if success {
        Ok(answer)
    } else {
        let mut s: String = "HTTP ".to_owned();
        s.append(status);
        s.append(": ");
        s.append(body);
        Err(s)
    }
}

/// Reads a reply with its HTTP status. One that is no JSON is an error, whatever
/// the status.
pub fn read_reply(success: bool, status: &str, body: &str) -> (r: Result<OrderResult, String>)
    ensures
        result_view(r) == match json_of(body@) {
            Ok(v) => if success {
                Ok(answered(v))
            } else {
                Err("HTTP "@ + status@ + ": "@ + json_rewritten(body@)->0)
            },
            Err(e) => Err("json: "@ + e),
        },
{
    match parse_answer(body) {
        Ok(answer) => match rewrite_json(body) {
            Some(text) => judge_reply(success, status, answer, text.as_str()),
            None => Ok(answer),
        },
        Err(e) => Err(e),
    }
}

/// The headers of a signed request, in their order.
pub open spec fn order_headers(c: CredentialsView, signature: Seq<char>, timestamp: Seq<char>) -> Seq<
    (Seq<char>, Seq<char>),
> {
    seq![
        ("POLY_ADDRESS"@, c.private_key),
        ("POLY_SIGNATURE"@, signature),
        ("POLY_TIMESTAMP"@, timestamp),
        ("POLY_API_KEY"@, c.api_key),
        ("POLY_PASSPHRASE"@, c.api_passphrase),
        ("Content-Type"@, "application/json"@),
    ]
}

/// The views of a run of headers.
pub open spec fn header_views(h: Seq<(String, String)>) -> Seq<(Seq<char>, Seq<char>)> {
    Seq::new(h.len(), |i: int| (h[i].0@, h[i].1@))
}

/// Signs an order's request: the headers to send with its body.
pub fn sign_order(c: &Credentials, timestamp: &str, body: &str) -> (r: Result<
    Vec<(String, String)>,
    String,
>)
    ensures
        match signature_of(
            base64_decoded(c@.api_secret),
            signed_text(timestamp@, "POST"@, "/order"@, body@),
        ) {
            Ok(signature) => r matches Ok(h) && header_views(h@) == order_headers(
                c@,
                signature,
                timestamp@,
            ),
            Err(e) => r matches Err(m) && m@ == e,
        },
{
    match hmac_sign(c.api_secret.as_str(), timestamp, "POST", "/order", body) {
        Ok(signature) => {
            let ghost want = order_headers(c@, signature@, timestamp@);
            let mut h: Vec<(String, String)> = Vec::new();
            h.push(("POLY_ADDRESS".to_owned(), c.private_key.clone()));
            h.push(("POLY_SIGNATURE".to_owned(), signature));
            h.push(("POLY_TIMESTAMP".to_owned(), timestamp.to_owned()));
            h.push(("POLY_API_KEY".to_owned(), c.api_key.clone()));
            h.push(("POLY_PASSPHRASE".to_owned(), c.api_passphrase.clone()));
            h.push(("Content-Type".to_owned(), "application/json".to_owned()));
            assert(header_views(h@) =~= want);
            Ok(h)
        },
        Err(e) => Err(e),
    }
}

// ── Laws ────────────────────────────────────────────────────────

/// In paper mode nothing is ever sent.
pub proof fn paper_mode_sends_nothing(
    paper: OrderResultView,
    credentials: Result<CredentialsView, Seq<char>>,
    order: VenueOrderView,
)
    ensures
        planned(true, paper, credentials, order) == Ok::<PlanView, Seq<char>>(
            PlanView::Paper(paper),
        ),
{
}

/// Orders that fill at once are never post-only.
pub proof fn fok_is_never_post_only(token_id: Seq<char>, amount: int)
    ensures
        fok_buy_order(token_id, amount).order_type == OrderType::FOK && !fok_buy_order(
            token_id,
            amount,
        ).post_only,
        fok_sell_order(token_id, amount).order_type == OrderType::FOK && !fok_sell_order(
            token_id,
            amount,
        ).post_only,
{
}

/// What is tracked of a bid is what was posted: its price and size in the order
/// are the numerals of the tracked ones.
pub proof fn tracked_as_posted(
    token_id: Seq<char>,
    shares: i64,
    price: i64,
    post_only: bool,
    posted_at_us: i64,
)
    ensures
        ({
            let order = gtc_order(token_id, OrderSide::Buy, shares as int, price as int, post_only);
            let entry = resting_entry(order, posted_at_us);
            &&& entry.token_id == order.token_id
            &&& entry.price == price
            &&& order.price == Some(fixed_text(entry.price as int, 4))
            &&& entry.size == shares
            &&& order.size == fixed_text(entry.size as int, 2)
        }),
{
}

/// A price that an order rests at is positive, not above the price that was
/// asked for, and a multiple of the tick.
pub proof fn resting_prices_are_on_the_tick(tick: int, price: int)
    requires
        ticked_price(tick, price) is Some,
    ensures
        0 < ticked_price(tick, price)->0 <= price,
        ticked_price(tick, price)->0 % tick == 0,
{
    crate::strategy::quantizing_rounds_down(price, tick);
}

/// A cancelled order is no longer tracked, and every other still is.
pub proof fn cancelling_forgets_one_order(
    s: Seq<(Seq<char>, OrderTrackingView)>,
    id: Seq<char>,
    i: int,
)
    requires
        0 <= i < s.len(),
    ensures
        s[i].0 != id ==> without_order(s, id).contains(s[i]),
        forall|j: int| 0 <= j < without_order(s, id).len() ==> (#[trigger] without_order(s, id)[j]).0 != id,
    decreases s.len(),
{
    let front = without_order(s.drop_last(), id);
    if s.len() > 1 {
        cancelling_forgets_one_order(s.drop_last(), id, if i < s.len() - 1 { i } else { 0 });
    } else {
        assert(s.drop_last() =~= Seq::empty());
    }
    let all = without_order(s, id);
    if s[i].0 != id {
        if i == s.len() - 1 {
            assert(all[all.len() - 1] == s[i]);
        } else {
            assert(s.drop_last()[i] == s[i]);
            let k = choose|k: int| 0 <= k < front.len() && front[k] == s[i];
            assert(all[k] == s[i]);
        }
    }
}

/// A token without a known tick has a tick of a cent; with one, its own.
pub proof fn ticks_default_to_a_cent(m: Map<Seq<char>, i64>, token_id: Seq<char>, tick: i64)
    ensures
        !m.contains_key(token_id) ==> tick_of(m, token_id) == 10_000,
        tick_of(m.insert(token_id, tick), token_id) == tick,
        forall|other: Seq<char>|
            other != token_id ==> #[trigger] tick_of(m.insert(token_id, tick), other) == tick_of(
                m,
                other,
            ),
{
    assert forall|other: Seq<char>| other != token_id implies #[trigger] tick_of(
        m.insert(token_id, tick),
        other,
    ) == tick_of(m, other) by {}
}

/// A price is lowered by less than a tick, and every price of a tick or more has
/// one that it rests at.
pub proof fn resting_prices_are_near(tick: int, price: int)
    ensures
        tick > 0 && price >= tick ==> ticked_price(tick, price) is Some,
        tick <= 0 || price < tick ==> ticked_price(tick, price) is None,
        ticked_price(tick, price) matches Some(q) ==> q <= price < q + tick && q % tick == 0,
{
    if tick > 0 {
        crate::strategy::quantizing_rounds_down(price, tick);
        let q = price / tick;
        vstd::arithmetic::div_mod::lemma_fundamental_div_mod(price, tick);
        if price >= tick {
            assert(q >= 1) by (nonlinear_arith)
                requires
                    price == tick * q + price % tick,
                    0 <= price % tick < tick,
                    price >= tick,
                    tick > 0,
            ;
            assert(tick * q >= tick) by (nonlinear_arith)
                requires
                    q >= 1,
                    tick > 0,
            ;
        } else {
            assert(q <= 0) by (nonlinear_arith)
                requires
                    price == tick * q + price % tick,
                    0 <= price % tick < tick,
                    price < tick,
                    tick > 0,
            ;
            assert(tick * q <= 0) by (nonlinear_arith)
                requires
                    q <= 0,
                    tick > 0,
            ;
        }
        assert(tick * q == q * tick) by (nonlinear_arith);
    }
}

/// Outside paper mode an order goes out as it is with the credentials, or not at
/// all where one is missing.
pub proof fn live_orders_need_credentials(
    paper: OrderResultView,
    private_key: Option<Seq<char>>,
    api_key: Option<Seq<char>>,
    api_secret: Option<Seq<char>>,
    api_passphrase: Option<Seq<char>>,
    order: VenueOrderView,
)
    ensures
        ({
            let c = credentials_of(private_key, api_key, api_secret, api_passphrase);
            let p = planned(false, paper, c, order);
            &&& p is Ok <==> private_key is Some && api_key is Some && api_secret is Some
                && api_passphrase is Some
            &&& p is Ok ==> {
                &&& p->Ok_0 is Send
                &&& p->Ok_0->Send_order == order
                &&& Some(p->Ok_0->Send_credentials.private_key) == private_key
                &&& Some(p->Ok_0->Send_credentials.api_key) == api_key
                &&& Some(p->Ok_0->Send_credentials.api_secret) == api_secret
                &&& Some(p->Ok_0->Send_credentials.api_passphrase) == api_passphrase
            }
            &&& private_key is None ==> p == Err::<PlanView, Seq<char>>("no private key"@)
            &&& private_key is Some && api_key is None ==> p == Err::<PlanView, Seq<char>>(
                "no api key"@,
            )
            &&& private_key is Some && api_key is Some && api_secret is None ==> p == Err::<
                PlanView,
                Seq<char>,
            >("no api secret"@)
            &&& private_key is Some && api_key is Some && api_secret is Some
                && api_passphrase is None ==> p == Err::<PlanView, Seq<char>>("no api passphrase"@)
        }),
{
}

/// Orders are of the token, side and size that were asked for: a purchase spends
/// its dollars at what the book gives, a sale takes a cent or more, and what rests
/// does so at its own price.
pub proof fn orders_are_as_asked(
    token_id: Seq<char>,
    side: OrderSide,
    amount: i64,
    price: i64,
    post_only: bool,
)
    ensures
        ({
            let buy = fok_buy_order(token_id, amount as int);
            let sell = fok_sell_order(token_id, amount as int);
            let rest = gtc_order(token_id, side, amount as int, price as int, post_only);
            &&& buy.token_id == token_id && sell.token_id == token_id && rest.token_id == token_id
            &&& buy.side == OrderSide::Buy && sell.side == OrderSide::Sell && rest.side == side
            &&& buy.amount == amount && sell.amount == amount && rest.amount == amount
            &&& buy.size == fixed_text(amount as int, 2) && sell.size == buy.size && rest.size
                == buy.size
            &&& buy.limit is None && buy.price is None
            &&& sell.limit == Some(10_000i128) && sell.price == Some("0.01"@)
            &&& rest.limit == Some(price as i128) && rest.price == Some(fixed_text(price as int, 4))
            &&& buy.order_type == OrderType::FOK && sell.order_type == OrderType::FOK
            &&& rest.order_type == OrderType::GTC
            &&& !buy.post_only && !sell.post_only && rest.post_only == post_only
        }),
{
}

/// A bid is tracked on the buying side with its own token, price, size and mode.
pub proof fn tracked_bids_are_purchases(order: VenueOrderView, posted_at_us: i64)
    ensures
        ({
            let entry = resting_entry(order, posted_at_us);
            &&& entry.token_id == order.token_id
            &&& entry.side == "BUY"@
            &&& order.limit matches Some(p) ==> entry.price == p
            &&& entry.size == order.amount
            &&& order.post_only ==> entry.order_mode == "GTC postOnly"@
            &&& !order.post_only ==> entry.order_mode == "GTC"@
            &&& entry.posted_at_us == posted_at_us
        }),
{
}

/// An order is accepted by the venue's word alone, and under its own identifier.
pub proof fn successes_give_the_order(o: OrderResultView, latency_us: u64)
    ensures
        acceptance(o) is Ok <==> o.success,
        o.success ==> acceptance(o)->Ok_0 == o.order_id,
        timed(Ok(o), latency_us) is Ok,
        timed(Ok(o), latency_us)->Ok_0.latency_us == latency_us,
        timed(Ok(o), latency_us)->Ok_0.order_id == o.order_id,
        timed(Ok(o), latency_us)->Ok_0.success == o.success,
        timed(Ok(o), latency_us)->Ok_0.status == o.status,
        timed(Ok(o), latency_us)->Ok_0.error == o.error,
{
}

/// Paper orders succeed under an identifier of their time.
pub proof fn paper_orders_succeed(prefix: Seq<char>, now_ms: int, latency_us: u64)
    ensures
        paper_result(prefix, now_ms, latency_us).success,
        paper_result(prefix, now_ms, latency_us).order_id == prefix + int_text(now_ms),
        paper_result(prefix, now_ms, latency_us).status == "PAPER"@,
        paper_result(prefix, now_ms, latency_us).error is None,
        paper_result(prefix, now_ms, latency_us).latency_us == latency_us,
{
}

/// A request is signed by its time, then its method, its path and its body; a body
/// without single quotation marks as it stands.
pub proof fn requests_are_signed_in_order(
    timestamp: Seq<char>,
    method: Seq<char>,
    path: Seq<char>,
    body: Seq<char>,
)
    ensures
        ({
            let s = signed_text(timestamp, method, path, body);
            let (t, m, p) = (timestamp.len(), method.len(), path.len());
            &&& s.len() == t + m + p + body.len()
            &&& s.take(t as int) == timestamp
            &&& s.subrange(t as int, (t + m) as int) == method
            &&& s.subrange((t + m) as int, (t + m + p) as int) == path
            &&& forall|i: int|
                0 <= i < body.len() ==> #[trigger] s[t + m + p + i] == if body[i] == '\'' {
                    '"'
                } else {
                    body[i]
                }
        }),
{
    let s = signed_text(timestamp, method, path, body);
    let (t, m, p) = (timestamp.len(), method.len(), path.len());
    assert(s.take(t as int) =~= timestamp);
    assert(s.subrange(t as int, (t + m) as int) =~= method);
    assert(s.subrange((t + m) as int, (t + m + p) as int) =~= path);
}

/// A cancel succeeds where the reply names the order, and not after a failure.
pub proof fn cancels_are_told_by_name(reply: Result<CancelReply, String>, order_id: Seq<char>, i: int)
    ensures
        reply is Err ==> !reply_lists(reply, order_id),
        reply matches Ok(a) ==> (0 <= i < a.canceled@.len() && a.canceled@[i]@ == order_id
            ==> reply_lists(reply, order_id)),
        reply matches Ok(a) ==> (a.canceled@.len() == 0 ==> !reply_lists(reply, order_id)),
{
    if let Ok(a) = reply {
        let all = string_views(a.canceled@);
        assert(all.len() == a.canceled@.len());
        if 0 <= i < a.canceled@.len() && a.canceled@[i]@ == order_id {
            assert(all[i] == order_id);
        }
    }
}

} // verus!
