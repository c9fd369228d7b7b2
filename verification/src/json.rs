//! JSON values as the feeds deliver them.

use vstd::prelude::*;
use vstd::string::StringExecFns;

use crate::fixed::{amount_of, opt_amount_ok, parse_amount};
use crate::text::same;

verus! {

/// A JSON value. A number holds its text, and its value where it is an integer
/// of 64 bits.
pub enum Json {
    Null,
    Bool(bool),
    Number { signed: Option<i64>, unsigned: Option<u64>, text: String },
    Text(String),
    Array(Vec<Json>),
    Object(Vec<(String, Json)>),
}

/// What a JSON value holds.
pub ghost enum JsonView {
    Null,
    Bool(bool),
    Number { signed: Option<i64>, unsigned: Option<u64>, text: Seq<char> },
    Text(Seq<char>),
    Array(Seq<JsonView>),
    Object(Seq<(Seq<char>, JsonView)>),
}

impl View for Json {
    type V = JsonView;

    open spec fn view(&self) -> JsonView
        decreases self,
    {
        match self {
            Json::Null => JsonView::Null,
            Json::Bool(b) => JsonView::Bool(*b),
            Json::Number { signed, unsigned, text } => JsonView::Number {
                signed: *signed,
                unsigned: *unsigned,
                text: text@,
            },
            Json::Text(s) => JsonView::Text(s@),
            Json::Array(v) => JsonView::Array(
                Seq::new(
                    v@.len(),
                    |i: int|
                        if 0 <= i < v@.len() {
                            v@[i].view()
                        } else {
                            arbitrary()
                        },
                ),
            ),
            Json::Object(v) => JsonView::Object(
                Seq::new(
                    v@.len(),
                    |i: int|
                        if 0 <= i < v@.len() {
                            (v@[i].0@, v@[i].1.view())
                        } else {
                            arbitrary()
                        },
                ),
            ),
        }
    }
}

/// The value that a key has in a list of members: that of the first member with
/// this key.
pub open spec fn member(members: Seq<(Seq<char>, JsonView)>, key: Seq<char>) -> Option<JsonView>
    decreases members.len(),
{
    if members.len() == 0 {
        None
    } else if members[0].0 == key {
        Some(members[0].1)
    } else {
        member(members.skip(1), key)
    }
}

/// The numeral that a text is, read as an amount.
pub open spec fn read_amount(text: Option<Seq<char>>) -> Option<i64> {
    match text {
        Some(t) => amount_of(t),
        None => None,
    }
}

/// A text, or another in its place.
pub open spec fn text_or(text: Option<Seq<char>>, fallback: Seq<char>) -> Seq<char> {
    match text {
        Some(t) => t,
        None => fallback,
    }
}

impl JsonView {
    /// The value of a member of an object.
    pub open spec fn field(self, key: Seq<char>) -> Option<JsonView> {
        match self {
            JsonView::Object(members) => member(members, key),
            _ => None,
        }
    }

    /// The text of a string.
    pub open spec fn text(self) -> Option<Seq<char>> {
        match self {
            JsonView::Text(t) => Some(t),
            _ => None,
        }
    }

    /// The items of an array.
    pub open spec fn items(self) -> Option<Seq<JsonView>> {
        match self {
            JsonView::Array(items) => Some(items),
            _ => None,
        }
    }

    /// The amount that a number stands for.
    pub open spec fn amount(self) -> Option<i64> {
        match self {
            JsonView::Number { text, .. } => amount_of(text),
            _ => None,
        }
    }

    /// The value of a number that is a signed integer of 64 bits.
    pub open spec fn signed(self) -> Option<i64> {
        match self {
            JsonView::Number { signed, .. } => signed,
            _ => None,
        }
    }

    /// The value of a number that is an unsigned integer of 64 bits.
    pub open spec fn unsigned(self) -> Option<u64> {
        match self {
            JsonView::Number { unsigned, .. } => unsigned,
            _ => None,
        }
    }

    /// The text of a member.
    pub open spec fn field_text(self, key: Seq<char>) -> Option<Seq<char>> {
        match self.field(key) {
            Some(v) => v.text(),
            None => None,
        }
    }

    /// The amount that a member with a numeral in a string stands for.
    pub open spec fn field_amount(self, key: Seq<char>) -> Option<i64> {
        read_amount(self.field_text(key))
    }

    /// The amount that a member with a number stands for.
    pub open spec fn field_number(self, key: Seq<char>) -> Option<i64> {
        match self.field(key) {
            Some(v) => v.amount(),
            None => None,
        }
    }

    /// The signed integer of a member.
    pub open spec fn field_signed(self, key: Seq<char>) -> Option<i64> {
        match self.field(key) {
            Some(v) => v.signed(),
            None => None,
        }
    }

    /// The unsigned integer of a member.
    pub open spec fn field_unsigned(self, key: Seq<char>) -> Option<u64> {
        match self.field(key) {
            Some(v) => v.unsigned(),
            None => None,
        }
    }

    /// The items of a member that is an array.
    pub open spec fn field_items(self, key: Seq<char>) -> Option<Seq<JsonView>> {
        match self.field(key) {
            Some(v) => v.items(),
            None => None,
        }
    }
}

/// The views of a run of values.
pub open spec fn views(items: Seq<Json>) -> Seq<JsonView> {
    Seq::new(items.len(), |i: int| items[i]@)
}

proof fn lemma_member(members: Seq<(Seq<char>, JsonView)>, key: Seq<char>, k: int)
    requires
        0 <= k <= members.len(),
        forall|j: int| 0 <= j < k ==> (#[trigger] members[j]).0 != key,
        k < members.len() ==> members[k].0 == key,
    ensures
        member(members, key) == if k < members.len() {
            Some(members[k].1)
        } else {
            None
        },
    decreases members.len(),
{
    if members.len() > 0 && k > 0 {
        assert(members[0].0 != key);
        assert forall|j: int| 0 <= j < k - 1 implies (#[trigger] members.skip(1)[j]).0 != key by {
            assert(members.skip(1)[j] == members[j + 1]);
        }
        lemma_member(members.skip(1), key, k - 1);
    }
}

impl Json {
    /// The items of an array.
    pub fn as_array(&self) -> (r: Option<&Vec<Json>>)
        ensures
            self@.items() == match r {
                Some(v) => Some(views(v@)),
                None => None,
            },
            r is Some ==> decreases_to!(*self => *r->0),
    {
        proof {
            reveal_with_fuel(<Json as View>::view, 2);
        }
        match self {
            Json::Array(v) => {
                assert(self@.items()->0 =~= views(v@));
                Some(v)
            },
            _ => None,
        }
    }

    /// The value of a member of an object.
    pub fn get(&self, key: &str) -> (r: Option<&Json>)
        ensures
            self@.field(key@) == match r {
                Some(v) => Some(v@),
                None => None,
            },
    {
        proof {
            reveal_with_fuel(<Json as View>::view, 2);
        }
        match self {
            Json::Object(members) => {
                let ghost all = self@->Object_0;
                let mut i: usize = 0;
                while i < members.len()
                    invariant
                        i <= members@.len(),
                        self@ == JsonView::Object(all),
                        all.len() == members@.len(),
                        forall|j: int|
                            0 <= j < all.len() ==> (#[trigger] all[j]) == (
                                members@[j].0@,
                                members@[j].1@,
                            ),
                        forall|j: int| 0 <= j < i ==> (#[trigger] all[j]).0 != key@,
                    decreases members@.len() - i,
                {
                    if same(members[i].0.as_str(), key) {
                        proof {
                            assert(all[i as int].0 == key@);
                            lemma_member(all, key@, i as int);
                        }
                        return Some(&members[i].1);
                    }
                    assert(all[i as int].0 != key@);
                    i = i + 1;
                }
                proof {
                    lemma_member(all, key@, i as int);
                }
                None
            },
            _ => None,
        }
    }

    /// The text of a string.
    pub fn as_str(&self) -> (r: Option<&str>)
        ensures
            self@.text() == match r {
                Some(t) => Some(t@),
                None => None,
            },
    {
        match self {
            Json::Text(t) => Some(t.as_str()),
            _ => None,
        }
    }

    /// The amount that a number stands for.
    pub fn as_amount(&self) -> (r: Option<i64>)
        ensures
            r == self@.amount(),
            opt_amount_ok(r),
    {
        match self {
            Json::Number { text, .. } => parse_amount(text.as_str()),
            _ => None,
        }
    }

    /// The value of a truth value.
    pub fn as_bool(&self) -> (r: Option<bool>)
        ensures
            r == match self@ {
                JsonView::Bool(b) => Some(b),
                _ => None,
            },
    {
        match self {
            Json::Bool(b) => Some(*b),
            _ => None,
        }
    }

    /// The value of a number that is a signed integer of 64 bits.
    pub fn as_i64(&self) -> (r: Option<i64>)
        ensures
            r == self@.signed(),
    {
        match self {
            Json::Number { signed, .. } => *signed,
            _ => None,
        }
    }

    /// The value of a number that is an unsigned integer of 64 bits.
    pub fn as_u64(&self) -> (r: Option<u64>)
        ensures
            r == self@.unsigned(),
    {
        match self {
            Json::Number { unsigned, .. } => *unsigned,
            _ => None,
        }
    }

    /// The text of a member.
    pub fn get_str(&self, key: &str) -> (r: Option<&str>)
        ensures
            self@.field_text(key@) == match r {
                Some(t) => Some(t@),
                None => None,
            },
    {
        match self.get(key) {
            Some(v) => v.as_str(),
            None => None,
        }
    }

    /// The text of a member, or a fallback.
    pub fn get_str_or(&self, key: &str, fallback: &str) -> (r: String)
        ensures
            r@ == text_or(self@.field_text(key@), fallback@),
    {
        match self.get_str(key) {
            Some(t) => t.to_owned(),
            None => fallback.to_owned(),
        }
    }

    /// The amount that a member with a numeral in a string stands for.
    pub fn get_amount(&self, key: &str) -> (r: Option<i64>)
        ensures
            r == self@.field_amount(key@),
            opt_amount_ok(r),
    {
        match self.get_str(key) {
            Some(t) => parse_amount(t),
            None => None,
        }
    }

    /// The amount that a member with a number stands for.
    pub fn get_number(&self, key: &str) -> (r: Option<i64>)
        ensures
            r == self@.field_number(key@),
            opt_amount_ok(r),
    {
        match self.get(key) {
            Some(v) => v.as_amount(),
            None => None,
        }
    }

    /// The signed integer of a member.
    pub fn get_i64(&self, key: &str) -> (r: Option<i64>)
        ensures
            r == self@.field_signed(key@),
    {
        match self.get(key) {
            Some(v) => v.as_i64(),
            None => None,
        }
    }

    /// The unsigned integer of a member.
    pub fn get_u64(&self, key: &str) -> (r: Option<u64>)
        ensures
            r == self@.field_unsigned(key@),
    {
        match self.get(key) {
            Some(v) => v.as_u64(),
            None => None,
        }
    }

    /// The items of a member that is an array.
    pub fn get_array(&self, key: &str) -> (r: Option<&Vec<Json>>)
        ensures
            self@.field_items(key@) == match r {
                Some(v) => Some(views(v@)),
                None => None,
            },
    {
        match self.get(key) {
            Some(v) => v.as_array(),
            None => None,
        }
    }
}

/// `serde_json`'s own value, which only passes through `plain`.
#[verifier::external_type_specification]
#[verifier::external_body]
pub struct ExJsonValue(serde_json::Value);

/// What `serde_json` reads in a text: a value, or the message of its error.
pub uninterp spec fn json_of(text: Seq<char>) -> Result<JsonView, Seq<char>>;

/// `serde_json::from_str`, into its `Value`: reads a text as JSON. The contract
/// names the outcome, the value or the error's message, and claims that it
/// depends on the text alone.
#[verifier::external_body]
pub(crate) fn parse_json(text: &str) -> (r: Result<Json, String>)
    ensures
        json_of(text@) == match r {
            Ok(v) => Ok(v@),
            Err(e) => Err(e@),
        },
{
    match serde_json::from_str::<serde_json::Value>(text) {
        Ok(value) => Ok(plain(value)),
        Err(e) => Err(e.to_string()),
    }
}

/// Moves a `serde_json::Value` into a value of this library, one variant each:
/// `Number::as_i64`, `Number::as_u64` and the number's own text for a number,
/// the members in the order of the map for an object.
#[verifier::external_body]
fn plain(value: serde_json::Value) -> Json {
    match value {
        serde_json::Value::Null => Json::Null,
        serde_json::Value::Bool(b) => Json::Bool(b),
        serde_json::Value::Number(n) => Json::Number {
            signed: n.as_i64(),
            unsigned: n.as_u64(),
            text: n.to_string(),
        },
        serde_json::Value::String(s) => Json::Text(s),
        serde_json::Value::Array(v) => Json::Array(v.into_iter().map(plain).collect()),
        serde_json::Value::Object(m) => Json::Object(
            m.into_iter().map(|kv| (kv.0, plain(kv.1))).collect(),
        ),
    }
}

/// What `serde_json` writes for the value that it reads in a text; nothing where
/// it reads none.
pub uninterp spec fn json_rewritten(text: Seq<char>) -> Option<Seq<char>>;

/// The `Display` of a `serde_json::Value`, of the one that a text holds: the value
/// in compact form. The contract names the outcome, claims that it depends on the
/// text alone, and that there is one exactly where the text is JSON.
#[verifier::external_body]
pub(crate) fn rewrite_json(text: &str) -> (r: Option<String>)
    ensures
        json_rewritten(text@) == match r {
            Some(t) => Some(t@),
            None => None,
        },
        r is Some == json_of(text@) is Ok,
{
    serde_json::from_str::<serde_json::Value>(text).ok().map(|v| v.to_string())
}

/// A text as `serde_json` writes it: in quotation marks, with escapes.
pub uninterp spec fn json_quoted(text: Seq<char>) -> Seq<char>;

/// `serde_json::to_string` of a string: the text in quotation marks, with
/// escapes. The contract names the outcome, and claims that it depends on the
/// text alone.
#[verifier::external_body]
pub(crate) fn quote(text: &str) -> (r: String)
    ensures
        r@ == json_quoted(text@),
{
    serde_json::to_string(text).unwrap_or_default()
}

// ── Lists of texts ──────────────────────────────────────────────

/// The views of a run of strings.
pub open spec fn string_views(strings: Seq<String>) -> Seq<Seq<char>> {
    Seq::new(strings.len(), |i: int| strings[i]@)
}

/// The texts of a list, where every item is a text.
pub open spec fn texts_of(v: JsonView) -> Option<Seq<Seq<char>>> {
    match v.items() {
        Some(items) => if forall|i: int| 0 <= i < items.len() ==> (#[trigger] items[i]).text() is Some {
            Some(Seq::new(items.len(), |i: int| items[i].text()->0))
        } else {
            None
        },
        None => None,
    }
}

/// The texts of a list that a text holds in JSON.
pub open spec fn string_list(text: Seq<char>) -> Option<Seq<Seq<char>>> {
    match json_of(text) {
        Ok(v) => texts_of(v),
        Err(_) => None,
    }
}

/// The texts of a list.
pub fn read_texts(v: &Json) -> (r: Option<Vec<String>>)
    ensures
        texts_of(v@) == match r {
            Some(list) => Some(string_views(list@)),
            None => None,
        },
{
    match v.as_array() {
        Some(items) => {
            let ghost all = views(items@);
            let mut out: Vec<String> = Vec::new();
            let mut i: usize = 0;
            while i < items.len()
                invariant
                    i <= items@.len(),
                    all == views(items@),
                    v@.items() == Some(all),
                    out@.len() == i,
                    forall|j: int| 0 <= j < i ==> (#[trigger] all[j]).text() == Some(out@[j]@),
                decreases items@.len() - i,
            {
                match items[i].as_str() {
                    Some(t) => {
                        out.push(t.to_owned());
                    },
                    None => {
                        assert(all[i as int].text() is None);
                        return None;
                    },
                }
                i = i + 1;
            }
            assert(string_views(out@) =~= Seq::new(all.len(), |j: int| all[j].text()->0));
            Some(out)
        },
        None => None,
    }
}

/// Reads a list of texts.
pub fn parse_strings(text: &str) -> (r: Option<Vec<String>>)
    ensures
        string_list(text@) == match r {
            Some(list) => Some(string_views(list@)),
            None => None,
        },
{
    match parse_json(text) {
        Ok(v) => read_texts(&v),
        Err(_) => None,
    }
}

/// The texts of a list, each quoted, with commas between them.
pub open spec fn quoted_list(texts: Seq<Seq<char>>) -> Seq<char>
    decreases texts.len(),
{
    if texts.len() == 0 {
        Seq::empty()
    } else if texts.len() == 1 {
        json_quoted(texts[0])
    } else {
        quoted_list(texts.drop_last()) + ","@ + json_quoted(texts.last())
    }
}

/// Writes the texts of a list, each quoted, with commas between them.
pub fn quote_all(texts: &Vec<String>) -> (r: String)
    ensures
        r@ == quoted_list(string_views(texts@)),
{
    let ghost all = string_views(texts@);
    let mut out: String = String::new();
    let mut i: usize = 0;
    assert(all.take(0) =~= Seq::empty());
    assert(out@ =~= Seq::<char>::empty());
    while i < texts.len()
        invariant
            i <= texts@.len(),
            all == string_views(texts@),
            out@ == quoted_list(all.take(i as int)),
        decreases texts@.len() - i,
    {
        let q: String = quote(texts[i].as_str());
        let ghost before = out@;
        if i > 0 {
            out.append(",");
        }
        out.append(q.as_str());
        i = i + 1;
        assert(all.take(i as int).drop_last() =~= all.take(i as int - 1));
        assert(all.take(i as int).last() == all[i as int - 1]);
        assert(i == 1 ==> out@ =~= json_quoted(all[0]));
    }
    assert(all.take(i as int) =~= all);
    out
}

/// The texts of a list are those of its items, one for one; one item that is no
/// text leaves none.
pub proof fn lists_of_texts_are_complete(v: JsonView, i: int)
    requires
        v.items() is Some,
        0 <= i < v.items()->0.len(),
    ensures
        v.items()->0[i].text() is None ==> texts_of(v) is None,
        texts_of(v) matches Some(t) ==> t.len() == v.items()->0.len() && Some(t[i])
            == v.items()->0[i].text(),
{
}

} // verus!
