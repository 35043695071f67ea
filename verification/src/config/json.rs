//! JSON values.

use crate::text::same;
use vstd::prelude::*;

verus! {

/// A number: its value as an unsigned integer, when it is one, and the bits of
/// its value in double precision.
#[derive(Clone, Copy, PartialEq, Eq, Structural, Debug)]
pub struct JsonNumber {
    pub unsigned: Option<u64>,
    pub double: Option<u64>,
}

/// A JSON value.
pub enum Json {
    Null,
    Bool(bool),
    Number(JsonNumber),
    Text(String),
    Array(Vec<Json>),
    Object(Vec<JsonMember>),
}

/// A member of an object.
pub struct JsonMember {
    pub key: String,
    pub value: Json,
}

/// What a JSON value says.
pub enum JsonView {
    Null,
    Bool(bool),
    Number(JsonNumber),
    Text(Seq<char>),
    Array(Seq<JsonView>),
    Object(Seq<(Seq<char>, JsonView)>),
}

impl JsonView {
    /// The value of the first of the first `n` members with this key.
    pub open spec fn member(ms: Seq<(Seq<char>, JsonView)>, key: Seq<char>, n: nat) -> Option<
        JsonView,
    >
        decreases n,
    {
        if n == 0 {
            None
        } else {
            let earlier = Self::member(ms, key, (n - 1) as nat);
            if earlier is Some {
                earlier
            } else if ms[n - 1].0 == key {
                Some(ms[n - 1].1)
            } else {
                None
            }
        }
    }

    /// The member with this key; values that are no objects have none.
    pub open spec fn get(self, key: Seq<char>) -> Option<JsonView> {
        match self {
            JsonView::Object(ms) => Self::member(ms, key, ms.len()),
            _ => None,
        }
    }

    pub open spec fn as_text(self) -> Option<Seq<char>> {
        match self {
            JsonView::Text(s) => Some(s),
            _ => None,
        }
    }

    pub open spec fn as_unsigned(self) -> Option<u64> {
        match self {
            JsonView::Number(n) => n.unsigned,
            _ => None,
        }
    }

    pub open spec fn as_double(self) -> Option<u64> {
        match self {
            JsonView::Number(n) => n.double,
            _ => None,
        }
    }

    pub open spec fn as_flag(self) -> Option<bool> {
        match self {
            JsonView::Bool(b) => Some(b),
            _ => None,
        }
    }

    /// The text of a member.
    pub open spec fn text_at(self, key: Seq<char>) -> Option<Seq<char>> {
        match self.get(key) {
            Some(v) => v.as_text(),
            None => None,
        }
    }

    /// The unsigned integer of a member.
    pub open spec fn unsigned_at(self, key: Seq<char>) -> Option<u64> {
        match self.get(key) {
            Some(v) => v.as_unsigned(),
            None => None,
        }
    }

    /// The bits of the number of a member.
    pub open spec fn double_at(self, key: Seq<char>) -> Option<u64> {
        match self.get(key) {
            Some(v) => v.as_double(),
            None => None,
        }
    }

    pub open spec fn flag_at(self, key: Seq<char>) -> Option<bool> {
        match self.get(key) {
            Some(v) => v.as_flag(),
            None => None,
        }
    }
}

impl Json {
    pub open spec fn view(&self) -> JsonView
        decreases self,
    {
        match self {
            Json::Null => JsonView::Null,
            Json::Bool(b) => JsonView::Bool(*b),
            Json::Number(n) => JsonView::Number(*n),
            Json::Text(s) => JsonView::Text(s@),
            Json::Array(a) => JsonView::Array(
                Seq::new(
                    a@.len(),
                    |i: int|
                        if 0 <= i < a@.len() {
                            a@[i].view()
                        } else {
                            JsonView::Null
                        },
                ),
            ),
            Json::Object(o) => JsonView::Object(
                Seq::new(
                    o@.len(),
                    |i: int|
                        if 0 <= i < o@.len() {
                            (o@[i].key@, o@[i].value.view())
                        } else {
                            (Seq::empty(), JsonView::Null)
                        },
                ),
            ),
        }
    }

    proof fn lemma_member_stays(ms: Seq<(Seq<char>, JsonView)>, key: Seq<char>, a: nat, b: nat)
        requires
            a <= b,
            JsonView::member(ms, key, a) is Some,
        ensures
            JsonView::member(ms, key, b) == JsonView::member(ms, key, a),
        decreases b,
    {
        if a < b {
            Self::lemma_member_stays(ms, key, a, (b - 1) as nat);
        }
    }

    /// The member of an object.
    pub fn get(&self, key: &str) -> (r: Option<&Json>)
        ensures
            match r {
                Some(v) => self@.get(key@) == Some(v@),
                None => self@.get(key@) is None,
            },
    {
        match self {
            Json::Object(o) => {
                let ghost ms = self@->Object_0;
                let mut i: usize = 0;
                while i < o.len()
                    invariant
                        i <= o@.len(),
                        self@ == JsonView::Object(ms),
                        ms.len() == o@.len(),
                        forall|j: int|
                            0 <= j < o@.len() ==> #[trigger] ms[j] == (
                                o@[j].key@,
                                o@[j].value.view(),
                            ),
                        JsonView::member(ms, key@, i as nat) is None,
                    decreases o@.len() - i,
                {
                    if same(o[i].key.as_str(), key) {
                        proof {
                            assert(ms[i as int] == (o@[i as int].key@, o@[i as int].value.view()));
                            Self::lemma_member_stays(ms, key@, (i + 1) as nat, ms.len());
                        }
                        return Some(&o[i].value);
                    }
                    proof {
                        assert(ms[i as int] == (o@[i as int].key@, o@[i as int].value.view()));
                    }
                    i = i + 1;
                }
                None
            },
            _ => None,
        }
    }

    pub fn as_str(&self) -> (r: Option<&str>)
        ensures
            match r {
                Some(s) => self@.as_text() == Some(s@),
                None => self@.as_text() is None,
            },
    {
        match self {
            Json::Text(s) => Some(s.as_str()),
            _ => None,
        }
    }

    pub fn as_u64(&self) -> (r: Option<u64>)
        ensures
            r == self@.as_unsigned(),
    {
        match self {
            Json::Number(n) => n.unsigned,
            _ => None,
        }
    }

    /// The bits of a number in double precision.
    pub fn as_double_bits(&self) -> (r: Option<u64>)
        ensures
            r == self@.as_double(),
    {
        match self {
            Json::Number(n) => n.double,
            _ => None,
        }
    }

    pub fn as_bool(&self) -> (r: Option<bool>)
        ensures
            r == self@.as_flag(),
    {
        match self {
            Json::Bool(b) => Some(*b),
            _ => None,
        }
    }

    pub fn text_at(&self, key: &str) -> (r: Option<&str>)
        ensures
            match r {
                Some(s) => self@.text_at(key@) == Some(s@),
                None => self@.text_at(key@) is None,
            },
    {
        match self.get(key) {
            Some(v) => v.as_str(),
            None => None,
        }
    }

    pub fn unsigned_at(&self, key: &str) -> (r: Option<u64>)
        ensures
            r == self@.unsigned_at(key@),
    {
        match self.get(key) {
            Some(v) => v.as_u64(),
            None => None,
        }
    }

    pub fn double_at(&self, key: &str) -> (r: Option<u64>)
        ensures
            r == self@.double_at(key@),
    {
        match self.get(key) {
            Some(v) => v.as_double_bits(),
            None => None,
        }
    }

    pub fn flag_at(&self, key: &str) -> (r: Option<bool>)
        ensures
            r == self@.flag_at(key@),
    {
        match self.get(key) {
            Some(v) => v.as_bool(),
            None => None,
        }
    }
}

/// `serde_json::Value`.
#[verifier::external_type_specification]
#[verifier::external_body]
pub struct ExValue(serde_json::Value);

/// `serde_json::Error`.
#[verifier::external_type_specification]
#[verifier::external_body]
pub struct ExError(serde_json::Error);

/// What a `serde_json::Value` holds.
pub uninterp spec fn value_view(v: serde_json::Value) -> JsonView;

/// What a text says as JSON; `None` when it is not JSON.
pub uninterp spec fn json_of(text: Seq<char>) -> Option<JsonView>;

/// `serde_json::from_str`, into a `Value`. The outcome depends on the text
/// alone: `json_of` names what the value holds, or that there is none.
#[verifier::external_body]
fn read_value(text: &str) -> (r: Result<serde_json::Value, serde_json::Error>)
    ensures
        match r {
            Ok(v) => json_of(text@) == Some(value_view(v)),
            Err(_) => json_of(text@) is None,
        },
{
    serde_json::from_str(text)
}

/// Takes a `serde_json::Value` apart, one variant each: texts and truth values
/// as they are, numbers by `Number::as_u64` and `Number::as_f64`, the items of
/// arrays and the members of objects in the order in which they are held.
#[verifier::external_body]
fn take_apart(v: &serde_json::Value) -> (r: Json)
    ensures
        r@ == value_view(*v),
{
    match v {
        serde_json::Value::Null => Json::Null,
        serde_json::Value::Bool(b) => Json::Bool(*b),
        serde_json::Value::Number(n) => Json::Number(
            JsonNumber { unsigned: n.as_u64(), double: n.as_f64().map(|x| x.to_bits()) },
        ),
        serde_json::Value::String(s) => Json::Text(s.clone()),
        serde_json::Value::Array(a) => Json::Array(a.iter().map(take_apart).collect()),
        serde_json::Value::Object(o) => Json::Object(
            o.iter().map(|(k, x)| JsonMember { key: k.clone(), value: take_apart(x) }).collect(),
        ),
    }
}

/// Reads a text as JSON.
pub fn parse_json(text: &str) -> (r: Option<Json>)
    ensures
        match r {
            Some(v) => json_of(text@) == Some(v@),
            None => json_of(text@) is None,
        },
{
    match read_value(text) {
        Ok(v) => Some(take_apart(&v)),
        Err(_) => None,
    }
}

} // verus!
