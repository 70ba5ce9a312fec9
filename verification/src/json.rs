//! A JSON value as the library reads and writes it: request bodies are built
//! as such values, responses are read from them. Text is parsed into values
//! by serde_json; writing values out as text stands outside the library.
use vstd::prelude::*;

use crate::text::str_is;

verus! {

/// A JSON value. Numbers are held as their JSON text; an object holds its
/// members in order, each key once.
#[derive(Debug)]
pub enum JsonValue {
    Null,
    Bool(bool),
    Number(String),
    Str(String),
    Array(Vec<JsonValue>),
    Object(Vec<(String, JsonValue)>),
}

/// A JSON value as text and sequences.
pub enum Json {
    Null,
    Bool(bool),
    Number(Seq<char>),
    Str(Seq<char>),
    Array(Seq<Json>),
    Object(Seq<(Seq<char>, Json)>),
}

/// The value that a `JsonValue` holds.
pub open spec fn json_view(v: JsonValue) -> Json
    decreases v,
{
    match v {
        JsonValue::Null => Json::Null,
        JsonValue::Bool(b) => Json::Bool(b),
        JsonValue::Number(n) => Json::Number(n@),
        JsonValue::Str(s) => Json::Str(s@),
        JsonValue::Array(xs) => Json::Array(
            Seq::new(
                xs@.len(),
                |i: int|
                    if 0 <= i < xs@.len() {
                        json_view(xs@[i])
                    } else {
                        Json::Null
                    },
            ),
        ),
        JsonValue::Object(es) => Json::Object(
            Seq::new(
                es@.len(),
                |i: int|
                    if 0 <= i < es@.len() {
                        (es@[i].0@, json_view(es@[i].1))
                    } else {
                        (Seq::empty(), Json::Null)
                    },
            ),
        ),
    }
}

impl View for JsonValue {
    type V = Json;

    open spec fn view(&self) -> Json {
        json_view(*self)
    }
}

/// The value of an optional JSON value.
pub open spec fn opt_view(v: Option<&JsonValue>) -> Option<Json> {
    match v {
        Some(x) => Some(x@),
        None => None,
    }
}

/// The value stored under `key` among object members; the first one wins.
pub open spec fn lookup(members: Seq<(Seq<char>, Json)>, key: Seq<char>) -> Option<Json>
    decreases members.len(),
{
    if members.len() == 0 {
        None
    } else if members[0].0 == key {
        Some(members[0].1)
    } else {
        lookup(members.drop_first(), key)
    }
}

/// The member `key` of an object; nothing for a missing member or a value
/// that is no object. (Indexing a JSON value yields `null` there, which
/// reads as nothing at every later step.)
pub open spec fn member(v: Option<Json>, key: Seq<char>) -> Option<Json> {
    match v {
        Some(Json::Object(ms)) => lookup(ms, key),
        _ => None,
    }
}

/// The element `i` of an array; nothing when out of range or no array.
pub open spec fn element(v: Option<Json>, i: int) -> Option<Json> {
    match v {
        Some(Json::Array(xs)) => if 0 <= i < xs.len() {
            Some(xs[i])
        } else {
            None
        },
        _ => None,
    }
}

/// The text of a string value.
pub open spec fn text_of(v: Option<Json>) -> Option<Seq<char>> {
    match v {
        Some(Json::Str(s)) => Some(s),
        _ => None,
    }
}

/// The elements of an array value.
pub open spec fn elements_of(v: Option<Json>) -> Option<Seq<Json>> {
    match v {
        Some(Json::Array(xs)) => Some(xs),
        _ => None,
    }
}

impl JsonValue {
    /// The member `key` of an object, if this is an object that has it.
    pub fn get(&self, key: &str) -> (r: Option<&JsonValue>)
        ensures
            opt_view(r) == member(Some(self@), key@),
    {
        match self {
            JsonValue::Object(es) => {
                let ghost ms = self@->Object_0;
                assert(self@ is Object);
                let mut i: usize = 0;
                assert(ms.skip(0) == ms);
                while i < es.len()
                    invariant
                        i <= es.len(),
                        self@ == Json::Object(ms),
                        ms.len() == es@.len(),
                        forall|k: int| 0 <= k < es@.len() ==> #[trigger] ms[k] == (es@[k].0@, json_view(es@[k].1)),
                        lookup(ms, key@) == lookup(ms.skip(i as int), key@),
                    decreases es.len() - i,
                {
                    let e = &es[i];
                    assert(ms.skip(i as int)[0] == ms[i as int]);
                    if str_is(e.0.as_str(), key) {
                        assert(ms.skip(i as int).len() > 0);
                        assert(ms[i as int].1 == e.1@);
                        assert(ms[i as int].0 == key@);
                        assert(lookup(ms.skip(i as int), key@) == Some(e.1@));
                        return Some(&e.1);
                    }
                    assert(ms.skip(i as int).drop_first() == ms.skip(i + 1));
                    i += 1;
                }
                None
            },
            _ => None,
        }
    }

    /// The element `i` of an array, if this is an array that long.
    pub fn at(&self, i: usize) -> (r: Option<&JsonValue>)
        ensures
            opt_view(r) == element(Some(self@), i as int),
    {
        match self {
            JsonValue::Array(xs) => {
                if i < xs.len() {
                    Some(&xs[i])
                } else {
                    None
                }
            },
            _ => None,
        }
    }

    /// The text of a string value.
    pub fn as_str(&self) -> (r: Option<&str>)
        ensures
            match r {
                Some(s) => text_of(Some(self@)) == Some(s@),
                None => text_of(Some(self@)) is None,
            },
    {
        match self {
            JsonValue::Str(s) => Some(s.as_str()),
            _ => None,
        }
    }

    /// The elements of an array value.
    pub fn as_array(&self) -> (r: Option<&Vec<JsonValue>>)
        ensures
            match r {
                Some(xs) => elements_of(Some(self@)) matches Some(ys) && ys.len() == xs@.len() && (
                forall|i: int| 0 <= i < ys.len() ==> #[trigger] ys[i] == xs@[i]@),
                None => elements_of(Some(self@)) is None,
            },
    {
        match self {
            JsonValue::Array(xs) => {
                Some(xs)
            },
            _ => None,
        }
    }
}

/// The value that serde_json parses `text` into, or nothing where `text` is
/// no JSON document.
pub uninterp spec fn json_of_text(text: Seq<char>) -> Option<Json>;

/// serde_json's JSON value, carried through unopened.
#[verifier::external_type_specification]
#[verifier::external_body]
pub struct ExSerdeJsonValue(serde_json::Value);

/// A serde_json value as the library holds it, one variant for another;
/// numbers keep the text that serde_json writes for them.
#[verifier::external_body]
fn json_from_serde(v: serde_json::Value) -> (r: JsonValue) {
    match v {
        serde_json::Value::Null => JsonValue::Null,
        serde_json::Value::Bool(b) => JsonValue::Bool(b),
        serde_json::Value::Number(n) => JsonValue::Number(n.to_string()),
        serde_json::Value::String(s) => JsonValue::Str(s),
        serde_json::Value::Array(xs) => JsonValue::Array(xs.into_iter().map(json_from_serde).collect()),
        serde_json::Value::Object(m) => JsonValue::Object(
            m.into_iter().map(|(k, v)| (k, json_from_serde(v))).collect(),
        ),
    }
}

/// Parses `text` as a JSON document with `serde_json::from_str` into a
/// `serde_json::Value`. Trusted: the result is what [`json_of_text`] names for
/// the text, and nothing exactly when serde_json refuses the text. What
/// serde_json accepts, and how it orders object members, is not stated.
#[verifier::external_body]
pub(crate) fn parse_json_text(text: &str) -> (r: Option<JsonValue>)
    ensures
        match r {
            Some(v) => json_of_text(text@) == Some(v@),
            None => json_of_text(text@) is None,
        },
{
    match serde_json::from_str::<serde_json::Value>(text) {
        Ok(v) => Some(json_from_serde(v)),
        Err(_) => None,
    }
}

/// The values of a list of JSON values.
pub open spec fn values_view(xs: Seq<JsonValue>) -> Seq<Json> {
    Seq::new(xs.len(), |i: int| xs[i]@)
}

/// The members of an object as text and values.
pub open spec fn members_view(ms: Seq<(String, JsonValue)>) -> Seq<(Seq<char>, Json)> {
    Seq::new(ms.len(), |i: int| (ms[i].0@, ms[i].1@))
}

/// A string value.
pub fn json_str(s: &str) -> (r: JsonValue)
    ensures
        r@ == Json::Str(s@),
{
    broadcast use vstd::string::group_string_axioms;

    JsonValue::Str(s.to_string())
}

/// A number value written as `text`.
pub fn json_number(text: &str) -> (r: JsonValue)
    ensures
        r@ == Json::Number(text@),
{
    broadcast use vstd::string::group_string_axioms;

    JsonValue::Number(text.to_string())
}

/// An object member.
pub fn json_member(key: &str, value: JsonValue) -> (r: (String, JsonValue))
    ensures
        r.0@ == key@,
        r.1 == value,
{
    broadcast use vstd::string::group_string_axioms;

    (key.to_string(), value)
}

/// An object with the given members.
pub fn json_object(members: Vec<(String, JsonValue)>) -> (r: JsonValue)
    ensures
        r@ == Json::Object(members_view(members@)),
{
    let r = JsonValue::Object(members);
    assert(r@->Object_0 =~= members_view(members@));
    r
}

/// An array with the given elements.
pub fn json_array(items: Vec<JsonValue>) -> (r: JsonValue)
    ensures
        r@ == Json::Array(values_view(items@)),
{
    let r = JsonValue::Array(items);
    assert(r@->Array_0 =~= values_view(items@));
    r
}

} // verus!
