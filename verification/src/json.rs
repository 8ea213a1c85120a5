//! JSON values: tool arguments, tool schemas and chat messages are JSON.
//!
//! `Json` is the executable value; `JsonView` is its mathematical form, in
//! which strings are character sequences. Object members keep their order.

use vstd::prelude::*;

use crate::text::{copy_str, str_eq};

verus! {

/// A JSON integer.
#[derive(Debug, Clone, Copy, PartialEq, Eq, Structural)]
pub enum JsonNumber {
    PosInt(u64),
    NegInt(i64),
}

/// A JSON value.
#[derive(Debug)]
pub enum Json {
    Null,
    Bool(bool),
    Number(JsonNumber),
    /// A number that is not an integer, kept as its decimal text.
    Float(String),
    Str(String),
    Array(Vec<Json>),
    Object(Vec<(String, Json)>),
}

/// The mathematical form of a JSON value.
pub enum JsonView {
    Null,
    Bool(bool),
    Number(JsonNumber),
    Float(Seq<char>),
    Str(Seq<char>),
    Array(Seq<JsonView>),
    Object(Seq<(Seq<char>, JsonView)>),
}

/// The mathematical form of `j`.
pub open spec fn json_view(j: Json) -> JsonView
    decreases j,
{
    match j {
        Json::Null => JsonView::Null,
        Json::Bool(b) => JsonView::Bool(b),
        Json::Number(n) => JsonView::Number(n),
        Json::Float(s) => JsonView::Float(s@),
        Json::Str(s) => JsonView::Str(s@),
        Json::Array(v) => JsonView::Array(
            Seq::new(
                v@.len(),
                |i: int|
                    if 0 <= i < v@.len() {
                        json_view(v@[i])
                    } else {
                        JsonView::Null
                    },
            ),
        ),
        Json::Object(v) => JsonView::Object(
            Seq::new(
                v@.len(),
                |i: int|
                    if 0 <= i < v@.len() {
                        (v@[i].0@, json_view(v@[i].1))
                    } else {
                        (Seq::empty(), JsonView::Null)
                    },
            ),
        ),
    }
}

/// The value of the first member named `key` in `entries`.
pub open spec fn assoc_get(entries: Seq<(Seq<char>, JsonView)>, key: Seq<char>) -> Option<JsonView>
    decreases entries.len(),
{
    if entries.len() == 0 {
        None
    } else if entries[0].0 == key {
        Some(entries[0].1)
    } else {
        assoc_get(entries.drop_first(), key)
    }
}

/// `v[key]` for an object `v`; `None` for a missing member or a non-object.
pub open spec fn view_get(v: JsonView, key: Seq<char>) -> Option<JsonView> {
    match v {
        JsonView::Object(entries) => assoc_get(entries, key),
        _ => None,
    }
}

/// The string held by `v`, if it is a string.
pub open spec fn view_as_str(v: JsonView) -> Option<Seq<char>> {
    match v {
        JsonView::Str(s) => Some(s),
        _ => None,
    }
}

/// The non-negative integer held by `v`, if it is one.
pub open spec fn view_as_u64(v: JsonView) -> Option<u64> {
    match v {
        JsonView::Number(JsonNumber::PosInt(n)) => Some(n),
        _ => None,
    }
}

/// `v[key]` as a string (`JsonExt::get_str`).
pub open spec fn view_get_str(v: JsonView, key: Seq<char>) -> Option<Seq<char>> {
    match view_get(v, key) {
        Some(x) => view_as_str(x),
        None => None,
    }
}

/// `v[key]` as a non-negative integer (`JsonExt::get_u64`).
pub open spec fn view_get_u64(v: JsonView, key: Seq<char>) -> Option<u64> {
    match view_get(v, key) {
        Some(x) => view_as_u64(x),
        None => None,
    }
}

/// `v[key]` as a boolean (`JsonExt::get_bool`).
pub open spec fn view_get_bool(v: JsonView, key: Seq<char>) -> Option<bool> {
    match view_get(v, key) {
        Some(JsonView::Bool(b)) => Some(b),
        _ => None,
    }
}

/// Looking up past a prefix of members that do not carry the key.
proof fn lemma_assoc_get_skip(entries: Seq<(Seq<char>, JsonView)>, key: Seq<char>, i: int)
    requires
        0 <= i < entries.len(),
    ensures
        assoc_get(entries.skip(i), key) == if entries[i].0 == key {
            Some(entries[i].1)
        } else {
            assoc_get(entries.skip(i + 1), key)
        },
{
    assert(entries.skip(i).drop_first() =~= entries.skip(i + 1));
}

impl Json {
    /// The member named `key`, for an object.
    pub fn get<'a>(&'a self, key: &str) -> (r: Option<&'a Json>)
        ensures
            match r {
                Some(x) => view_get(json_view(*self), key@) == Some(json_view(*x)),
                None => view_get(json_view(*self), key@) is None,
            },
    {
        match self {
            Json::Object(entries) => {
                let ghost ev = match json_view(*self) {
                    JsonView::Object(e) => e,
                    _ => Seq::empty(),
                };
                assert(ev.skip(0) =~= ev);
                let n = entries.len();
                let mut i: usize = 0;
                while i < n
                    invariant
                        n == entries@.len(),
                        json_view(*self) == JsonView::Object(ev),
                        ev.len() == n,
                        forall|k: int|
                            0 <= k < n ==> #[trigger] ev[k] == (
                                entries@[k].0@,
                                json_view(entries@[k].1),
                            ),
                        i <= n,
                        assoc_get(ev, key@) == assoc_get(ev.skip(i as int), key@),
                    decreases n - i,
                {
                    let entry = &entries[i];
                    proof {
                        lemma_assoc_get_skip(ev, key@, i as int);
                    }
                    if str_eq(entry.0.as_str(), key) {
                        assert(ev[i as int] == (entries@[i as int].0@, json_view(entries@[i as int].1)));
                        return Some(&entry.1);
                    }
                    assert(ev[i as int] == (entries@[i as int].0@, json_view(entries@[i as int].1)));
                    i = i + 1;
                }
                assert(ev.skip(n as int).len() == 0);
                None
            },
            _ => None,
        }
    }

    /// The string held by this value, if it is a string.
    pub fn as_str(&self) -> (r: Option<&String>)
        ensures
            match r {
                Some(s) => view_as_str(json_view(*self)) == Some(s@),
                None => view_as_str(json_view(*self)) is None,
            },
    {
        match self {
            Json::Str(s) => Some(s),
            _ => None,
        }
    }

    /// The non-negative integer held by this value, if it is one.
    pub fn as_u64(&self) -> (r: Option<u64>)
        ensures
            r == view_as_u64(json_view(*self)),
    {
        match self {
            Json::Number(JsonNumber::PosInt(n)) => Some(*n),
            _ => None,
        }
    }

    /// Whether this value is an array.
    pub fn is_array(&self) -> (r: bool)
        ensures
            r == (json_view(*self) is Array),
    {
        match self {
            Json::Array(_) => true,
            _ => false,
        }
    }

    /// `self[key]` as an owned string, if it is a string.
    pub fn get_str(&self, key: &str) -> (r: Option<String>)
        ensures
            match r {
                Some(s) => view_get_str(json_view(*self), key@) == Some(s@),
                None => view_get_str(json_view(*self), key@) is None,
            },
    {
        match self.get(key) {
            Some(v) => match v.as_str() {
                Some(s) => Some(copy_str(s.as_str())),
                None => None,
            },
            None => None,
        }
    }

    /// `self[key]` as a non-negative integer.
    pub fn get_u64(&self, key: &str) -> (r: Option<u64>)
        ensures
            r == view_get_u64(json_view(*self), key@),
    {
        match self.get(key) {
            Some(v) => v.as_u64(),
            None => None,
        }
    }

    /// `self[key]` as a boolean, if it is one.
    pub fn get_bool(&self, key: &str) -> (r: Option<bool>)
        ensures
            r == view_get_bool(json_view(*self), key@),
    {
        match self.get(key) {
            Some(Json::Bool(b)) => Some(*b),
            _ => None,
        }
    }

    /// A JSON string holding a copy of `s`.
    pub fn string(s: &str) -> (r: Json)
        ensures
            json_view(r) == JsonView::Str(s@),
    {
        Json::Str(copy_str(s))
    }
}

/// The views of a sequence of JSON values.
pub open spec fn jsons_view(v: Seq<Json>) -> Seq<JsonView> {
    v.map_values(|j: Json| json_view(j))
}

/// The views of a sequence of object members.
pub open spec fn members_view(v: Seq<(String, Json)>) -> Seq<(Seq<char>, JsonView)> {
    v.map_values(|m: (String, Json)| (m.0@, json_view(m.1)))
}

/// A JSON array of the given items.
pub fn array_of(items: Vec<Json>) -> (r: Json)
    ensures
        json_view(r) == JsonView::Array(jsons_view(items@)),
{
    let r = Json::Array(items);
    proof {
        if let JsonView::Array(a) = json_view(r) {
            assert(a =~= jsons_view(items@));
        }
    }
    r
}

/// A JSON object of the given members, in order.
pub fn object_of(members: Vec<(String, Json)>) -> (r: Json)
    ensures
        json_view(r) == JsonView::Object(members_view(members@)),
{
    let r = Json::Object(members);
    proof {
        if let JsonView::Object(a) = json_view(r) {
            assert(a =~= members_view(members@));
        }
    }
    r
}

/// A member whose value is a string.
pub fn str_member(key: &str, value: &str) -> (r: (String, Json))
    ensures
        r.0@ == key@,
        json_view(r.1) == JsonView::Str(value@),
{
    (copy_str(key), Json::string(value))
}

/// A deep copy of a JSON value.
#[verifier::loop_isolation(false)]
pub fn copy_json(j: &Json) -> (r: Json)
    ensures
        json_view(r) == json_view(*j),
    decreases j,
{
    match j {
        Json::Null => Json::Null,
        Json::Bool(b) => Json::Bool(*b),
        Json::Number(n) => Json::Number(*n),
        Json::Float(s) => Json::Float(copy_str(s.as_str())),
        Json::Str(s) => Json::Str(copy_str(s.as_str())),
        Json::Array(items) => {
            let mut out: Vec<Json> = Vec::new();
            let n = items.len();
            let mut i: usize = 0;
            while i < n
                invariant
                    n == items@.len(),
                    i <= n,
                    jsons_view(out@) =~= jsons_view(items@).take(i as int),
                decreases n - i,
            {
                proof {
                    assert(decreases_to!(*j => items@[i as int]));
                }
                let x = copy_json(&items[i]);
                let ghost before = jsons_view(out@);
                out.push(x);
                assert(jsons_view(out@) =~= before.push(json_view(items@[i as int])));
                i = i + 1;
            }
            assert(jsons_view(items@).take(n as int) =~= jsons_view(items@));
            let r = array_of(out);
            proof {
                if let JsonView::Array(a) = json_view(*j) {
                    assert(a =~= jsons_view(items@));
                }
            }
            r
        },
        Json::Object(members) => {
            let mut out: Vec<(String, Json)> = Vec::new();
            let n = members.len();
            let mut i: usize = 0;
            while i < n
                invariant
                    n == members@.len(),
                    i <= n,
                    members_view(out@) =~= members_view(members@).take(i as int),
                decreases n - i,
            {
                let k = copy_str(members[i].0.as_str());
                proof {
                    assert(decreases_to!(*j => members@[i as int].1));
                }
                let x = copy_json(&members[i].1);
                let ghost before = members_view(out@);
                out.push((k, x));
                assert(members_view(out@) =~= before.push(
                    (members@[i as int].0@, json_view(members@[i as int].1)),
                ));
                i = i + 1;
            }
            assert(members_view(members@).take(n as int) =~= members_view(members@));
            let r = object_of(out);
            proof {
                if let JsonView::Object(a) = json_view(*j) {
                    assert(a =~= members_view(members@));
                }
            }
            r
        },
    }
}

/// The JSON value that `text` parses to, or `None` when it is not valid JSON.
pub uninterp spec fn parsed_json(text: Seq<char>) -> Option<JsonView>;

/// Parses JSON text (`serde_json::from_str::<Value>`), converting the parsed
/// value member by member. The result is named by `parsed_json` and depends
/// on the text alone.
#[verifier::external_body]
pub fn parse_json(text: &str) -> (r: Option<Json>)
    ensures
        match r {
            Some(j) => parsed_json(text@) == Some(json_view(j)),
            None => parsed_json(text@) is None,
        },
{
    match serde_json::from_str::<serde_json::Value>(text) {
        Ok(v) => Some(json_from_serde(v)),
        Err(_) => None,
    }
}

/// `serde_json::Value`, the parser's output, carried opaquely into the
/// conversion below.
#[verifier::external_type_specification]
#[verifier::external_body]
pub struct ExSerdeJsonValue(serde_json::Value);

/// Converts a `serde_json::Value` into a `Json`, one variant for one variant.
#[verifier::external_body]
fn json_from_serde(v: serde_json::Value) -> Json {
    match v {
        serde_json::Value::Null => Json::Null,
        serde_json::Value::Bool(b) => Json::Bool(b),
        serde_json::Value::Number(n) => number_from_serde(n),
        serde_json::Value::String(s) => Json::Str(s),
        serde_json::Value::Array(a) => Json::Array(a.into_iter().map(json_from_serde).collect()),
        serde_json::Value::Object(m) => Json::Object(
            m.into_iter().map(|(k, x)| (k, json_from_serde(x))).collect(),
        ),
    }
}

/// `serde_json::Number`, a parsed JSON number, carried opaquely into the
/// conversion below.
#[verifier::external_type_specification]
#[verifier::external_body]
pub struct ExSerdeJsonNumber(serde_json::Number);

/// Converts a `serde_json::Number`: unsigned and negative integers as
/// integers (`as_u64`, `as_i64`), other numbers as their decimal text.
#[verifier::external_body]
fn number_from_serde(n: serde_json::Number) -> Json {
    match (n.as_u64(), n.as_i64()) {
        (Some(u), _) => Json::Number(JsonNumber::PosInt(u)),
        (None, Some(i)) => Json::Number(JsonNumber::NegInt(i)),
        _ => Json::Float(n.to_string()),
    }
}

/// The compact text that `serde_json::to_string` writes for a JSON value.
pub uninterp spec fn json_text(v: JsonView) -> Seq<char>;

/// Writes a JSON value as compact text (`serde_json::to_string`), after
/// converting it member by member; the result is named by `json_text` and
/// depends on the value alone. (Object members come out in the order of
/// serde_json's map, which need not be the order they are held in here.)
#[verifier::external_body]
pub fn to_json_text(j: &Json) -> (r: String)
    ensures
        r@ == json_text(json_view(*j)),
{
    serde_json::to_string(&json_to_serde(j)).unwrap_or_default()
}

/// Converts a `Json` into a `serde_json::Value`, one variant for one variant;
/// a non-integer number is read back from its decimal text.
#[verifier::external_body]
fn json_to_serde(j: &Json) -> serde_json::Value {
    match j {
        Json::Null => serde_json::Value::Null,
        Json::Bool(b) => serde_json::Value::Bool(*b),
        Json::Number(JsonNumber::PosInt(u)) => serde_json::Value::from(*u),
        Json::Number(JsonNumber::NegInt(i)) => serde_json::Value::from(*i),
        Json::Float(t) => serde_json::from_str(t).unwrap_or(serde_json::Value::Null),
        Json::Str(s) => serde_json::Value::String(s.clone()),
        Json::Array(a) => serde_json::Value::Array(a.iter().map(json_to_serde).collect()),
        Json::Object(m) => serde_json::Value::Object(
            m.iter().map(|(k, x)| (k.clone(), json_to_serde(x))).collect(),
        ),
    }
}

} // verus!
