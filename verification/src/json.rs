//! A JSON value as the library reads it: objects keep their members in
//! order, numbers keep their textual form.
use vstd::prelude::*;

use crate::strings::{owned, str_eq};

verus! {

/// A JSON value.
#[derive(Debug, PartialEq)]
pub enum JsonValue {
    Null,
    Bool(bool),
    Number(String),
    Str(String),
    Array(Vec<JsonValue>),
    Object(Vec<JsonMember>),
}

/// A member of a JSON object.
#[derive(Debug, PartialEq)]
pub struct JsonMember {
    pub key: String,
    pub value: JsonValue,
}

/// The index of the first member of `members` named `key`, or -1.
pub open spec fn member_index(members: Seq<JsonMember>, key: Seq<char>) -> int
    decreases members.len(),
{
    if members.len() == 0 {
        -1
    } else if members.last().key@ == key {
        let r = member_index(members.drop_last(), key);
        if r >= 0 {
            r
        } else {
            members.len() - 1
        }
    } else {
        member_index(members.drop_last(), key)
    }
}

/// The value of the member `key` of an object; `None` for other values.
pub open spec fn json_get(v: JsonValue, key: Seq<char>) -> Option<JsonValue> {
    match v {
        JsonValue::Object(members) => {
            let i = member_index(members@, key);
            if i >= 0 {
                Some(members@[i].value)
            } else {
                None
            }
        },
        _ => None,
    }
}

/// The text of a JSON string; `None` for other values.
pub open spec fn json_str(v: Option<JsonValue>) -> Option<Seq<char>> {
    match v {
        Some(JsonValue::Str(s)) => Some(s@),
        _ => None,
    }
}

/// The text of the string member `key` of `v`.
pub open spec fn str_member(v: JsonValue, key: Seq<char>) -> Option<Seq<char>> {
    json_str(json_get(v, key))
}

proof fn lemma_member_index_bounds(members: Seq<JsonMember>, key: Seq<char>)
    ensures
        -1 <= member_index(members, key) < members.len(),
        member_index(members, key) >= 0 ==> members[member_index(members, key)].key@ == key,
        member_index(members, key) < 0 ==> forall|j: int|
            0 <= j < members.len() ==> (#[trigger] members[j]).key@ != key,
    decreases members.len(),
{
    if members.len() > 0 {
        lemma_member_index_bounds(members.drop_last(), key);
        assert forall|j: int| 0 <= j < members.len() - 1 implies members.drop_last()[j]
            == #[trigger] members[j] by {}
    }
}

proof fn lemma_member_index_first(members: Seq<JsonMember>, key: Seq<char>, i: int)
    requires
        0 <= i < members.len(),
        members[i].key@ == key,
        forall|j: int| 0 <= j < i ==> (#[trigger] members[j]).key@ != key,
    ensures
        member_index(members, key) == i,
    decreases members.len(),
{
    if i < members.len() - 1 {
        lemma_member_index_first(members.drop_last(), key, i);
    } else {
        lemma_member_index_bounds(members.drop_last(), key);
        assert forall|j: int| 0 <= j < members.len() - 1 implies (
        #[trigger] members.drop_last()[j]).key@ != key by {
            assert(members.drop_last()[j] == members[j]);
        }
    }
}

impl JsonValue {
    /// The member `key` of an object.
    pub fn get(&self, key: &str) -> (r: Option<&JsonValue>)
        ensures
            match json_get(*self, key@) {
                Some(v) => r == Some(&v),
                None => r is None,
            },
    {
        match self {
            JsonValue::Object(members) => {
                let mut i: usize = 0;
                while i < members.len()
                    invariant
                        i <= members.len(),
                        *self == JsonValue::Object(*members),
                        forall|j: int| 0 <= j < i ==> (#[trigger] members@[j]).key@ != key@,
                    decreases members.len() - i,
                {
                    if str_eq(members[i].key.as_str(), key) {
                        proof {
                            lemma_member_index_first(members@, key@, i as int);
                            assert(json_get(*self, key@) == Some(members@[i as int].value));
                        }
                        return Some(&members[i].value);
                    }
                    i = i + 1;
                }
                proof {
                    lemma_member_index_bounds(members@, key@);
                }
                None
            },
            _ => None,
        }
    }

    /// The text of a string value.
    pub fn as_str(&self) -> (r: Option<&str>)
        ensures
            match *self {
                JsonValue::Str(s) => r is Some && r->0@ == s@,
                _ => r is None,
            },
    {
        match self {
            JsonValue::Str(s) => Some(s.as_str()),
            _ => None,
        }
    }

    /// The items of an array value.
    pub fn as_array(&self) -> (r: Option<&Vec<JsonValue>>)
        ensures
            match *self {
                JsonValue::Array(items) => r == Some(&items),
                _ => r is None,
            },
    {
        match self {
            JsonValue::Array(items) => Some(items),
            _ => None,
        }
    }

    /// Whether the value is an object.
    pub fn is_object(&self) -> (r: bool)
        ensures
            r == (*self is Object),
    {
        match self {
            JsonValue::Object(_) => true,
            _ => false,
        }
    }

    /// A JSON string with the text `s`.
    pub fn string(s: &str) -> (r: JsonValue)
        ensures
            r matches JsonValue::Str(t) && t@ == s@,
    {
        JsonValue::Str(owned(s))
    }
}

/// The text of the string member `key` of `v`, as an owned string.
pub fn string_member(v: &JsonValue, key: &str) -> (r: Option<String>)
    ensures
        match str_member(*v, key@) {
            Some(t) => r is Some && r->0@ == t,
            None => r is None,
        },
{
    match v.get(key) {
        Some(m) => match m.as_str() {
            Some(s) => Some(owned(s)),
            None => None,
        },
        None => None,
    }
}

/// `a` and `b` are the same JSON value: the same shape, the same texts,
/// members in the same order.
pub open spec fn json_same(a: JsonValue, b: JsonValue) -> bool
    decreases a,
{
    match a {
        JsonValue::Null => b is Null,
        JsonValue::Bool(x) => b == JsonValue::Bool(x),
        JsonValue::Number(x) => b matches JsonValue::Number(y) && x@ == y@,
        JsonValue::Str(x) => b matches JsonValue::Str(y) && x@ == y@,
        JsonValue::Array(xs) => b matches JsonValue::Array(ys) && xs.len() == ys.len() && (
        forall|i: int| 0 <= i < xs.len() ==> json_same(#[trigger] xs[i], ys[i])),
        JsonValue::Object(ms) => b matches JsonValue::Object(ns) && ms.len() == ns.len() && (
        forall|i: int|
            0 <= i < ms.len() ==> (#[trigger] ms[i]).key@ == ns[i].key@ && json_same(
                ms[i].value,
                ns[i].value,
            )),
    }
}

/// A copy of a JSON value.
pub fn copy_json(v: &JsonValue) -> (r: JsonValue)
    ensures
        json_same(*v, r),
    decreases v,
{
    match v {
        JsonValue::Null => JsonValue::Null,
        JsonValue::Bool(b) => JsonValue::Bool(*b),
        JsonValue::Number(n) => JsonValue::Number(n.clone()),
        JsonValue::Str(s) => JsonValue::Str(s.clone()),
        JsonValue::Array(items) => {
            let mut out: Vec<JsonValue> = Vec::new();
            let mut i: usize = 0;
            while i < items.len()
                invariant
                    *v == JsonValue::Array(*items),
                    i <= items.len(),
                    out@.len() == i,
                    forall|j: int| 0 <= j < i ==> json_same(#[trigger] items[j], out[j]),
                decreases items.len() - i,
            {
                proof {
                    vstd::std_specs::vec::axiom_vec_index_decreases(*items, i as int);
                    assert(decreases_to!(*v => (*v)->Array_0));
                    assert((*v)->Array_0 == *items);
                    assert(decreases_to!(*items => items[i as int]));
                }
                let c = copy_json(&items[i]);
                out.push(c);
                i = i + 1;
            }
            JsonValue::Array(out)
        },
        JsonValue::Object(members) => {
            let mut out: Vec<JsonMember> = Vec::new();
            let mut i: usize = 0;
            while i < members.len()
                invariant
                    *v == JsonValue::Object(*members),
                    i <= members.len(),
                    out@.len() == i,
                    forall|j: int|
                        0 <= j < i ==> (#[trigger] members[j]).key@ == out[j].key@ && json_same(
                            members[j].value,
                            out[j].value,
                        ),
                decreases members.len() - i,
            {
                proof {
                    vstd::std_specs::vec::axiom_vec_index_decreases(*members, i as int);
                    assert(decreases_to!(*v => (*v)->Object_0));
                    assert((*v)->Object_0 == *members);
                    assert(decreases_to!(*members => members[i as int]));
                    assert(decreases_to!(members[i as int] => members[i as int].value));
                }
                let value = copy_json(&members[i].value);
                out.push(JsonMember { key: members[i].key.clone(), value });
                i = i + 1;
            }
            JsonValue::Object(out)
        },
    }
}

/// Two copies of one value are copies of each other.
pub proof fn lemma_json_same_shared(a: JsonValue, b: JsonValue, c: JsonValue)
    requires
        json_same(a, b),
        json_same(a, c),
    ensures
        json_same(b, c),
    decreases a,
{
    match a {
        JsonValue::Array(xs) => {
            let ys = b->Array_0;
            let zs = c->Array_0;
            assert forall|i: int| 0 <= i < ys.len() implies json_same(#[trigger] ys[i], zs[i]) by {
                vstd::std_specs::vec::axiom_vec_index_decreases(xs, i);
                assert(decreases_to!(a => a->Array_0));
                lemma_json_same_shared(xs[i], ys[i], zs[i]);
            }
        },
        JsonValue::Object(ms) => {
            let ns = b->Object_0;
            let ps = c->Object_0;
            assert forall|i: int| 0 <= i < ns.len() implies (#[trigger] ns[i]).key@ == ps[i].key@
                && json_same(ns[i].value, ps[i].value) by {
                vstd::std_specs::vec::axiom_vec_index_decreases(ms, i);
                assert(decreases_to!(a => a->Object_0));
                assert(decreases_to!(ms[i] => ms[i].value));
                assert(json_same(ms[i].value, ns[i].value));
                assert(json_same(ms[i].value, ps[i].value));
                lemma_json_same_shared(ms[i].value, ns[i].value, ps[i].value);
            }
        },
        _ => {},
    }
}

#[verifier::external_type_specification]
#[verifier::external_body]
pub struct ExSerdeValue(serde_json::Value);

/// The value that serde_json reads from a JSON text, `None` for a text that
/// is no JSON.
pub uninterp spec fn json_of_text(text: Seq<char>) -> Option<JsonValue>;

/// The compact JSON text that serde_json writes for a value.
pub uninterp spec fn json_text(v: JsonValue) -> Seq<char>;

/// `serde_json::from_str::<serde_json::Value>`: the JSON value of a text, or
/// `None` where serde_json refuses the text. What serde_json reads is named,
/// not stated.
#[verifier::external_body]
pub(crate) fn parse_json_text(text: &str) -> (r: Option<JsonValue>)
    ensures
        r == json_of_text(text@),
{
    match serde_json::from_str::<serde_json::Value>(text) {
        Ok(value) => Some(json_from_serde(value)),
        Err(_) => None,
    }
}

/// `serde_json::Value`'s `to_string`: the compact JSON text of a value. The
/// text that serde_json writes is named, not stated.
#[verifier::external_body]
pub(crate) fn compact_json_text(v: &JsonValue) -> (r: String)
    ensures
        r@ == json_text(*v),
{
    serde_from_json(v).to_string()
}

/// The indented JSON text that serde_json writes for a value.
pub uninterp spec fn json_pretty_text(v: JsonValue) -> Seq<char>;

/// `serde_json::to_string_pretty`: the JSON text of a value, indented by
/// two spaces. The text is named, not stated.
#[verifier::external_body]
pub(crate) fn pretty_json_text(v: &JsonValue) -> (r: String)
    ensures
        r@ == json_pretty_text(*v),
{
    serde_json::to_string_pretty(&serde_from_json(v)).unwrap_or_default()
}

/// The tree of serde_json taken over variant by variant; numbers keep the
/// text serde_json writes for them.
#[verifier::external_body]
fn json_from_serde(value: serde_json::Value) -> JsonValue {
    match value {
        serde_json::Value::Null => JsonValue::Null,
        serde_json::Value::Bool(b) => JsonValue::Bool(b),
        serde_json::Value::Number(n) => JsonValue::Number(n.to_string()),
        serde_json::Value::String(s) => JsonValue::Str(s),
        serde_json::Value::Array(items) => JsonValue::Array(items.into_iter().map(json_from_serde).collect()),
        serde_json::Value::Object(map) => JsonValue::Object(
            map.into_iter().map(|(key, value)| JsonMember { key, value: json_from_serde(value) }).collect(),
        ),
    }
}

/// The library's value as a serde_json tree, variant by variant; a number
/// is read back from its text.
#[verifier::external_body]
fn serde_from_json(v: &JsonValue) -> serde_json::Value {
    match v {
        JsonValue::Null => serde_json::Value::Null,
        JsonValue::Bool(b) => serde_json::Value::Bool(*b),
        JsonValue::Number(n) => serde_json::from_str(n).unwrap_or(serde_json::Value::Null),
        JsonValue::Str(s) => serde_json::Value::String(s.clone()),
        JsonValue::Array(items) => serde_json::Value::Array(items.iter().map(serde_from_json).collect()),
        JsonValue::Object(ms) => serde_json::Value::Object(
            ms.iter().map(|m| (m.key.clone(), serde_from_json(&m.value))).collect(),
        ),
    }
}

} // verus!
