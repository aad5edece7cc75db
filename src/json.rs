//! A JSON value as plain data, and parsing of JSON documents.
use vstd::prelude::*;
use crate::text::str_eq;

verus! {

/// A JSON value. A number keeps its value when it is an integer that fits
/// in `i64`, else `None`.
#[derive(Debug)]
pub enum Json {
    Null,
    Bool(bool),
    Number(Option<i64>),
    Str(String),
    Array(Vec<Json>),
    Object(Vec<(String, Json)>),
}

/// The value of the first member named `k` in `e`.
pub open spec fn member(e: Seq<(String, Json)>, k: Seq<char>) -> Option<Json>
    decreases e.len(),
{
    if e.len() == 0 {
        None
    } else if e[0].0@ == k {
        Some(e[0].1)
    } else {
        member(e.skip(1), k)
    }
}

impl Json {
    /// The member `k` of an object; `None` for anything else.
    pub open spec fn spec_get(self, k: Seq<char>) -> Option<Json> {
        match self {
            Json::Object(e) => member(e@, k),
            _ => None,
        }
    }

    /// The text of a string value.
    pub open spec fn spec_str(self) -> Option<Seq<char>> {
        match self {
            Json::Str(s) => Some(s@),
            _ => None,
        }
    }

    /// The value of an integer number.
    pub open spec fn spec_i64(self) -> Option<i64> {
        match self {
            Json::Number(n) => n,
            _ => None,
        }
    }

    /// The member `k` of an object.
    pub fn get(&self, k: &str) -> (r: Option<&Json>)
        ensures
            r matches Some(v) ==> self.spec_get(k@) == Some(*v),
            r is None ==> self.spec_get(k@) is None,
    {
        match self {
            Json::Object(e) => {
                let mut i: usize = 0;
                assert(e@.skip(0) =~= e@);
                while i < e.len()
                    invariant
                        i <= e@.len(),
                        self.spec_get(k@) == member(e@, k@),
                        member(e@, k@) == member(e@.skip(i as int), k@),
                    decreases e@.len() - i,
                {
                    assert(e@.skip(i as int).skip(1) =~= e@.skip(i + 1));
                    assert(e@.skip(i as int)[0] == e@[i as int]);
                    if str_eq(e[i].0.as_str(), k) {
                        assert(member(e@.skip(i as int), k@) == Some(e@[i as int].1));
                        return Some(&e[i].1);
                    }
                    i = i + 1;
                }
                assert(e@.skip(i as int).len() == 0);
                None
            },
            _ => None,
        }
    }

    /// The text of a string value.
    pub fn as_str(&self) -> (r: Option<&String>)
        ensures
            r matches Some(s) ==> self.spec_str() == Some(s@),
            r is None ==> self.spec_str() is None,
    {
        match self {
            Json::Str(s) => Some(s),
            _ => None,
        }
    }

    /// The value of an integer number that fits in `i64`.
    pub fn as_i64(&self) -> (r: Option<i64>)
        ensures
            r == self.spec_i64(),
    {
        match self {
            Json::Number(n) => *n,
            _ => None,
        }
    }

    /// The members of an object.
    pub fn as_object(&self) -> (r: Option<&Vec<(String, Json)>>)
        ensures
            r matches Some(e) ==> self == Json::Object(*e),
            r is None ==> !(self is Object),
    {
        match self {
            Json::Object(e) => Some(e),
            _ => None,
        }
    }
}

/// The text of the string member `k` of `v`, if `v` is an object with such a member.
pub open spec fn str_member(v: Json, k: Seq<char>) -> Option<Seq<char>> {
    match v.spec_get(k) {
        Some(x) => x.spec_str(),
        None => None,
    }
}

/// The string member `k` of `v`, copied.
pub fn get_string(v: &Json, k: &str) -> (r: Option<String>)
    ensures
        r matches Some(s) ==> str_member(*v, k@) == Some(s@),
        r is None ==> str_member(*v, k@) is None,
{
    match v.get(k) {
        Some(x) => match x.as_str() {
            Some(s) => Some(s.clone()),
            None => None,
        },
        None => None,
    }
}

/// The value of the first member named `k`, taken out of `members`.
pub fn take_member(members: Vec<(String, Json)>, k: &str) -> (r: Option<Json>)
    ensures
        r == member(members@, k@),
{
    let mut e = members;
    let mut i: usize = 0;
    assert(e@.skip(0) =~= e@);
    while i < e.len()
        invariant
            i <= e@.len(),
            e@ == members@,
            member(e@, k@) == member(e@.skip(i as int), k@),
        decreases e@.len() - i,
    {
        assert(e@.skip(i as int).skip(1) =~= e@.skip(i + 1));
        assert(e@.skip(i as int)[0] == e@[i as int]);
        if str_eq(e[i].0.as_str(), k) {
            let (_, v) = e.remove(i);
            return Some(v);
        }
        i = i + 1;
    }
    assert(e@.skip(i as int).len() == 0);
    None
}

/// The JSON value that the bytes `b` hold, if they are a JSON document.
pub uninterp spec fn json_document(b: Seq<u8>) -> Option<Json>;

/// serde_json's `Value`, which only the conversion below reads.
#[verifier::external_type_specification]
#[verifier::external_body]
pub struct ExJsonValue(serde_json::Value);

/// Relies on the variants of serde_json::Value to copy a parsed value into a
/// `Json`, member by member, in the map's order.
#[verifier::external_body]
fn json_from_value(v: &serde_json::Value) -> Json {
    match v {
        serde_json::Value::Null => Json::Null,
        serde_json::Value::Bool(b) => Json::Bool(*b),
        serde_json::Value::Number(n) => Json::Number(n.as_i64()),
        serde_json::Value::String(s) => Json::Str(s.clone()),
        serde_json::Value::Array(a) => Json::Array(a.iter().map(json_from_value).collect()),
        serde_json::Value::Object(o) => {
            Json::Object(o.iter().map(|(k, x)| (k.clone(), json_from_value(x))).collect())
        },
    }
}

/// Relies on serde_json::from_slice: parses the bytes as one JSON document;
/// the outcome depends on the bytes alone.
#[verifier::external_body]
pub(crate) fn parse_json(b: &[u8]) -> (r: Option<Json>)
    ensures
        r == json_document(b@),
{
    serde_json::from_slice::<serde_json::Value>(b).ok().map(|v| json_from_value(&v))
}

} // verus!
