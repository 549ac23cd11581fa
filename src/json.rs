//! JSON values as the library holds them, and parsing of JSON text.
use crate::error::Error;
use serde_json::Value;
use vstd::prelude::*;

verus! {

/// A JSON number. An integer is held exactly; any other number is held as
/// the decimal text that serde_json writes for it.
#[derive(Debug, PartialEq)]
pub enum Number {
    PosInt(u64),
    NegInt(i64),
    Float(String),
}

/// A JSON value. As parsed, the members of an object are ordered by key,
/// each key once.
#[derive(Debug)]
pub enum Json {
    Null,
    Bool(bool),
    Number(Number),
    Str(String),
    Array(Vec<Json>),
    Object(Vec<(String, Json)>),
}

/// serde_json's value tree, held only while it is converted to `Json`.
#[verifier::external_type_specification]
#[verifier::external_body]
pub struct ExValue(serde_json::Value);

/// The value that a JSON text denotes, or `None` where the text is not JSON.
pub uninterp spec fn json_of(text: Seq<u8>) -> Option<Json>;

/// Converts serde_json's value tree to `Json`, variant for variant, for
/// `parse_json`. Relies on serde_json::Number::as_u64 and as_i64 to tell
/// integers apart, and on Number's `Display` for the text of other numbers.
#[verifier::external_body]
fn json_from_value(v: &Value) -> Json {
    match v {
        Value::Null => Json::Null,
        Value::Bool(b) => Json::Bool(*b),
        Value::Number(n) => Json::Number(match (n.as_u64(), n.as_i64()) {
            (Some(u), _) => Number::PosInt(u),
            (None, Some(i)) => Number::NegInt(i),
            _ => Number::Float(n.to_string()),
        }),
        Value::String(s) => Json::Str(s.clone()),
        Value::Array(a) => Json::Array(a.iter().map(json_from_value).collect()),
        Value::Object(m) => Json::Object(
            m.iter().map(|(k, x)| (k.clone(), json_from_value(x))).collect(),
        ),
    }
}

/// Relies on serde_json::from_slice into serde_json::Value: it fails exactly
/// on bytes that are not one JSON text, and its result depends on the bytes
/// alone (objects come back ordered by key, serde_json's map being a
/// `BTreeMap`).
#[verifier::external_body]
pub(crate) fn parse_json(text: &[u8]) -> (r: Option<Json>)
    ensures
        r == json_of(text@),
{
    serde_json::from_slice::<Value>(text).ok().map(|v| json_from_value(&v))
}

/// The value of the first member of `m`, from index `i` on, whose key is `key`.
pub open spec fn find_from(m: Seq<(String, Json)>, key: Seq<char>, i: int) -> Option<Json>
    decreases m.len() - i,
{
    if i < 0 || i >= m.len() {
        None
    } else if m[i].0@ == key {
        Some(m[i].1)
    } else {
        find_from(m, key, i + 1)
    }
}

/// The member `key` of an object; `None` where `j` is no object or has no such member.
pub open spec fn field(j: Json, key: Seq<char>) -> Option<Json> {
    match j {
        Json::Object(m) => find_from(m@, key, 0),
        _ => None,
    }
}

/// Whether a string holds the same text as a string slice.
pub fn text_is(s: &String, t: &str) -> (r: bool)
    ensures
        r == (s@ == t@),
{
    let u = t.to_owned();
    *s == u
}

impl Number {
    /// A copy of this number.
    pub fn copy(&self) -> (r: Number)
        ensures
            r == *self,
    {
        match self {
            Number::PosInt(u) => Number::PosInt(*u),
            Number::NegInt(i) => Number::NegInt(*i),
            Number::Float(s) => Number::Float(s.clone()),
        }
    }
}

/// Each item of an array, and each member value of an object, is a part of it.
pub proof fn lemma_parts_smaller(a: Json)
    ensures
        a matches Json::Array(x) ==> forall|i: int|
            0 <= i < x@.len() ==> decreases_to!(a => #[trigger] x@[i]),
        a matches Json::Object(x) ==> forall|i: int|
            0 <= i < x@.len() ==> decreases_to!(a => #[trigger] x@[i].1),
{
    if let Json::Array(x) = a {
        assert forall|i: int| 0 <= i < x@.len() implies decreases_to!(a => #[trigger] x@[i]) by {
            assert(decreases_to!(a => a->Array_0));
            assert(decreases_to!(x => x@));
            assert(decreases_to!(x@ => x@[i]));
        }
    }
    if let Json::Object(x) = a {
        assert forall|i: int| 0 <= i < x@.len() implies decreases_to!(a => #[trigger] x@[i].1) by {
            assert(decreases_to!(a => a->Object_0));
            assert(decreases_to!(x => x@));
            assert(decreases_to!(x@ => x@[i]));
            assert(decreases_to!(x@[i] => x@[i].1));
        }
    }
}

/// `b` holds the same JSON value as `a`: the same texts, numbers, items and
/// members, in the same order.
pub open spec fn same_json(a: Json, b: Json) -> bool
    decreases a,
{
    proof {
        lemma_parts_smaller(a);
    }
    match a {
        Json::Null => b is Null,
        Json::Bool(x) => b == Json::Bool(x),
        Json::Number(x) => b == Json::Number(x),
        Json::Str(x) => b matches Json::Str(y) && y@ == x@,
        Json::Array(x) => b matches Json::Array(y) && y@.len() == x@.len() && forall|i: int|
            0 <= i < x@.len() ==> same_json(#[trigger] x@[i], y@[i]),
        Json::Object(x) => b matches Json::Object(y) && y@.len() == x@.len() && forall|i: int|
            0 <= i < x@.len() ==> y@[i].0@ == (#[trigger] x@[i]).0@ && same_json(x@[i].1, y@[i].1),
    }
}

/// An optional member as held: absent where `f` is, else the same value.
pub open spec fn opt_same_json(f: Option<Json>, v: Option<Json>) -> bool {
    match (f, v) {
        (None, None) => true,
        (Some(a), Some(b)) => same_json(a, b),
        _ => false,
    }
}

impl Json {
    /// A copy of this value.
    pub fn copy(&self) -> (r: Json)
        ensures
            same_json(*self, r),
        decreases self,
    {
        proof {
            lemma_parts_smaller(*self);
        }
        match self {
            Json::Null => Json::Null,
            Json::Bool(b) => Json::Bool(*b),
            Json::Number(n) => Json::Number(n.copy()),
            Json::Str(t) => Json::Str(t.clone()),
            Json::Array(x) => {
                let mut out: Vec<Json> = Vec::new();
                let mut i: usize = 0;
                while i < x.len()
                    invariant
                        i <= x@.len(),
                        out@.len() == i,
                        forall|k: int|
                            0 <= k < x@.len() ==> decreases_to!(*self => #[trigger] x@[k]),
                        forall|k: int| 0 <= k < i ==> same_json(#[trigger] x@[k], out@[k]),
                    decreases x@.len() - i,
                {
                    assert(decreases_to!(*self => x@[i as int]));
                    out.push(x[i].copy());
                    i = i + 1;
                }
                Json::Array(out)
            },
            Json::Object(x) => {
                let mut out: Vec<(String, Json)> = Vec::new();
                let mut i: usize = 0;
                while i < x.len()
                    invariant
                        i <= x@.len(),
                        out@.len() == i,
                        forall|k: int|
                            0 <= k < x@.len() ==> decreases_to!(*self => #[trigger] x@[k].1),
                        forall|k: int|
                            0 <= k < i ==> out@[k].0@ == (#[trigger] x@[k]).0@ && same_json(
                                x@[k].1,
                                out@[k].1,
                            ),
                    decreases x@.len() - i,
                {
                    let entry = &x[i];
                    assert(decreases_to!(*self => x@[i as int].1));
                    out.push((entry.0.clone(), entry.1.copy()));
                    i = i + 1;
                }
                Json::Object(out)
            },
        }
    }

    /// Parses a JSON text; bytes that are not JSON give `Error::Json`.
    pub fn parse(text: &[u8]) -> (r: Result<Json, Error>)
        ensures
            match json_of(text@) {
                Some(j) => r == Ok::<Json, Error>(j),
                None => r == Err::<Json, Error>(Error::Json),
            },
    {
        match parse_json(text) {
            Some(j) => Ok(j),
            None => Err(Error::Json),
        }
    }

    /// The member `key` of this object, if it is one and has that member.
    pub fn get(&self, key: &str) -> (r: Option<&Json>)
        ensures
            match r {
                Some(v) => field(*self, key@) == Some(*v),
                None => field(*self, key@) is None,
            },
    {
        match self {
            Json::Object(m) => {
                let mut i: usize = 0;
                while i < m.len()
                    invariant
                        i <= m@.len(),
                        field(*self, key@) == find_from(m@, key@, 0),
                        find_from(m@, key@, 0) == find_from(m@, key@, i as int),
                    decreases m@.len() - i,
                {
                    let entry = &m[i];
                    if text_is(&entry.0, key) {
                        assert(find_from(m@, key@, i as int) == Some(entry.1));
                        return Some(&entry.1);
                    }
                    i = i + 1;
                }
                None
            },
            _ => None,
        }
    }
}

} // verus!
