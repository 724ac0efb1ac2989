//! A plain model of JSON values.
//!
//! Parsing is delegated to `serde_json` behind a trusted wrapper; everything
//! that reads or builds JSON afterwards is verified code over this model.

use vstd::prelude::*;

use crate::text::str_eq;

verus! {

/// A JSON number, kept with its original literal text so that non-integral
/// numbers survive a round trip without the library holding a float.
pub struct JsonNum {
    /// The literal text of the number as it appeared in the document.
    pub text: String,
    /// The value as an unsigned integer, when the number is one.
    pub uint: Option<u64>,
    /// The value as a signed integer, when the number is one.
    pub int: Option<i64>,
}

/// A JSON value.
pub enum Json {
    Null,
    Bool(bool),
    Num(JsonNum),
    Text(String),
    Arr(Vec<Json>),
    Obj(Vec<(String, Json)>),
}

/// Declares `serde_json::Value`, the parser's own tree type, which the
/// trusted converter below walks.
#[verifier::external_type_specification]
#[verifier::external_body]
pub struct ExValue(serde_json::Value);

/// What `serde_json` parses a document into: `None` for a syntax error,
/// otherwise the value tree.
pub uninterp spec fn json_of(s: Seq<char>) -> Option<Json>;

/// Relies on `serde_json::from_str::<Value>`: parses a JSON document; the
/// result is a function of the text alone.
#[verifier::external_body]
pub fn parse_json(s: &str) -> (r: Option<Json>)
    ensures
        r == json_of(s@),
{
    match serde_json::from_str::<serde_json::Value>(s) {
        Ok(v) => Some(convert_value(&v)),
        Err(_) => None,
    }
}

/// Relies on `serde_json::Value`: rebuilds the parsed tree as the library's
/// own model, one arm per variant, moving the fields.
#[verifier::external_body]
fn convert_value(v: &serde_json::Value) -> Json {
    match v {
        serde_json::Value::Null => Json::Null,
        serde_json::Value::Bool(b) => Json::Bool(*b),
        serde_json::Value::Number(n) => Json::Num(JsonNum {
            text: n.to_string(),
            uint: n.as_u64(),
            int: n.as_i64(),
        }),
        serde_json::Value::String(s) => Json::Text(s.clone()),
        serde_json::Value::Array(a) => Json::Arr(a.iter().map(convert_value).collect()),
        serde_json::Value::Object(o) => {
            Json::Obj(o.iter().map(|(k, x)| (k.clone(), convert_value(x))).collect())
        },
    }
}

/// The first value bound to `key` in an object's field list, if any.
pub open spec fn spec_lookup(fields: Seq<(String, Json)>, key: Seq<char>) -> Option<Json>
    decreases fields.len(),
{
    if fields.len() == 0 {
        None
    } else if fields[0].0@ == key {
        Some(fields[0].1)
    } else {
        spec_lookup(fields.drop_first(), key)
    }
}

/// The field named `key` of `j`, when `j` is an object that has it.
pub open spec fn spec_get(j: Json, key: Seq<char>) -> Option<Json> {
    match j {
        Json::Obj(fields) => spec_lookup(fields@, key),
        _ => None,
    }
}

impl Json {
    /// Looks a field up in an object; `None` on any other value.
    pub fn get<'a>(&'a self, key: &str) -> (r: Option<&'a Json>)
        ensures
            match r {
                Some(v) => spec_get(*self, key@) == Some(*v),
                None => spec_get(*self, key@) is None,
            },
    {
        match self {
            Json::Obj(fields) => {
                let n = fields.len();
                let mut i: usize = 0;
                proof {
                    assert(fields@.skip(0) =~= fields@);
                }
                while i < n
                    invariant
                        n == fields@.len(),
                        i <= n,
                        spec_get(*self, key@) == spec_lookup(fields@, key@),
                        spec_lookup(fields@, key@) == spec_lookup(fields@.skip(i as int), key@),
                    decreases n - i,
                {
                    proof {
                        assert(fields@.skip(i as int).drop_first() =~= fields@.skip(i + 1));
                        assert(fields@.skip(i as int)[0] == fields@[i as int]);
                    }
                    if str_eq(fields[i].0.as_str(), key) {
                        proof {
                            assert(spec_lookup(fields@.skip(i as int), key@) == Some(
                                fields@[i as int].1,
                            ));
                        }
                        return Some(&fields[i].1);
                    }
                    i += 1;
                }
                proof {
                    assert(fields@.skip(n as int) =~= Seq::<(String, Json)>::empty());
                }
                None
            },
            _ => None,
        }
    }
}

/// The position of the first field named `key`, for extracting its value
/// by removal.
pub fn find_key(fields: &Vec<(String, Json)>, key: &str) -> (r: Option<usize>)
    ensures
        match r {
            Some(i) => i < fields@.len() && fields@[i as int].0@ == key@ && spec_lookup(
                fields@,
                key@,
            ) == Some(fields@[i as int].1),
            None => spec_lookup(fields@, key@) is None,
        },
{
    let n = fields.len();
    let mut i: usize = 0;
    proof {
        assert(fields@.skip(0) =~= fields@);
    }
    while i < n
        invariant
            n == fields@.len(),
            i <= n,
            spec_lookup(fields@, key@) == spec_lookup(fields@.skip(i as int), key@),
        decreases n - i,
    {
        proof {
            assert(fields@.skip(i as int).drop_first() =~= fields@.skip(i + 1));
            assert(fields@.skip(i as int)[0] == fields@[i as int]);
        }
        if str_eq(fields[i].0.as_str(), key) {
            proof {
                assert(spec_lookup(fields@.skip(i as int), key@) == Some(fields@[i as int].1));
            }
            return Some(i);
        }
        i += 1;
    }
    proof {
        assert(fields@.skip(n as int) =~= Seq::<(String, Json)>::empty());
    }
    None
}

/// The text of `j` when it is a string value.
pub open spec fn spec_as_text(j: Json) -> Option<Seq<char>> {
    match j {
        Json::Text(s) => Some(s@),
        _ => None,
    }
}

/// The value of `j` when it is a number with an unsigned value.
pub open spec fn spec_as_u64(j: Json) -> Option<u64> {
    match j {
        Json::Num(n) => n.uint,
        _ => None,
    }
}

/// The elements of `j` when it is an array.
pub open spec fn spec_as_arr(j: Json) -> Option<Seq<Json>> {
    match j {
        Json::Arr(items) => Some(items@),
        _ => None,
    }
}

/// The string field named `key` of `j`, when present.
pub open spec fn spec_get_text(j: Json, key: Seq<char>) -> Option<Seq<char>> {
    match spec_get(j, key) {
        Some(v) => spec_as_text(v),
        None => None,
    }
}

/// The unsigned-number field named `key` of `j`, when present.
pub open spec fn spec_get_u64(j: Json, key: Seq<char>) -> Option<u64> {
    match spec_get(j, key) {
        Some(v) => spec_as_u64(v),
        None => None,
    }
}

impl Json {
    /// The string contents, on a string value.
    pub fn as_text<'a>(&'a self) -> (r: Option<&'a String>)
        ensures
            match r {
                Some(s) => spec_as_text(*self) == Some(s@),
                None => spec_as_text(*self) is None,
            },
    {
        match self {
            Json::Text(s) => Some(s),
            _ => None,
        }
    }

    /// The unsigned value, on a number that has one.
    pub fn as_u64(&self) -> (r: Option<u64>)
        ensures
            r == spec_as_u64(*self),
    {
        match self {
            Json::Num(n) => n.uint,
            _ => None,
        }
    }

    /// The elements, on an array value.
    pub fn as_arr<'a>(&'a self) -> (r: Option<&'a Vec<Json>>)
        ensures
            match r {
                Some(items) => spec_as_arr(*self) == Some(items@),
                None => spec_as_arr(*self) is None,
            },
    {
        match self {
            Json::Arr(items) => Some(items),
            _ => None,
        }
    }

    /// The string field named `key`, when this is an object that has one.
    pub fn get_text<'a>(&'a self, key: &str) -> (r: Option<&'a String>)
        ensures
            match r {
                Some(s) => spec_get_text(*self, key@) == Some(s@),
                None => spec_get_text(*self, key@) is None,
            },
    {
        match self.get(key) {
            Some(v) => v.as_text(),
            None => None,
        }
    }

    /// The unsigned-number field named `key`, when this is an object that has
    /// one.
    pub fn get_u64(&self, key: &str) -> (r: Option<u64>)
        ensures
            r == spec_get_u64(*self, key@),
    {
        match self.get(key) {
            Some(v) => v.as_u64(),
            None => None,
        }
    }
}

} // verus!
