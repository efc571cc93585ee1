//! A structural model of JSON values, with verified navigation.
//!
//! Parsing bytes into the tree is delegated to serde_json behind a trusted
//! wrapper; everything that *reads* the tree — field lookup, coercions, the
//! response extractors in [`crate::netease`] — is the library's own verified
//! code over [`JsonValue`].

use vstd::prelude::*;

verus! {

/// A parsed JSON document. Numbers the library reads are unsigned integers;
/// any other number (fractional, negative, too large) is kept only as
/// [`JsonValue::OtherNumber`], which no lookup coerces.
pub enum JsonValue {
    Null,
    Bool(bool),
    UInt(u64),
    OtherNumber,
    Text(String),
    Arr(Vec<JsonValue>),
    Obj(Vec<(String, JsonValue)>),
}

/// The value of the first member named `key`, searching pairs in document
/// order.
pub open spec fn spec_lookup(pairs: Seq<(String, JsonValue)>, key: Seq<char>) -> Option<JsonValue>
    decreases pairs.len(),
{
    if pairs.len() == 0 {
        Option::None
    } else if pairs[0].0@ == key {
        Option::Some(pairs[0].1)
    } else {
        spec_lookup(pairs.drop_first(), key)
    }
}

/// The member named `key` of an object; `None` on anything else.
pub open spec fn spec_get(v: JsonValue, key: Seq<char>) -> Option<JsonValue> {
    match v {
        JsonValue::Obj(pairs) => spec_lookup(pairs@, key),
        _ => Option::None,
    }
}

/// The characters of a string value; `None` on anything else.
pub open spec fn spec_as_str(v: JsonValue) -> Option<Seq<char>> {
    match v {
        JsonValue::Text(s) => Option::Some(s@),
        _ => Option::None,
    }
}

/// The value of an unsigned integer; `None` on anything else.
pub open spec fn spec_as_u64(v: JsonValue) -> Option<u64> {
    match v {
        JsonValue::UInt(n) => Option::Some(n),
        _ => Option::None,
    }
}

/// The elements of an array value; `None` on anything else.
pub open spec fn spec_as_arr(v: JsonValue) -> Option<Seq<JsonValue>> {
    match v {
        JsonValue::Arr(a) => Option::Some(a@),
        _ => Option::None,
    }
}

/// `spec_get` then `spec_as_u64`.
pub open spec fn spec_get_u64(v: JsonValue, key: Seq<char>) -> Option<u64> {
    match spec_get(v, key) {
        Option::Some(x) => spec_as_u64(x),
        Option::None => Option::None,
    }
}

/// The integer member named `key`, or `default` when missing or not an
/// unsigned integer.
pub open spec fn spec_get_u64_or(v: JsonValue, key: Seq<char>, default: u64) -> u64 {
    match spec_get_u64(v, key) {
        Option::Some(n) => n,
        Option::None => default,
    }
}

/// `spec_get` then `spec_as_str`.
pub open spec fn spec_get_str(v: JsonValue, key: Seq<char>) -> Option<Seq<char>> {
    match spec_get(v, key) {
        Option::Some(x) => spec_as_str(x),
        Option::None => Option::None,
    }
}

/// `spec_get` then `spec_as_arr`.
pub open spec fn spec_get_arr(v: JsonValue, key: Seq<char>) -> Option<Seq<JsonValue>> {
    match spec_get(v, key) {
        Option::Some(x) => spec_as_arr(x),
        Option::None => Option::None,
    }
}

/// The first member named `key`, searched in document order.
fn lookup<'a>(pairs: &'a Vec<(String, JsonValue)>, key: &str) -> (r: Option<&'a JsonValue>)
    ensures
        match r {
            Option::Some(x) => spec_lookup(pairs@, key@) == Option::Some(*x),
            Option::None => spec_lookup(pairs@, key@) is None,
        },
{
    let n = pairs.len();
    proof {
        assert(pairs@.skip(0) =~= pairs@);
    }
    for i in 0..n
        invariant
            n == pairs@.len(),
            spec_lookup(pairs@, key@) == spec_lookup(pairs@.skip(i as int), key@),
    {
        proof {
            assert(pairs@.skip(i as int)[0] == pairs@[i as int]);
            assert(pairs@.skip(i as int).drop_first() =~= pairs@.skip(i + 1));
        }
        if crate::strutil::str_eq(pairs[i].0.as_str(), key) {
            proof {
                assert(pairs@.skip(i as int)[0].0@ == key@);
                assert(spec_lookup(pairs@.skip(i as int), key@) == Option::Some(
                    pairs@[i as int].1,
                ));
            }
            return Option::Some(&pairs[i].1);
        }
    }
    Option::None
}

impl JsonValue {
    /// The member named `key` of an object.
    pub fn get<'a>(&'a self, key: &str) -> (r: Option<&'a JsonValue>)
        ensures
            match r {
                Option::Some(x) => spec_get(*self, key@) == Option::Some(*x),
                Option::None => spec_get(*self, key@) is None,
            },
    {
        match self {
            JsonValue::Obj(pairs) => lookup(pairs, key),
            _ => Option::None,
        }
    }

    /// The characters of a string value.
    pub fn as_str<'a>(&'a self) -> (r: Option<&'a String>)
        ensures
            match r {
                Option::Some(s) => spec_as_str(*self) == Option::Some(s@),
                Option::None => spec_as_str(*self) is None,
            },
    {
        match self {
            JsonValue::Text(s) => Option::Some(s),
            _ => Option::None,
        }
    }

    /// The value of an unsigned integer.
    pub fn as_u64(&self) -> (r: Option<u64>)
        ensures
            r == spec_as_u64(*self),
    {
        match self {
            JsonValue::UInt(n) => Option::Some(*n),
            _ => Option::None,
        }
    }

    /// The elements of an array value.
    pub fn as_array<'a>(&'a self) -> (r: Option<&'a Vec<JsonValue>>)
        ensures
            match r {
                Option::Some(a) => spec_as_arr(*self) == Option::Some(a@),
                Option::None => spec_as_arr(*self) is None,
            },
    {
        match self {
            JsonValue::Arr(a) => Option::Some(a),
            _ => Option::None,
        }
    }

    /// The integer member named `key`, or `default`.
    pub fn get_u64_or(&self, key: &str, default: u64) -> (r: u64)
        ensures
            r == spec_get_u64_or(*self, key@, default),
    {
        match self.get(key) {
            Option::Some(x) => match x.as_u64() {
                Option::Some(n) => n,
                Option::None => default,
            },
            Option::None => default,
        }
    }

    /// The string member named `key`.
    pub fn get_str<'a>(&'a self, key: &str) -> (r: Option<&'a String>)
        ensures
            match r {
                Option::Some(s) => spec_get_str(*self, key@) == Option::Some(s@),
                Option::None => spec_get_str(*self, key@) is None,
            },
    {
        match self.get(key) {
            Option::Some(x) => x.as_str(),
            Option::None => Option::None,
        }
    }

    /// The array member named `key`.
    pub fn get_array<'a>(&'a self, key: &str) -> (r: Option<&'a Vec<JsonValue>>)
        ensures
            match r {
                Option::Some(a) => spec_get_arr(*self, key@) == Option::Some(a@),
                Option::None => spec_get_arr(*self, key@) is None,
            },
    {
        match self.get(key) {
            Option::Some(x) => x.as_array(),
            Option::None => Option::None,
        }
    }
}

/// The tree, if any, that a text parses to as JSON: what serde_json answers,
/// which depends on the text alone.
pub uninterp spec fn json_parse(s: Seq<char>) -> Option<JsonValue>;

#[verifier::external_type_specification]
#[verifier::external_body]
pub struct ExSerdeValue(serde_json::Value);

/// Relies on serde_json::Value: one arm per variant of the parsed tree,
/// keeping integer numbers through `Number::as_u64`.
#[verifier::external_body]
fn convert_value(v: serde_json::Value) -> JsonValue {
    match v {
        serde_json::Value::Null => JsonValue::Null,
        serde_json::Value::Bool(b) => JsonValue::Bool(b),
        serde_json::Value::Number(n) => match n.as_u64() {
            Some(u) => JsonValue::UInt(u),
            None => JsonValue::OtherNumber,
        },
        serde_json::Value::String(s) => JsonValue::Text(s),
        serde_json::Value::Array(a) => JsonValue::Arr(a.into_iter().map(convert_value).collect()),
        serde_json::Value::Object(m) => JsonValue::Obj(
            m.into_iter().map(|(k, x)| (k, convert_value(x))).collect(),
        ),
    }
}

/// Parses a JSON text, `None` when it is not valid JSON.
///
/// Relies on serde_json::from_str: parsing is a function of the text alone,
/// named by [`json_parse`].
#[verifier::external_body]
pub fn parse_json(s: &str) -> (r: Option<JsonValue>)
    ensures
        r == json_parse(s@),
{
    match serde_json::from_str::<serde_json::Value>(s) {
        Ok(v) => Some(convert_value(v)),
        Err(_) => None,
    }
}

} // verus!
