//! JSON documents as mathematical values, and the boundary to `serde_json`.
//!
//! Everything the crate proves about a `serde_json::Value` is stated over
//! [`value_json`], the document that the value holds. The items of this module
//! that are marked as external say how `serde_json`'s constructors and accessors
//! act on that document; they are believed, not proved.

use serde_json::Value;
use vstd::prelude::*;

verus! {

/// The members of a JSON object, by key.
pub type Members = Map<Seq<char>, Json>;

/// A JSON document.
pub enum Json {
    Null,
    Bool(bool),
    /// An integer that fits in 64 bits, with or without a sign.
    Int(int),
    /// Any other number: one written with a fraction or an exponent, or an integer
    /// too large for 64 bits. Its value is not modelled.
    Real,
    Str(Seq<char>),
    Array(Seq<Json>),
    Object(Members),
}

impl Json {
    /// The object without members.
    pub open spec fn object() -> Json {
        Json::Object(Members::empty())
    }

    /// This object with `value` stored under `key`, in place of what was there.
    pub open spec fn with(self, key: Seq<char>, value: Json) -> Json {
        match self {
            Json::Object(members) => Json::Object(members.insert(key, value)),
            other => other,
        }
    }

    /// The member stored under `key`, if this document is an object that has one.
    pub open spec fn field(self, key: Seq<char>) -> Option<Json> {
        match self {
            Json::Object(members) if members.contains_key(key) => Some(members[key]),
            _ => None,
        }
    }

    /// The member stored under `inner` in the member stored under `outer`.
    pub open spec fn nested(self, outer: Seq<char>, inner: Seq<char>) -> Option<Json> {
        match self.field(outer) {
            Some(member) => member.field(inner),
            None => None,
        }
    }

    /// The number this document stands for, if it is an integer that fits in 32 bits
    /// without a sign.
    pub open spec fn as_u32(self) -> Option<u32> {
        match self {
            Json::Int(n) if 0 <= n <= u32::MAX => Some(n as u32),
            _ => None,
        }
    }

    /// The array of the given strings.
    pub open spec fn strings(items: Seq<String>) -> Json {
        Json::Array(items.map_values(|s: String| Json::Str(s@)))
    }
}

/// `serde_json::Value`, carried through without a look inside.
#[verifier::external_type_specification]
#[verifier::external_body]
pub struct ExValue(serde_json::Value);

/// `serde_json::Map`, carried through without a look inside.
#[verifier::external_type_specification]
#[verifier::external_body]
#[verifier::reject_recursive_types(K)]
#[verifier::reject_recursive_types(V)]
pub struct ExMap<K, V>(serde_json::Map<K, V>);

/// The document that a `serde_json::Value` holds. A number that `serde_json` keeps
/// as an integer is an [`Json::Int`], one that it keeps as a float is a
/// [`Json::Real`].
pub uninterp spec fn value_json(v: serde_json::Value) -> Json;

/// The members that a `serde_json::Map` holds, each value as the document it holds.
pub uninterp spec fn map_json(m: serde_json::Map<String, serde_json::Value>) -> Members;

/// The text that `{:?}` prints for `Some(payload)`.
pub uninterp spec fn payload_debug(payload: serde_json::Value) -> Seq<char>;

/// The documents that a sequence of values holds, in order.
pub open spec fn values_json(values: Seq<Value>) -> Seq<Json> {
    values.map_values(|v: Value| value_json(v))
}

/// `Value::is_null`: true for the `Null` variant and for no other.
pub assume_specification[ serde_json::Value::is_null ](v: &serde_json::Value) -> (b: bool)
    ensures
        b == (value_json(*v) is Null),
;

/// `Value::as_str`: the text of the `String` variant, nothing for any other.
pub assume_specification[ serde_json::Value::as_str ](v: &serde_json::Value) -> (text: Option<&str>)
    ensures
        match value_json(*v) {
            Json::Str(s) => text is Some && text.unwrap()@ == s,
            _ => text is None,
        },
;

/// `Value::as_u64`: the number of the `Number` variant where it is an integer that
/// is not negative, nothing for a negative integer, for a number with a fraction or
/// an exponent, and for any other variant.
pub assume_specification[ serde_json::Value::as_u64 ](v: &serde_json::Value) -> (n: Option<u64>)
    ensures
        n == match value_json(*v) {
            Json::Int(i) if 0 <= i <= u64::MAX => Some(i as u64),
            _ => None,
        },
;

/// `Value::as_array`: the elements of the `Array` variant, nothing for any other.
pub assume_specification[ serde_json::Value::as_array ](v: &serde_json::Value) -> (items: Option<&Vec<serde_json::Value>>)
    ensures
        match value_json(*v) {
            Json::Array(docs) => items is Some && values_json(items.unwrap()@) == docs,
            _ => items is None,
        },
;

/// `Value::clone`: a value equal to the one it was made from.
pub assume_specification[ <serde_json::Value as Clone>::clone ](v: &serde_json::Value) -> (copy: serde_json::Value)
    ensures
        copy == *v,
;

/// `Map::new`: a map without members.
pub assume_specification[ serde_json::Map::<String, serde_json::Value>::new ]() -> (m: serde_json::Map<String, serde_json::Value>)
    ensures
        map_json(m) == Members::empty(),
;

/// `Map::insert`: stores `v` under `k`, in place of what was stored under `k` before,
/// and leaves the other members as they were.
pub assume_specification[ serde_json::Map::<String, serde_json::Value>::insert ](
    m: &mut serde_json::Map<String, serde_json::Value>,
    k: String,
    v: serde_json::Value,
) -> (previous: Option<serde_json::Value>)
    ensures
        map_json(*final(m)) == map_json(*old(m)).insert(k@, value_json(v)),
;

/// `Value::get` with a string key: the member under `key` where the value is the
/// `Object` variant and has one, nothing otherwise.
#[verifier::external_body]
pub(crate) fn member<'a>(v: &'a Value, key: &str) -> (found: Option<&'a Value>)
    ensures
        match value_json(*v).field(key@) {
            Some(doc) => found is Some && value_json(*found.unwrap()) == doc,
            None => found is None,
        },
{
    v.get(key)
}

/// `Value::Null`: the null document.
#[verifier::external_body]
pub(crate) fn null() -> (v: Value)
    ensures
        value_json(v) == Json::Null,
{
    Value::Null
}

/// `Value::Bool`: the document `true` or `false`.
#[verifier::external_body]
pub(crate) fn boolean(b: bool) -> (v: Value)
    ensures
        value_json(v) == Json::Bool(b),
{
    Value::Bool(b)
}

/// `Value::from` on a `u64`: the integer `n` as a number.
#[verifier::external_body]
pub(crate) fn number(n: u64) -> (v: Value)
    ensures
        value_json(v) == Json::Int(n as int),
{
    Value::from(n)
}

/// `Value::String`: the string with the text of `s`.
#[verifier::external_body]
pub(crate) fn string(s: String) -> (v: Value)
    ensures
        value_json(v) == Json::Str(s@),
{
    Value::String(s)
}

/// `Value::Array`: the array of the documents of `items`, in their order.
#[verifier::external_body]
pub(crate) fn array(items: Vec<Value>) -> (v: Value)
    ensures
        value_json(v) == Json::Array(values_json(items@)),
{
    Value::Array(items)
}

/// `Value::Object`: the object with the members of `m`.
#[verifier::external_body]
pub(crate) fn object(m: serde_json::Map<String, Value>) -> (v: Value)
    ensures
        value_json(v) == Json::Object(map_json(m)),
{
    Value::Object(m)
}

/// `Debug` of `serde_json::Value`, on the payload wrapped in `Some`: the text is
/// named, not described.
#[verifier::external_body]
pub(crate) fn debug_text(payload: &Value) -> (text: String)
    ensures
        text@ == payload_debug(*payload),
{
    format!("{:?}", Some(payload))
}

/// The array of the given strings, as a value.
pub fn strings(items: &Vec<String>) -> (v: Value)
    ensures
        value_json(v) == Json::strings(items@),
{
    let mut out: Vec<Value> = Vec::new();
    for i in 0..items.len()
        invariant
            out@.len() == i,
            forall|k: int| 0 <= k < i ==> value_json(#[trigger] out@[k]) == Json::Str(items@[k]@),
    {
        out.push(string(items[i].clone()));
    }
    assert(values_json(out@) =~= items@.map_values(|s: String| Json::Str(s@)));
    array(out)
}

/// The number that `v` holds, if it is an integer that fits in 32 bits without a sign.
pub fn as_u32(v: &Value) -> (n: Option<u32>)
    ensures
        n == value_json(*v).as_u32(),
{
    match v.as_u64() {
        Some(wide) => if wide <= 0xffff_ffff {
            Some(wide as u32)
        } else {
            None
        },
        None => None,
    }
}

} // verus!
