//! The boundary to `serde_json`: its value types, a mathematical model of what
//! they hold, and one small wrapper per operation that the library calls.
//!
//! Nothing in this file is proved. Each wrapper's contract records what the
//! `serde_json` function it calls is documented to do, over the model below.

use vstd::prelude::*;

verus! {

/// `serde_json::Value`, any JSON value. Verus sees nothing inside it; what it
/// holds is named by [`json`].
#[verifier::external_type_specification]
#[verifier::external_body]
pub struct ExValue(serde_json::Value);

/// `serde_json::Number`, a JSON number. What it holds is named by [`num`].
#[verifier::external_type_specification]
#[verifier::external_body]
pub struct ExNumber(serde_json::Number);

/// `serde_json::Map`, the members of a JSON object. What it holds is named
/// by [`members`].
#[verifier::external_type_specification]
#[verifier::external_body]
#[verifier::reject_recursive_types(K)]
#[verifier::reject_recursive_types(V)]
pub struct ExObject<K, V>(serde_json::Map<K, V>);

/// A JSON number as a mathematical value: the integer itself where
/// `serde_json` holds the number as an integer, and the number as
/// `serde_json` holds it where it does not (one written with a fraction or
/// an exponent, or beyond 64 bits).
pub enum Num {
    Int(int),
    Other(serde_json::Number),
}

/// A JSON document as a mathematical value.
///
/// Objects are maps from member name to member value, so member order plays
/// no part in the model.
pub enum Json {
    Null,
    Bool(bool),
    Number(Num),
    Text(Seq<char>),
    Array(Seq<Json>),
    Object(Map<Seq<char>, Json>),
}

/// The document that a `serde_json::Value` holds.
pub uninterp spec fn json(v: serde_json::Value) -> Json;

/// The members that a `serde_json::Map` holds.
pub uninterp spec fn members(m: serde_json::Map<String, serde_json::Value>) -> Map<Seq<char>, Json>;

/// The number that a `serde_json::Number` holds.
pub uninterp spec fn num(n: serde_json::Number) -> Num;

/// The document that `serde_json::from_slice` reads from a byte string, if it
/// accepts the bytes.
pub uninterp spec fn parsed(bytes: Seq<u8>) -> Option<Json>;

/// The compact text that `serde_json` writes for a value.
pub uninterp spec fn rendered(v: serde_json::Value) -> Seq<u8>;

/// The documents held by a sequence of values, in order.
pub open spec fn jsons(items: Seq<serde_json::Value>) -> Seq<Json> {
    items.map_values(|v: serde_json::Value| json(v))
}

/// The 64-bit signed integer that a document denotes, if it is a number that
/// is an integer in that range.
pub open spec fn json_i64(j: Json) -> Option<i64> {
    match j {
        Json::Number(Num::Int(i)) => if i64::MIN <= i <= i64::MAX {
            Some(i as i64)
        } else {
            None
        },
        _ => None,
    }
}

/// `Result::clone` of std, of which nothing is stated.
pub assume_specification<T: Clone, E: Clone>[ <Result<T, E> as Clone>::clone ](
    x: &Result<T, E>,
) -> (r: Result<T, E>)
;

/// `Value::clone`: a value that holds the same document.
pub assume_specification[ <serde_json::Value as Clone>::clone ](v: &serde_json::Value) -> (r:
    serde_json::Value)
    ensures
        json(r) == json(*v),
;

/// `Number::clone`: the same number.
pub assume_specification[ <serde_json::Number as Clone>::clone ](n: &serde_json::Number) -> (r:
    serde_json::Number)
    ensures
        num(r) == num(*n),
;

/// `Map::clone`: a map that holds the same members.
pub assume_specification[ <serde_json::Map<String, serde_json::Value> as Clone>::clone ](
    m: &serde_json::Map<String, serde_json::Value>,
) -> (r: serde_json::Map<String, serde_json::Value>)
    ensures
        members(r) == members(*m),
;

/// `serde_json::from_slice` at type `Value`: succeeds exactly on the byte
/// strings that it accepts as JSON text, and then yields the document they
/// denote. The syntax error it reports otherwise is dropped.
#[verifier::external_body]
pub(crate) fn parse_value(bytes: &[u8]) -> (r: Option<serde_json::Value>)
    ensures
        match r {
            Some(v) => parsed(bytes@) == Some(json(v)),
            None => parsed(bytes@) is None,
        },
{
    serde_json::from_slice(bytes).ok()
}

/// `Value`'s `Display`, which writes the value as compact JSON text.
#[verifier::external_body]
pub(crate) fn render_value(v: &serde_json::Value) -> (r: Vec<u8>)
    ensures
        r@ == rendered(*v),
{
    v.to_string().into_bytes()
}

/// `Value`'s `==`: deep structural equality of the two documents.
#[verifier::external_body]
pub(crate) fn value_eq(a: &serde_json::Value, b: &serde_json::Value) -> (r: bool)
    ensures
        r == (json(*a) == json(*b)),
{
    a == b
}

/// `Value::is_null`.
#[verifier::external_body]
pub(crate) fn value_is_null(v: &serde_json::Value) -> (r: bool)
    ensures
        r == (json(*v) is Null),
{
    v.is_null()
}

/// `Value::as_str`, copied out: the text of a string value, nothing for any
/// other shape.
#[verifier::external_body]
pub(crate) fn value_as_text(v: &serde_json::Value) -> (r: Option<String>)
    ensures
        match r {
            Some(s) => json(*v) == Json::Text(s@),
            None => !(json(*v) is Text),
        },
{
    v.as_str().map(String::from)
}

/// `Value::as_number`, copied out: the number of a number value, nothing for
/// any other shape.
#[verifier::external_body]
pub(crate) fn value_as_number(v: &serde_json::Value) -> (r: Option<serde_json::Number>)
    ensures
        match r {
            Some(n) => json(*v) == Json::Number(num(n)),
            None => !(json(*v) is Number),
        },
{
    v.as_number().cloned()
}

/// `Value::as_i64`: the integer of a number value that is an integer within
/// the range of `i64`, nothing otherwise.
#[verifier::external_body]
pub(crate) fn value_as_i64(v: &serde_json::Value) -> (r: Option<i64>)
    ensures
        r == json_i64(json(*v)),
{
    v.as_i64()
}

/// `Value::as_array`, copied out: the elements of an array value in order,
/// nothing for any other shape.
#[verifier::external_body]
pub(crate) fn value_as_array(v: &serde_json::Value) -> (r: Option<Vec<serde_json::Value>>)
    ensures
        match r {
            Some(items) => json(*v) == Json::Array(jsons(items@)),
            None => !(json(*v) is Array),
        },
{
    v.as_array().cloned()
}

/// `Value::as_object`, copied out: the members of an object value, nothing
/// for any other shape.
#[verifier::external_body]
pub(crate) fn value_as_object(v: &serde_json::Value) -> (r: Option<
    serde_json::Map<String, serde_json::Value>,
>)
    ensures
        match r {
            Some(m) => json(*v) == Json::Object(members(m)),
            None => !(json(*v) is Object),
        },
{
    v.as_object().cloned()
}

/// The variant `Value::Null`.
#[verifier::external_body]
pub(crate) fn value_null() -> (r: serde_json::Value)
    ensures
        json(r) == Json::Null,
{
    serde_json::Value::Null
}

/// The variant `Value::String`.
#[verifier::external_body]
pub(crate) fn value_from_text(s: String) -> (r: serde_json::Value)
    ensures
        json(r) == Json::Text(s@),
{
    serde_json::Value::String(s)
}

/// The variant `Value::Number`.
#[verifier::external_body]
pub(crate) fn value_from_number(n: serde_json::Number) -> (r: serde_json::Value)
    ensures
        json(r) == Json::Number(num(n)),
{
    serde_json::Value::Number(n)
}

/// `Value::from` at `i64`: a number value that stands for the given integer.
#[verifier::external_body]
pub(crate) fn value_from_i64(i: i64) -> (r: serde_json::Value)
    ensures
        json(r) == Json::Number(Num::Int(i as int)),
{
    serde_json::Value::from(i)
}

/// The variant `Value::Array`.
#[verifier::external_body]
pub(crate) fn value_from_array(items: Vec<serde_json::Value>) -> (r: serde_json::Value)
    ensures
        json(r) == Json::Array(jsons(items@)),
{
    serde_json::Value::Array(items)
}

/// The variant `Value::Object`.
#[verifier::external_body]
pub(crate) fn value_from_object(m: serde_json::Map<String, serde_json::Value>) -> (r:
    serde_json::Value)
    ensures
        json(r) == Json::Object(members(m)),
{
    serde_json::Value::Object(m)
}

/// `Map::new`: a map without members.
#[verifier::external_body]
pub(crate) fn object_new() -> (r: serde_json::Map<String, serde_json::Value>)
    ensures
        members(r) =~= Map::empty(),
{
    serde_json::Map::new()
}

/// `Map::insert`: the member of that name is set to the value, the other
/// members stay.
#[verifier::external_body]
pub(crate) fn object_insert(
    m: &mut serde_json::Map<String, serde_json::Value>,
    name: &str,
    v: serde_json::Value,
)
    ensures
        members(*final(m)) == members(*old(m)).insert(name@, json(v)),
{
    m.insert(name.to_owned(), v);
}

/// `Map::get`, copied out: the value of the member of that name, nothing if
/// there is no such member.
#[verifier::external_body]
pub(crate) fn object_get(m: &serde_json::Map<String, serde_json::Value>, name: &str) -> (r: Option<
    serde_json::Value,
>)
    ensures
        match r {
            Some(v) => members(*m).contains_key(name@) && members(*m)[name@] == json(v),
            None => !members(*m).contains_key(name@),
        },
{
    m.get(name).cloned()
}

/// `Map::len`: the number of members.
#[verifier::external_body]
pub(crate) fn object_len(m: &serde_json::Map<String, serde_json::Value>) -> (r: usize)
    ensures
        r == members(*m).dom().len(),
{
    m.len()
}

/// `Map::iter`, copied out: every member once, each under its own name. The
/// order of the entries is the map's and is not stated.
#[verifier::external_body]
pub(crate) fn object_entries(m: &serde_json::Map<String, serde_json::Value>) -> (r: Vec<
    (String, serde_json::Value),
>)
    ensures
        r@.len() == members(*m).dom().len(),
        forall|k: Seq<char>| #[trigger]
            members(*m).contains_key(k) ==> exists|i: int|
                0 <= i < r@.len() && #[trigger] r@[i].0@ == k,
        forall|i: int|
            0 <= i < r@.len() ==> members(*m).contains_key(#[trigger] r@[i].0@)
                && members(*m)[r@[i].0@] == json(r@[i].1),
        forall|i: int, j: int|
            0 <= i < j < r@.len() ==> #[trigger] r@[i].0@ != #[trigger] r@[j].0@,
{
    m.iter().map(|(k, v)| (k.clone(), v.clone())).collect()
}

} // verus!
