//! JSON documents: a mathematical model of a document, and the operations of
//! `serde_json` through which the library reads and builds one.
//!
//! Every function here that is marked `external_body` is a single call into
//! `serde_json`; its contract is taken on trust from that crate's source.

use vstd::prelude::*;

verus! {

/// A JSON document as a mathematical value.
///
/// Integers and fractional numbers are kept apart, as `serde_json` keeps them
/// apart. A fractional number is modelled by the decimal text that Rust
/// prints for it, which tells any two of them apart.
pub enum Json {
    Null,
    Bool(bool),
    Int(int),
    Float(Seq<char>),
    Text(Seq<char>),
    List(Seq<Json>),
    Object(Map<Seq<char>, Json>),
}

#[verifier::external_type_specification]
#[verifier::external_body]
pub struct ExValue(serde_json::Value);

#[verifier::external_type_specification]
#[verifier::external_body]
#[verifier::reject_recursive_types(K)]
#[verifier::reject_recursive_types(V)]
pub struct ExMembers<K, V>(serde_json::Map<K, V>);

/// The document that a `serde_json::Value` holds.
pub uninterp spec fn json_of(v: serde_json::Value) -> Json;

/// The members that a `serde_json::Map` holds, by key.
pub uninterp spec fn members_of(m: serde_json::Map<String, serde_json::Value>) -> Map<Seq<char>, Json>;

/// The document that `serde_json::from_str` reads from a text; `None` where
/// the text is not exactly one JSON document.
pub uninterp spec fn json_parsed(text: Seq<char>) -> Option<Json>;

/// The compact text that `serde_json` writes for a document, members in the
/// order of their keys.
pub uninterp spec fn json_text(doc: Json) -> Seq<char>;

/// The decimal text that Rust prints for an integer taken as a 64-bit float.
pub uninterp spec fn int_as_decimal(n: int) -> Seq<char>;

/// The documents that a sequence of values holds.
pub open spec fn jsons_of(items: Seq<serde_json::Value>) -> Seq<Json> {
    items.map_values(|v: serde_json::Value| json_of(v))
}

/// The member of a document under a key, if the document is an object that
/// has one.
pub open spec fn field(doc: Json, key: Seq<char>) -> Option<Json> {
    match doc {
        Json::Object(m) => if m.contains_key(key) {
            Some(m[key])
        } else {
            None
        },
        _ => None,
    }
}

/// The members of an object without members.
pub open spec fn no_fields() -> Map<Seq<char>, Json> {
    Map::empty()
}

/// Reads a text as one JSON document: `serde_json::from_str` at
/// `serde_json::Value`. A text that is no JSON document gives `None`.
#[verifier::external_body]
pub(crate) fn parse_json(text: &str) -> (r: Option<serde_json::Value>)
    ensures
        match r {
            Some(v) => json_parsed(text@) == Some(json_of(v)),
            None => json_parsed(text@) is None,
        },
{
    match serde_json::from_str::<serde_json::Value>(text) {
        Ok(v) => Some(v),
        Err(_) => None,
    }
}

/// Writes a document as compact text: the `Display` of `serde_json::Value`.
#[verifier::external_body]
pub(crate) fn write_json(v: &serde_json::Value) -> (r: String)
    ensures
        r@ == json_text(json_of(*v)),
{
    v.to_string()
}

/// `serde_json::Value::get` with a string index: the member under `key`,
/// `None` where the value is no object or has no such member.
#[verifier::external_body]
pub(crate) fn member<'a>(v: &'a serde_json::Value, key: &str) -> (r: Option<&'a serde_json::Value>)
    ensures
        match r {
            Some(m) => field(json_of(*v), key@) == Some(json_of(*m)),
            None => field(json_of(*v), key@) is None,
        },
{
    v.get(key)
}

/// `serde_json::Value::as_str`: the text of a JSON string, `None` for any
/// other value.
#[verifier::external_body]
pub(crate) fn as_text<'a>(v: &'a serde_json::Value) -> (r: Option<&'a str>)
    ensures
        match r {
            Some(s) => json_of(*v) == Json::Text(s@),
            None => !(json_of(*v) is Text),
        },
{
    v.as_str()
}

/// `serde_json::Value::as_i64`: an integer that fits 64 signed bits, `None`
/// for a larger one, a fractional number or any other value.
#[verifier::external_body]
pub(crate) fn as_int(v: &serde_json::Value) -> (r: Option<i64>)
    ensures
        match r {
            Some(n) => json_of(*v) == Json::Int(n as int),
            None => !(json_of(*v) matches Json::Int(n) && i64::MIN <= n <= i64::MAX),
        },
{
    v.as_i64()
}

/// `serde_json::Value::is_object`.
#[verifier::external_body]
pub(crate) fn is_object(v: &serde_json::Value) -> (r: bool)
    ensures
        r == (json_of(*v) is Object),
{
    v.is_object()
}

/// `serde_json::Value::is_null`.
#[verifier::external_body]
pub(crate) fn is_null(v: &serde_json::Value) -> (r: bool)
    ensures
        r == (json_of(*v) is Null),
{
    v.is_null()
}

/// `serde_json::Value::as_array`: the items of a JSON array, `None` for any
/// other value.
#[verifier::external_body]
pub(crate) fn as_list<'a>(v: &'a serde_json::Value) -> (r: Option<&'a Vec<serde_json::Value>>)
    ensures
        match r {
            Some(items) => json_of(*v) == Json::List(jsons_of(items@)),
            None => !(json_of(*v) is List),
        },
{
    v.as_array()
}

/// `serde_json::Value::as_f64`, printed: the decimal text of a number as a
/// 64-bit float, `None` for a value that is no number.
#[verifier::external_body]
pub(crate) fn as_decimal(v: &serde_json::Value) -> (r: Option<String>)
    ensures
        match json_of(*v) {
            Json::Int(n) => r matches Some(s) && s@ == int_as_decimal(n),
            Json::Float(t) => r matches Some(s) && s@ == t,
            _ => r is None,
        },
{
    v.as_f64().map(|x| format!("{}", x))
}

/// The members of a JSON object as pairs, each key once
/// (`serde_json::Value::as_object` and `serde_json::Map::iter`); `None` for
/// a value that is no object.
#[verifier::external_body]
pub(crate) fn as_members(v: &serde_json::Value) -> (r: Option<Vec<(String, serde_json::Value)>>)
    ensures
        match r {
            Some(pairs) => json_of(*v) matches Json::Object(m) && {
                &&& forall|i: int, j: int|
                    0 <= i < j < pairs@.len() ==> (#[trigger] pairs@[i]).0@ != (#[trigger] pairs@[j]).0@
                &&& forall|i: int|
                    0 <= i < pairs@.len() ==> m.contains_key((#[trigger] pairs@[i]).0@) && m[pairs@[i].0@]
                        == json_of(pairs@[i].1)
                &&& forall|k: Seq<char>| #[trigger]
                    m.contains_key(k) ==> exists|i: int| 0 <= i < pairs@.len() && (#[trigger] pairs@[i]).0@ == k
            },
            None => !(json_of(*v) is Object),
        },
{
    v.as_object().map(|m| m.iter().map(|(k, x)| (k.clone(), x.clone())).collect())
}

/// `serde_json::Value::Null`.
#[verifier::external_body]
pub(crate) fn null_value() -> (r: serde_json::Value)
    ensures
        json_of(r) == Json::Null,
{
    serde_json::Value::Null
}

/// `serde_json::Value::Bool`.
#[verifier::external_body]
pub(crate) fn bool_value(b: bool) -> (r: serde_json::Value)
    ensures
        json_of(r) == Json::Bool(b),
{
    serde_json::Value::Bool(b)
}

/// `serde_json::Value::from` at `i64`: an integer number.
#[verifier::external_body]
pub(crate) fn int_value(n: i64) -> (r: serde_json::Value)
    ensures
        json_of(r) == Json::Int(n as int),
{
    serde_json::Value::from(n)
}

/// `serde_json::Value::String`.
#[verifier::external_body]
pub(crate) fn text_value(s: String) -> (r: serde_json::Value)
    ensures
        json_of(r) == Json::Text(s@),
{
    serde_json::Value::String(s)
}

/// `serde_json::Value::Array`.
#[verifier::external_body]
pub(crate) fn list_value(items: Vec<serde_json::Value>) -> (r: serde_json::Value)
    ensures
        json_of(r) == Json::List(jsons_of(items@)),
{
    serde_json::Value::Array(items)
}

/// `serde_json::Map::new`: no members.
#[verifier::external_body]
pub(crate) fn no_members() -> (r: serde_json::Map<String, serde_json::Value>)
    ensures
        members_of(r) == no_fields(),
{
    serde_json::Map::new()
}

/// `serde_json::Map::insert`: the member under `key` is `v` afterwards,
/// whether or not there was one; the others stay.
#[verifier::external_body]
pub(crate) fn set_member(m: &mut serde_json::Map<String, serde_json::Value>, key: String, v: serde_json::Value)
    ensures
        members_of(*final(m)) == members_of(*old(m)).insert(key@, json_of(v)),
{
    m.insert(key, v);
}

/// `serde_json::Value::Object`.
#[verifier::external_body]
pub(crate) fn object_value(m: serde_json::Map<String, serde_json::Value>) -> (r: serde_json::Value)
    ensures
        json_of(r) == Json::Object(members_of(m)),
{
    serde_json::Value::Object(m)
}

/// Puts a member into an object under construction.
pub(crate) fn put(m: &mut serde_json::Map<String, serde_json::Value>, key: &str, v: serde_json::Value)
    ensures
        members_of(*final(m)) == members_of(*old(m)).insert(key@, json_of(v)),
{
    set_member(m, key.to_owned(), v);
}

/// A value that stands for a JSON document and can build it.
pub trait Document {
    /// The document that the value stands for.
    spec fn json(&self) -> Json;

    /// Builds the document.
    fn to_json(&self) -> (r: serde_json::Value)
        ensures
            json_of(r) == self.json(),
    ;
}

/// `Clone` of `serde_json::Value`: the copy holds the same document.
pub assume_specification[ <serde_json::Value as Clone>::clone ](v: &serde_json::Value) -> (r: serde_json::Value)
    ensures
        json_of(r) == json_of(*v),
;

impl Document for serde_json::Value {
    open spec fn json(&self) -> Json {
        json_of(*self)
    }

    fn to_json(&self) -> (r: serde_json::Value) {
        self.clone()
    }
}

/// The documents that a sequence of values stands for.
pub open spec fn documents<T: Document>(items: Seq<T>) -> Seq<Json> {
    items.map_values(|x: T| x.json())
}

/// `m` with one member more where there is a document for it.
pub open spec fn with_member(m: Map<Seq<char>, Json>, key: Seq<char>, doc: Option<Json>) -> Map<Seq<char>, Json> {
    match doc {
        Some(d) => m.insert(key, d),
        None => m,
    }
}

/// The document of an optional text.
pub open spec fn text_doc(s: Option<String>) -> Option<Json> {
    match s {
        Some(t) => Some(Json::Text(t@)),
        None => None,
    }
}

/// The document of an optional 32-bit integer.
pub open spec fn int_doc(n: Option<i32>) -> Option<Json> {
    match n {
        Some(k) => Some(Json::Int(k as int)),
        None => None,
    }
}

/// The document of an optional truth value.
pub open spec fn bool_doc(b: Option<bool>) -> Option<Json> {
    match b {
        Some(k) => Some(Json::Bool(k)),
        None => None,
    }
}

/// The document of an optional value.
pub open spec fn opt_doc<T: Document>(x: Option<T>) -> Option<Json> {
    match x {
        Some(v) => Some(v.json()),
        None => None,
    }
}

/// Builds the array of the documents of `items`.
pub fn list_to_json<T: Document>(items: &Vec<T>) -> (r: serde_json::Value)
    ensures
        json_of(r) == Json::List(documents(items@)),
{
    let mut out: Vec<serde_json::Value> = Vec::new();
    let mut i: usize = 0;
    while i < items.len()
        invariant
            i <= items.len(),
            jsons_of(out@) == documents(items@.take(i as int)),
        decreases items.len() - i,
    {
        let v = items[i].to_json();
        let ghost before = out@;
        out.push(v);
        proof {
            assert(items@.take(i + 1) == items@.take(i as int).push(items@[i as int]));
            assert(jsons_of(out@) == jsons_of(before).push(json_of(v)));
            assert(documents(items@.take(i + 1)) == documents(items@.take(i as int)).push(
                items@[i as int].json(),
            ));
        }
        i += 1;
    }
    proof {
        assert(items@.take(i as int) == items@);
    }
    list_value(out)
}

/// Puts a text member into an object under construction.
pub(crate) fn put_text(m: &mut serde_json::Map<String, serde_json::Value>, key: &str, s: &str)
    ensures
        members_of(*final(m)) == members_of(*old(m)).insert(key@, Json::Text(s@)),
{
    set_member(m, key.to_owned(), text_value(s.to_owned()));
}

/// Puts a truth value into an object under construction.
pub(crate) fn put_bool(m: &mut serde_json::Map<String, serde_json::Value>, key: &str, b: bool)
    ensures
        members_of(*final(m)) == members_of(*old(m)).insert(key@, Json::Bool(b)),
{
    set_member(m, key.to_owned(), bool_value(b));
}

/// Puts an integer into an object under construction.
pub(crate) fn put_int(m: &mut serde_json::Map<String, serde_json::Value>, key: &str, n: i64)
    ensures
        members_of(*final(m)) == members_of(*old(m)).insert(key@, Json::Int(n as int)),
{
    set_member(m, key.to_owned(), int_value(n));
}

/// Puts the document of `x` into an object under construction.
pub(crate) fn put_doc<T: Document>(m: &mut serde_json::Map<String, serde_json::Value>, key: &str, x: &T)
    ensures
        members_of(*final(m)) == members_of(*old(m)).insert(key@, x.json()),
{
    set_member(m, key.to_owned(), x.to_json());
}

/// Puts a text member where there is a text.
pub(crate) fn put_opt_text(m: &mut serde_json::Map<String, serde_json::Value>, key: &str, s: &Option<String>)
    ensures
        members_of(*final(m)) == with_member(members_of(*old(m)), key@, text_doc(*s)),
{
    match s {
        Some(t) => put_text(m, key, t.as_str()),
        None => {},
    }
}

/// Puts an integer member where there is an integer.
pub(crate) fn put_opt_int(m: &mut serde_json::Map<String, serde_json::Value>, key: &str, n: &Option<i32>)
    ensures
        members_of(*final(m)) == with_member(members_of(*old(m)), key@, int_doc(*n)),
{
    match n {
        Some(k) => put_int(m, key, *k as i64),
        None => {},
    }
}

/// Puts a truth value where there is one.
pub(crate) fn put_opt_bool(m: &mut serde_json::Map<String, serde_json::Value>, key: &str, b: &Option<bool>)
    ensures
        members_of(*final(m)) == with_member(members_of(*old(m)), key@, bool_doc(*b)),
{
    match b {
        Some(k) => put_bool(m, key, *k),
        None => {},
    }
}

/// Puts the document of a value where there is a value.
pub(crate) fn put_opt_doc<T: Document>(m: &mut serde_json::Map<String, serde_json::Value>, key: &str, x: &Option<T>)
    ensures
        members_of(*final(m)) == with_member(members_of(*old(m)), key@, opt_doc(*x)),
{
    match x {
        Some(v) => put_doc(m, key, v),
        None => {},
    }
}

} // verus!
