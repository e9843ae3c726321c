//! JSON documents, abstractly.
//!
//! The JSON grammar itself is serde_json's work: text is parsed into and
//! written from `serde_json::Value` behind trusted wrappers. The crate
//! reasons about such a value only through [`JsonData`], its abstract
//! content, and the schema layer on top of it is fully verified.

use vstd::prelude::*;

verus! {

/// Abstract content of a JSON document. Strings, arrays and objects are
/// modeled exactly; a number's value is not modeled, because no schema of
/// this crate reads one. An object is a map from field name to content, as
/// serde_json keeps it (one entry per name).
pub enum JsonData {
    Null,
    Bool(bool),
    Num,
    Str(Seq<char>),
    Arr(Seq<JsonData>),
    Obj(Map<Seq<char>, JsonData>),
}

#[verifier::external_type_specification]
#[verifier::external_body]
pub struct ExValue(serde_json::Value);

/// What a `serde_json::Value` holds, as an abstract JSON document.
pub uninterp spec fn json_view(v: serde_json::Value) -> JsonData;

/// What `serde_json::from_slice::<Value>` returns on given bytes: the
/// document they spell, or `None` when they are not valid JSON.
pub uninterp spec fn parsed_json(b: Seq<u8>) -> Option<JsonData>;

/// Whether a document nests arrays and objects at most `n` levels deep.
pub open spec fn within_depth(j: JsonData, n: nat) -> bool
    decreases n,
{
    match j {
        JsonData::Arr(s) => n > 0 && (forall|i: int|
            0 <= i < s.len() ==> within_depth(#[trigger] s[i], (n - 1) as nat)),
        JsonData::Obj(m) => n > 0 && (forall|k: Seq<char>|
            m.dom().contains(k) ==> within_depth(#[trigger] m[k], (n - 1) as nat)),
        _ => true,
    }
}

/// Relies on `serde_json::from_slice::<Value>`: the parse result is a
/// function of the bytes alone.
#[verifier::external_body]
pub fn json_parse(b: &[u8]) -> (r: Option<serde_json::Value>)
    ensures
        r matches Some(v) ==> parsed_json(b@) == Some(json_view(v)),
        r is None ==> parsed_json(b@) is None,
{
    serde_json::from_slice::<serde_json::Value>(b).ok()
}

/// Relies on `serde_json::to_vec` on a `Value`. Serialization itself cannot
/// fail: every map key of a `Value` is a string, and writing into a `Vec`
/// is infallible, so the `unwrap` never fires. The output is JSON text of
/// the same document; but where the writer has no depth limit, the reader
/// stops at 128 nested containers, so the parse-back claim is made only for
/// documents nested at most 127 deep.
#[verifier::external_body]
pub fn json_to_bytes(v: &serde_json::Value) -> (r: Vec<u8>)
    ensures
        within_depth(json_view(*v), 127) ==> parsed_json(r@) == Some(json_view(*v)),
{
    serde_json::to_vec(v).unwrap()
}

/// Relies on serde_json's `Value::get` with a string index: field lookup on
/// an object, `None` on every other kind of value.
#[verifier::external_body]
pub fn json_get<'a>(v: &'a serde_json::Value, key: &str) -> (r: Option<
    &'a serde_json::Value,
>)
    ensures
        match json_view(*v) {
            JsonData::Obj(m) => {
                &&& (r is Some) == m.dom().contains(key@)
                &&& (r matches Some(w) ==> json_view(*w) == m[key@])
            },
            _ => r is None,
        },
{
    v.get(key)
}

/// Relies on serde_json's `Value::as_str`.
#[verifier::external_body]
pub fn json_as_str<'a>(v: &'a serde_json::Value) -> (r: Option<&'a str>)
    ensures
        match json_view(*v) {
            JsonData::Str(s) => r matches Some(t) && t@ == s,
            _ => r is None,
        },
{
    v.as_str()
}

/// Relies on serde_json's `Value::as_array`.
#[verifier::external_body]
pub fn json_as_array<'a>(v: &'a serde_json::Value) -> (r: Option<
    &'a Vec<serde_json::Value>,
>)
    ensures
        match json_view(*v) {
            JsonData::Arr(s) => r matches Some(a) && a@.len() == s.len() && (forall|i: int|
                0 <= i < s.len() ==> json_view(a@[i]) == s[i]),
            _ => r is None,
        },
{
    v.as_array()
}

/// Relies on serde_json's `Value::is_object`.
#[verifier::external_body]
pub fn json_is_object(v: &serde_json::Value) -> (r: bool)
    ensures
        r == (json_view(*v) is Obj),
{
    v.is_object()
}

/// Relies on serde_json's `Value::is_null`.
#[verifier::external_body]
pub fn json_is_null(v: &serde_json::Value) -> (r: bool)
    ensures
        r == (json_view(*v) is Null),
{
    v.is_null()
}

/// Relies on serde_json's `Value::String` constructor.
#[verifier::external_body]
pub fn json_string(s: &str) -> (r: serde_json::Value)
    ensures
        json_view(r) == JsonData::Str(s@),
{
    serde_json::Value::String(s.to_owned())
}

/// Relies on serde_json's `Value::Object` constructor over an empty
/// `serde_json::Map`.
#[verifier::external_body]
pub fn json_empty_object() -> (r: serde_json::Value)
    ensures
        json_view(r) == JsonData::Obj(Map::<Seq<char>, JsonData>::empty()),
{
    serde_json::Value::Object(serde_json::Map::new())
}

/// Relies on `serde_json::Map::insert`, reached through
/// `Value::as_object_mut`: on an object, the entry for the name is set to the
/// given content.
#[verifier::external_body]
pub fn json_insert(v: &mut serde_json::Value, key: &str, item: serde_json::Value)
    requires
        json_view(*old(v)) is Obj,
    ensures
        json_view(*final(v)) == JsonData::Obj(
            json_view(*old(v))->Obj_0.insert(key@, json_view(item)),
        ),
{
    if let Some(m) = v.as_object_mut() {
        m.insert(key.to_owned(), item);
    }
}

/// Whether two pieces of text are the same.
pub fn str_eq(a: &str, b: &str) -> (r: bool)
    ensures
        r == (a@ == b@),
{
    let x: String = a.to_owned();
    let y: String = b.to_owned();
    x == y
}

} // verus!
