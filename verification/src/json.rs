//! The trusted boundary to the JSON library: rendering request bodies and
//! reading fields of a parsed document.
//!
//! What serde_json parses or renders depends on its argument alone, so the
//! shape-specific extractors in the provider modules and the object renderer
//! here give their results names — uninterpreted spec functions — and every
//! caller's contract is exact in terms of those names.

use vstd::prelude::*;

verus! {

#[verifier::external_type_specification]
#[verifier::external_body]
pub struct ExValue(serde_json::Value);

/// What serde_json renders the given members to: a JSON object with every
/// key and value quoted and escaped.  The rendering depends on the members
/// alone.
pub uninterp spec fn json_object_text_of(pairs: Seq<(Seq<char>, Seq<char>)>) -> Seq<char>;

/// Relies on serde_json::to_string over serde_json::Map: renders the given
/// members as one JSON object.  With string keys and values the serializer
/// cannot fail.
#[verifier::external_body]
pub(crate) fn render_json_object(pairs: &Vec<(String, String)>) -> (r: String)
    ensures
        r@ == json_object_text_of(pairs@.map_values(|p: (String, String)| (p.0@, p.1@))),
{
    let obj: serde_json::Map<String, serde_json::Value> = pairs
        .iter()
        .map(|p| (p.0.clone(), serde_json::Value::String(p.1.clone())))
        .collect();
    match serde_json::to_string(&obj) {
        Ok(s) => s,
        Err(_) => String::new(),
    }
}

/// Relies on serde_json::Value::get with a string index: the value bound to a
/// key of a JSON object, or nothing when the value is no object or has no
/// such key.
#[verifier::external_body]
pub(crate) fn json_get<'a>(v: &'a serde_json::Value, key: &str) -> Option<&'a serde_json::Value> {
    v.get(key)
}

/// Relies on serde_json::Value::as_str: the string a JSON value holds, or
/// nothing when the value is not a string.
#[verifier::external_body]
pub(crate) fn json_as_str<'a>(v: &'a serde_json::Value) -> Option<&'a str> {
    v.as_str()
}

} // verus!
