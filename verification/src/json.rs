//! The JSON text boundary. The codec works on flat field lists; rendering
//! them as JSON text and reading fields back out of response text is done by
//! serde_json behind the trusted items below. Each result is a function of
//! the given text or fields alone, so it is named by an uninterpreted spec
//! function and everything downstream of the name is verified.

use vstd::prelude::*;

verus! {

/// The JSON object text that a flat list of string fields renders to.
pub uninterp spec fn object_text(fields: Seq<(Seq<char>, Seq<char>)>) -> Seq<char>;

/// The string value of the named top-level field of the JSON object a text
/// parses to; `None` when the text is not a JSON object, the field is
/// absent, or its value is not a string.
pub uninterp spec fn string_field_of(body: Seq<char>, key: Seq<char>) -> Option<Seq<char>>;

/// The named top-level field of the JSON object a text parses to, as an
/// array of flat objects whose values are all strings; `None` when the text
/// or the field does not have that shape.
pub uninterp spec fn object_array_of(body: Seq<char>, key: Seq<char>) -> Option<
    Seq<Seq<(Seq<char>, Seq<char>)>>,
>;

/// Relies on serde_json::Map::insert and the serde_json::Value Display
/// rendering: the fields, taken in order with a later duplicate key
/// replacing an earlier one, become one flat JSON object whose text is a
/// function of the fields alone (the map orders its keys).
#[verifier::external_body]
pub fn fields_to_json(fields: &Vec<(String, String)>) -> (r: String)
    ensures
        r@ == object_text(fields.deep_view()),
{
    let mut m = serde_json::Map::new();
    for (k, v) in fields.iter() {
        m.insert(k.clone(), serde_json::Value::String(v.clone()));
    }
    serde_json::Value::Object(m).to_string()
}

/// Relies on serde_json::from_str, serde_json::Value::get and
/// serde_json::Value::as_str: the string value of one top-level field, a
/// function of the text and the key alone.
#[verifier::external_body]
pub fn get_string_field(body: &str, key: &str) -> (r: Option<String>)
    ensures
        r is Some <==> string_field_of(body@, key@) is Some,
        r matches Some(v) ==> string_field_of(body@, key@) == Some(v@),
{
    match serde_json::from_str::<serde_json::Value>(body) {
        Ok(v) => v.get(key).and_then(|f| f.as_str()).map(|s| s.to_string()),
        Err(_) => None,
    }
}

/// Relies on serde_json::from_str, serde_json::Value::{get, as_array,
/// as_object, as_str}: one top-level field as an array of all-string
/// objects, a function of the text and the key alone.
#[verifier::external_body]
pub fn get_object_array(body: &str, key: &str) -> (r: Option<Vec<Vec<(String, String)>>>)
    ensures
        r is Some <==> object_array_of(body@, key@) is Some,
        r matches Some(objs) ==> object_array_of(body@, key@) == Some(objs.deep_view()),
{
    let parsed: serde_json::Value = match serde_json::from_str(body) {
        Ok(v) => v,
        Err(_) => return None,
    };
    let arr = parsed.get(key)?.as_array()?;
    let mut out: Vec<Vec<(String, String)>> = Vec::new();
    for item in arr {
        let mut fields: Vec<(String, String)> = Vec::new();
        for (k, v) in item.as_object()? {
            fields.push((k.clone(), v.as_str()?.to_string()));
        }
        out.push(fields);
    }
    Some(out)
}

} // verus!
