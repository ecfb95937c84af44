//! JSON on the wire between an extension and the Pointiv host, through
//! `serde_json`: documents built from strings and objects, their text,
//! replies from the host and string lists.

use vstd::prelude::*;

verus! {

/// A JSON document as `serde_json` holds it.
#[verifier::external_type_specification]
#[verifier::external_body]
pub struct ExJsonValue(serde_json::Value);

/// A JSON object as `serde_json` holds it.
#[verifier::external_type_specification]
#[verifier::external_body]
#[verifier::reject_recursive_types(K)]
#[verifier::reject_recursive_types(V)]
pub struct ExJsonMap<K, V>(serde_json::Map<K, V>);

// ---------------------------------------------------------------------
// Building documents
// ---------------------------------------------------------------------

/// The members of a JSON object, by key.
pub uninterp spec fn json_map_entries(m: serde_json::Map<String, serde_json::Value>) -> Map<
    Seq<char>,
    serde_json::Value,
>;

/// The JSON string `s` (`serde_json::Value::String`).
pub uninterp spec fn json_string_value(s: Seq<char>) -> serde_json::Value;

/// The JSON object with the given members (`serde_json::Value::Object`).
pub uninterp spec fn json_object_value(entries: Map<Seq<char>, serde_json::Value>) -> serde_json::Value;

/// The map of a JSON object (`Value::Object`), `None` for any other kind
/// of document.
pub uninterp spec fn json_object_members(v: serde_json::Value) -> Option<
    serde_json::Map<String, serde_json::Value>,
>;

/// No members.
pub open spec fn no_members() -> Map<Seq<char>, serde_json::Value> {
    Map::empty()
}

/// Calls `serde_json::Map::new`. Trusted: the object has no members.
#[verifier::external_body]
pub fn empty_object() -> (m: serde_json::Map<String, serde_json::Value>)
    ensures
        json_map_entries(m) == no_members(),
{
    serde_json::Map::new()
}

/// Calls `serde_json::Map::insert`. Trusted: `value` stands under `key`
/// afterwards, replacing what stood there; the other members stay.
#[verifier::external_body]
pub fn object_insert(
    m: &mut serde_json::Map<String, serde_json::Value>,
    key: String,
    value: serde_json::Value,
)
    ensures
        json_map_entries(*final(m)) == json_map_entries(*old(m)).insert(key@, value),
{
    m.insert(key, value);
}

/// `Clone` of a JSON object (`impl Clone for Map<String, Value>`).
/// Trusted: the copy has the same members.
pub assume_specification[ <serde_json::Map<String, serde_json::Value> as Clone>::clone ](
    m: &serde_json::Map<String, serde_json::Value>,
) -> (r: serde_json::Map<String, serde_json::Value>)
    ensures
        json_map_entries(r) == json_map_entries(*m),
;

/// Builds `serde_json::Value::String`. Trusted: the document is the JSON
/// string `s`.
#[verifier::external_body]
pub fn string_value(s: &str) -> (v: serde_json::Value)
    ensures
        v == json_string_value(s@),
{
    serde_json::Value::String(s.to_string())
}

/// Builds `serde_json::Value::Object`. Trusted: the document is the object
/// with the members of `m`, and `m` is its map.
#[verifier::external_body]
pub fn object_value(m: serde_json::Map<String, serde_json::Value>) -> (v: serde_json::Value)
    ensures
        v == json_object_value(json_map_entries(m)),
        json_object_members(v) == Some(m),
{
    serde_json::Value::Object(m)
}

/// Tells the variants of `serde_json::Value` apart. Trusted: the map of an
/// `Object`, `None` for any other variant.
#[verifier::external_body]
pub fn into_object(v: serde_json::Value) -> (r: Option<serde_json::Map<String, serde_json::Value>>)
    ensures
        r == json_object_members(v),
{
    match v {
        serde_json::Value::Object(map) => Some(map),
        _ => None,
    }
}

// ---------------------------------------------------------------------
// Text of documents
// ---------------------------------------------------------------------

/// What `serde_json::to_string` gives on a document: its compact text, or
/// the message (`Display`) of the error.
pub uninterp spec fn json_serialized(v: serde_json::Value) -> Result<Seq<char>, Seq<char>>;

/// The character sequences of a string result.
pub open spec fn result_view(r: Result<String, String>) -> Result<Seq<char>, Seq<char>> {
    match r {
        Ok(s) => Ok(s@),
        Err(m) => Err(m@),
    }
}

/// Calls `serde_json::to_string` on a document. Trusted: the result is the
/// one named by `json_serialized`, and it is never an error: serde_json
/// fails to serialise only when a `Serialize` impl fails or a map has keys
/// that are not strings, and neither can happen for a `Value`.
#[verifier::external_body]
pub fn value_to_json(v: &serde_json::Value) -> (r: Result<String, String>)
    ensures
        r is Ok,
        result_view(r) == json_serialized(*v),
{
    match serde_json::to_string(v) {
        Ok(s) => Ok(s),
        Err(e) => Err(e.to_string()),
    }
}

// ---------------------------------------------------------------------
// Replies from the host
// ---------------------------------------------------------------------

/// Whether `serde_json::from_str::<serde_json::Value>` accepts `text`.
pub uninterp spec fn json_parses(text: Seq<char>) -> bool;

/// The document that `serde_json::from_str::<serde_json::Value>` reads
/// from `text`, where it accepts it.
pub uninterp spec fn json_document(text: Seq<char>) -> serde_json::Value;

/// The message (`Display`) of the error that
/// `serde_json::from_str::<serde_json::Value>` gives on `text`.
pub uninterp spec fn json_parse_error(text: Seq<char>) -> Seq<char>;

/// The string held under `key` in the document `doc` (`Value::get`, then
/// `Value::as_str`): `None` when the document is not an object, lacks
/// `key`, or holds there no string.
pub uninterp spec fn json_str_member(doc: serde_json::Value, key: Seq<char>) -> Option<Seq<char>>;

/// The character sequence of an optional string.
pub open spec fn opt_view(o: Option<String>) -> Option<Seq<char>> {
    match o {
        Some(s) => Some(s@),
        None => None,
    }
}

/// Calls `serde_json::from_str::<serde_json::Value>` on `text`, then
/// `Value::get(key)` and reads a string there as `Value::as_str` does.
/// Trusted: success exactly when `json_parses(text)`, the parsed document,
/// the error's message on failure, and the string member, under the names
/// above.
#[verifier::external_body]
fn parse_with_member(text: &str, key: &str) -> (res: Result<(serde_json::Value, Option<String>), String>)
    ensures
        res is Ok <==> json_parses(text@),
        res matches Err(m) ==> m@ == json_parse_error(text@),
        res matches Ok((doc, member)) ==> doc == json_document(text@) && opt_view(member)
            == json_str_member(doc, key@),
{
    match serde_json::from_str::<serde_json::Value>(text) {
        Ok(v) => {
            let member = match v.get(key) {
                Some(serde_json::Value::String(s)) => Some(s.clone()),
                _ => None,
            };
            Ok((v, member))
        },
        Err(e) => Err(e.to_string()),
    }
}

/// The error a reply stands for when the host call itself failed.
pub open spec fn host_failure() -> Seq<char> {
    "host call failed"@
}

/// The key under which the Pointiv backend reports a failure.
pub open spec fn error_key() -> Seq<char> {
    "error"@
}

/// What a reply of the Pointiv backend proxy gives: for a failed host call,
/// the error `host call failed`; else an error when the reply does not
/// parse (the parser's message) or holds a string under `"error"` (that
/// string); otherwise the parsed document.
pub open spec fn reply_result(raw: Option<Seq<char>>) -> Result<serde_json::Value, Seq<char>> {
    match raw {
        None => Err(host_failure()),
        Some(t) => if !json_parses(t) {
            Err(json_parse_error(t))
        } else {
            match json_str_member(json_document(t), error_key()) {
                Some(m) => Err(m),
                None => Ok(json_document(t)),
            }
        },
    }
}

/// Law: how a reply is read, case by case. A failed host call is the error
/// `host call failed`; a reply that does not parse is the parser's error; a
/// parsed reply with a string under `"error"` is that string as an error;
/// and any other parsed reply is `Ok` of the parsed document, whatever else
/// it holds.
pub proof fn lemma_reply_result(t: Seq<char>, m: Seq<char>)
    ensures
        reply_result(None) == Err::<serde_json::Value, Seq<char>>("host call failed"@),
        !json_parses(t) ==> reply_result(Some(t)) == Err::<serde_json::Value, Seq<char>>(
            json_parse_error(t),
        ),
        json_parses(t) && json_str_member(json_document(t), "error"@) == Some(m)
            ==> reply_result(Some(t)) == Err::<serde_json::Value, Seq<char>>(m),
        json_parses(t) && json_str_member(json_document(t), "error"@) is None
            ==> reply_result(Some(t)) == Ok::<serde_json::Value, Seq<char>>(json_document(t)),
{
    reveal_strlit("error");
    assert(error_key() == "error"@);
}

/// The views of a reply result.
pub open spec fn reply_view(r: Result<serde_json::Value, String>) -> Result<serde_json::Value, Seq<char>> {
    match r {
        Ok(v) => Ok(v),
        Err(m) => Err(m@),
    }
}

/// Reads a JSON reply of the Pointiv backend proxy. `raw` is what the host
/// call returned, `None` when the call failed (see `reply_result`).
pub fn read_reply(raw: Option<String>) -> (res: Result<serde_json::Value, String>)
    ensures
        reply_view(res) == reply_result(opt_view(raw)),
{
    let text = match raw {
        Some(s) => s,
        None => return Err(String::from_str("host call failed")),
    };
    match parse_with_member(text.as_str(), "error") {
        Err(m) => Err(m),
        Ok((_, Some(message))) => Err(message),
        Ok((value, None)) => Ok(value),
    }
}

// ---------------------------------------------------------------------
// String lists
// ---------------------------------------------------------------------

/// What `serde_json::from_str::<Vec<String>>` gives on `text`: the strings
/// of a JSON array of strings, `None` when `text` is not one.
pub uninterp spec fn json_string_list(text: Seq<char>) -> Option<Seq<Seq<char>>>;

/// The character sequences of a sequence of strings.
pub open spec fn strings_view(v: Seq<String>) -> Seq<Seq<char>> {
    v.map_values(|s: String| s@)
}

/// Calls `serde_json::from_str::<Vec<String>>` on `text`. Trusted: the
/// result is the one named by `json_string_list`.
#[verifier::external_body]
pub fn parse_string_list(text: &str) -> (r: Option<Vec<String>>)
    ensures
        match r {
            Some(v) => json_string_list(text@) == Some(strings_view(v@)),
            None => json_string_list(text@) is None,
        },
{
    match serde_json::from_str::<Vec<String>>(text) {
        Ok(v) => Some(v),
        Err(_) => None,
    }
}

} // verus!
