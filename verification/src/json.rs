//! Parsing of the editor's embedded JSON tables.

use vstd::prelude::*;

verus! {

/// The JSON value type of `serde_json`, carried through unread.
#[verifier::external_type_specification]
#[verifier::external_body]
pub struct ExJsonValue(serde_json::Value);

/// What parsing `raw` as JSON with `serde_json::from_str::<Value>` gives:
/// the value, or the display text of the error.
pub uninterp spec fn json_parse(raw: Seq<char>) -> Result<serde_json::Value, Seq<char>>;

/// What indexing a JSON value by an object key gives
/// (`<Value as Index<&str>>::index`): the member, or `Value::Null` when
/// there is none.
pub uninterp spec fn json_member(value: serde_json::Value, key: Seq<char>) -> serde_json::Value;

/// Parses text as a JSON value with `serde_json::from_str::<Value>`, and
/// turns an error into its display text. Claimed: the result is
/// `json_parse(raw@)`, with the error taken as its text.
#[verifier::external_body]
fn parse_json_text(raw: &str) -> (r: Result<serde_json::Value, String>)
    ensures
        r matches Ok(v) ==> (json_parse(raw@) matches Ok(p) && p == v),
        r matches Err(m) ==> (json_parse(raw@) matches Err(e) && e == m@),
{
    match serde_json::from_str::<serde_json::Value>(raw) {
        Ok(v) => Ok(v),
        Err(e) => Err(e.to_string()),
    }
}

/// Takes the member `key` of a JSON value with `value[key]` and copies it.
/// Claimed: the result is `json_member(*value, key@)`.
#[verifier::external_body]
fn member(value: &serde_json::Value, key: &str) -> (r: serde_json::Value)
    ensures
        r == json_member(*value, key@),
{
    value[key].clone()
}

/// Parses the JSON table called `name`; a failure is reported as the
/// table's name, a colon, and the parser's message.
pub fn parse_json(name: &str, raw: &str) -> (r: Result<serde_json::Value, String>)
    ensures
        r matches Ok(v) ==> (json_parse(raw@) matches Ok(p) && p == v),
        r matches Err(m) ==> json_parse(raw@) matches Err(e) && m@ == name@ + ": "@ + e,
{
    match parse_json_text(raw) {
        Ok(v) => Ok(v),
        Err(e) => {
            let mut msg = String::from_str(name);
            msg.append(": ");
            msg.append(e.as_str());
            Err(msg)
        },
    }
}

/// Parses the JSON table called `name` and answers its member `key`; a
/// failure to parse is reported as `parse_json` reports it.
pub fn parse_json_member(name: &str, raw: &str, key: &str) -> (r: Result<serde_json::Value, String>)
    ensures
        r matches Ok(v) ==> json_parse(raw@) matches Ok(table) && v == json_member(table, key@),
        r matches Err(m) ==> json_parse(raw@) matches Err(e) && m@ == name@ + ": "@ + e,
{
    match parse_json(name, raw) {
        Ok(table) => Ok(member(&table, key)),
        Err(m) => Err(m),
    }
}

} // verus!
