//! Calls into `chrono`, `uuid` and `serde_json`: the current time, fresh
//! ids, and the JSON documents that tasks keep their input and output in.

use vstd::prelude::*;
use crate::text::opt_view;
use crate::notify::escape_spec;

verus! {

/// The current time in RFC 3339 (`chrono::Utc::now().to_rfc3339()`).
/// Nothing is stated of the text: it depends on the clock.
#[verifier::external_body]
pub(crate) fn now_rfc3339() -> String {
    chrono::Utc::now().to_rfc3339()
}

/// A fresh random id (`uuid::Uuid::new_v4`), in its hyphenated form of 36
/// characters.
#[verifier::external_body]
pub(crate) fn new_uuid() -> (s: String)
    ensures
        s@.len() == 36,
{
    uuid::Uuid::new_v4().to_string()
}

/// The string stored under `key` in the JSON object that `raw` holds: none
/// when `raw` is not JSON, not an object, lacks `key`, or holds a non-string
/// there.
pub uninterp spec fn json_text_field(raw: Seq<char>, key: Seq<char>) -> Option<Seq<char>>;

/// Reads a string field of a JSON object (`serde_json::from_str` into a
/// `Value`, then `Value::get`); the result is `json_text_field` of the text
/// and the key.
#[verifier::external_body]
pub(crate) fn json_string_field(raw: &str, key: &str) -> (r: Option<String>)
    ensures
        opt_view(r) == json_text_field(raw@, key@),
{
    match serde_json::from_str::<serde_json::Value>(raw) {
        Ok(v) => match v.get(key) {
            Some(serde_json::Value::String(s)) => Some(s.clone()),
            _ => None,
        },
        Err(_) => None,
    }
}

/// A lower-case hexadecimal digit.
pub open spec fn hex_digit(n: int) -> char {
    if n < 10 {
        (n + 48) as char
    } else {
        (n + 87) as char
    }
}

/// How a JSON string literal writes one character: `"` and `\` and the
/// control characters with short escapes get a backslash, the other control
/// characters below 0x20 are written `\u00XX`, and every other character
/// stands as it is.
pub open spec fn json_char(c: char) -> Seq<char> {
    if c == '"' {
        seq!['\\', '"']
    } else if c == '\\' {
        seq!['\\', '\\']
    } else if c == '\u{8}' {
        seq!['\\', 'b']
    } else if c == '\t' {
        seq!['\\', 't']
    } else if c == '\n' {
        seq!['\\', 'n']
    } else if c == '\u{c}' {
        seq!['\\', 'f']
    } else if c == '\r' {
        seq!['\\', 'r']
    } else if (c as int) < 0x20 {
        seq!['\\', 'u', '0', '0', hex_digit((c as int) / 16), hex_digit((c as int) % 16)]
    } else {
        seq![c]
    }
}

/// The JSON string literal of `s`: quoted, each character written as
/// `json_char` gives it.
pub open spec fn json_literal_spec(s: Seq<char>) -> Seq<char> {
    seq!['"'] + escape_spec(s, |c: char| json_char(c)) + seq!['"']
}

/// Writes `s` as a JSON string literal (`serde_json::to_string` of a `&str`,
/// which escapes as `json_char` says and cannot fail for a string).
#[verifier::external_body]
pub(crate) fn json_quote(s: &str) -> (r: Result<String, String>)
    ensures
        r is Ok,
        r matches Ok(q) ==> q@ == json_literal_spec(s@),
{
    serde_json::to_string(s).map_err(|e| e.to_string())
}

/// A field value of a JSON object built by the library.
#[derive(Debug)]
pub enum JsonField {
    Text(String),
    Flag(bool),
    Null,
}

/// A field value as a plain value.
pub enum JsonFieldView {
    Text(Seq<char>),
    Flag(bool),
    Null,
}

/// The plain values of a list of fields.
pub open spec fn fields_view(fields: Seq<(String, JsonField)>) -> Seq<(Seq<char>, JsonFieldView)> {
    fields.map_values(|f: (String, JsonField)| (f.0@, match f.1 {
        JsonField::Text(s) => JsonFieldView::Text(s@),
        JsonField::Flag(b) => JsonFieldView::Flag(b),
        JsonField::Null => JsonFieldView::Null,
    }))
}

/// The JSON text of the object with the given fields, as `serde_json`
/// writes it.
pub uninterp spec fn json_object_text(fields: Seq<(Seq<char>, JsonFieldView)>) -> Seq<char>;

/// No two fields share a key.
pub open spec fn distinct_keys(fields: Seq<(Seq<char>, JsonFieldView)>) -> bool {
    forall|i: int, j: int| 0 <= i < j < fields.len() ==> fields[i].0 != fields[j].0
}

/// Writes a JSON object (a `serde_json::Map` made a `Value`, then
/// `to_string`). Its text is `json_object_text` of the fields; when the keys
/// are distinct, reading a text field back gives its value.
#[verifier::external_body]
pub(crate) fn json_object(fields: &Vec<(String, JsonField)>) -> (r: String)
    ensures
        r@ == json_object_text(fields_view(fields@)),
        distinct_keys(fields_view(fields@)) ==> forall|i: int|
            0 <= i < fields@.len() ==> ((#[trigger] fields_view(fields@)[i]).1 matches JsonFieldView::Text(v)
                ==> json_text_field(r@, fields_view(fields@)[i].0) == Some(v)),
{
    let mut map = serde_json::Map::new();
    for (k, v) in fields.iter() {
        map.insert(k.clone(), match v {
            JsonField::Text(s) => serde_json::Value::String(s.clone()),
            JsonField::Flag(b) => serde_json::Value::Bool(*b),
            JsonField::Null => serde_json::Value::Null,
        });
    }
    serde_json::Value::Object(map).to_string()
}

} // verus!
