//! The JSON reading and writing that the wire protocol needs, done by serde_json.
use vstd::prelude::*;

verus! {

/// What one member of a JSON object holds, as far as the protocol reads it.
pub enum JsonField {
    /// The object has no member of that name.
    Missing,
    Null,
    Bool(bool),
    /// A number that is an integer within the range of `i64`.
    Int(i64),
    Text(String),
    /// Any other value: an array, an object, a fraction, a larger integer.
    Other,
}

/// The mathematical value of a [`JsonField`].
pub enum FieldValue {
    Missing,
    Null,
    Bool(bool),
    Int(i64),
    Text(Seq<char>),
    Other,
}

impl View for JsonField {
    type V = FieldValue;

    open spec fn view(&self) -> FieldValue {
        match self {
            JsonField::Missing => FieldValue::Missing,
            JsonField::Null => FieldValue::Null,
            JsonField::Bool(b) => FieldValue::Bool(*b),
            JsonField::Int(n) => FieldValue::Int(*n),
            JsonField::Text(s) => FieldValue::Text(s@),
            JsonField::Other => FieldValue::Other,
        }
    }
}

/// The member `key` of the JSON object written in `text`; `None` where `text` is not
/// one JSON object.
pub uninterp spec fn json_member(text: Seq<char>, key: Seq<char>) -> Option<FieldValue>;

/// The lowercase hexadecimal digit `d`, for `d < 16`.
pub open spec fn hex_digit(d: u32) -> char {
    seq!['0', '1', '2', '3', '4', '5', '6', '7', '8', '9', 'a', 'b', 'c', 'd', 'e', 'f'][d as int]
}

/// How one character is written inside a JSON string literal: `"` and `\` and the
/// control characters are escaped, with the short forms where JSON has one and
/// `\u00xx` otherwise; every other character stands for itself.
pub open spec fn escape_char(c: char) -> Seq<char> {
    if c == '"' {
        seq!['\\', '"']
    } else if c == '\\' {
        seq!['\\', '\\']
    } else if c == '\u{8}' {
        seq!['\\', 'b']
    } else if c == '\t' {
        seq!['\\', 't']
    } else if c == '\n' {
        seq!['\\', 'n']
    } else if c == '\u{c}' {
        seq!['\\', 'f']
    } else if c == '\r' {
        seq!['\\', 'r']
    } else if (c as u32) < 0x20 {
        seq!['\\', 'u', '0', '0', hex_digit((c as u32) / 16), hex_digit((c as u32) % 16)]
    } else {
        seq![c]
    }
}

/// The characters of `s`, each escaped.
pub open spec fn escaped(s: Seq<char>) -> Seq<char>
    decreases s.len(),
{
    if s.len() == 0 {
        Seq::empty()
    } else {
        escaped(s.drop_last()) + escape_char(s.last())
    }
}

/// The JSON string literal, quotes included, that writes `s`.
pub open spec fn json_quoted(s: Seq<char>) -> Seq<char> {
    seq!['"'] + escaped(s) + seq!['"']
}

/// Relies on serde_json::from_str into a serde_json::Value, Map::get and Value::as_i64:
/// the member `key` of the object that `text` holds.
#[verifier::external_body]
pub(crate) fn read_member(text: &str, key: &str) -> (r: Option<JsonField>)
    ensures
        match r {
            Some(f) => json_member(text@, key@) == Some(f@),
            None => json_member(text@, key@).is_none(),
        },
{
    match serde_json::from_str::<serde_json::Value>(text) {
        Ok(serde_json::Value::Object(m)) => Some(match m.get(key) {
            None => JsonField::Missing,
            Some(serde_json::Value::Null) => JsonField::Null,
            Some(serde_json::Value::Bool(b)) => JsonField::Bool(*b),
            Some(serde_json::Value::String(s)) => JsonField::Text(s.clone()),
            Some(v) => v.as_i64().map_or(JsonField::Other, JsonField::Int),
        }),
        _ => None,
    }
}

/// Relies on serde_json::to_string on a `str`: the string literal that writes `s`,
/// escaped as its escape table and `write_char_escape` do; it never fails for a `str`.
#[verifier::external_body]
pub(crate) fn quote(s: &str) -> (r: String)
    ensures
        r@ == json_quoted(s@),
{
    serde_json::to_string(s).unwrap_or_default()
}

} // verus!
