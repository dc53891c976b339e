//! JSON as far as this crate needs it: the text of a string, and the
//! members of an object that arrived as text. Both are the work of
//! `serde_json`.

use vstd::prelude::*;
use crate::text::optional_text;

verus! {

/// The JSON text of a string: what `serde_json` writes for it, quotes and
/// escapes included.
pub uninterp spec fn json_string(text: Seq<char>) -> Seq<char>;

/// Calls `serde_json`'s `Display` for `Value::String`, which writes a string
/// as compact JSON text. The result is a function of the string alone and is
/// known here only by its name.
#[verifier::external_body]
pub(crate) fn quoted(text: &str) -> (json: String)
    ensures
        json@ == json_string(text@),
{
    serde_json::Value::String(text.to_owned()).to_string()
}

/// One member of a JSON object, as far as the channel's messages need it.
#[derive(Debug)]
pub enum JsonMember {
    /// A string.
    Text(String),
    /// A number, as the bits of its value in double precision, where it has
    /// one.
    Number(Option<u64>),
    /// An array: for each item its string, where the item is one.
    List(Vec<Option<String>>),
    /// Anything else: null, a boolean or an object.
    Other,
}

/// What a [`JsonMember`] holds.
pub enum JsonMemberView {
    Text(Seq<char>),
    Number(Option<u64>),
    List(Seq<Option<Seq<char>>>),
    Other,
}

impl View for JsonMember {
    type V = JsonMemberView;

    open spec fn view(&self) -> JsonMemberView {
        match self {
            JsonMember::Text(text) => JsonMemberView::Text(text@),
            JsonMember::Number(bits) => JsonMemberView::Number(*bits),
            JsonMember::List(items) => JsonMemberView::List(
                items@.map_values(|item: Option<String>| optional_text(item)),
            ),
            JsonMember::Other => JsonMemberView::Other,
        }
    }
}

/// What an optional member holds.
pub open spec fn optional_member(member: Option<JsonMember>) -> Option<JsonMemberView> {
    match member {
        Some(m) => Some(m@),
        None => None,
    }
}

/// The member `key` of the JSON object that `line` holds; `None` where `line`
/// is not JSON, is no object or has no such member.
pub uninterp spec fn json_member(line: Seq<char>, key: Seq<char>) -> Option<JsonMemberView>;

/// Parses `line` with `serde_json::from_str` and looks `key` up with
/// `Value::get`. A string, a number (through `Number::as_f64`) and an array
/// (each item through `Value::as_str`) are handed on as they are. The result
/// is a function of the two strings alone and is known here only by its name.
#[verifier::external_body]
pub(crate) fn read_member(line: &str, key: &str) -> (member: Option<JsonMember>)
    ensures
        optional_member(member) == json_member(line@, key@),
{
    let document: serde_json::Value = serde_json::from_str(line).ok()?;
    Some(match document.get(key)? {
        serde_json::Value::String(text) => JsonMember::Text(text.clone()),
        serde_json::Value::Number(number) => {
            JsonMember::Number(number.as_f64().map(|value| value.to_bits()))
        },
        serde_json::Value::Array(items) => JsonMember::List(
            items.iter().map(|item| item.as_str().map(|text| text.to_owned())).collect(),
        ),
        _ => JsonMember::Other,
    })
}

} // verus!
