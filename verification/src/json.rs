//! Reading one member of a JSON document, through `serde_json`.

use vstd::prelude::*;

verus! {

/// What a JSON document holds under a key of its top-level object.
#[derive(Debug)]
pub enum JsonMember {
    /// The document is not valid JSON; the parser's message.
    Malformed(String),
    /// The document is not an object, or has no member with the key.
    Absent,
    /// The member is a JSON string: its text, and its JSON rendering (quoted and escaped).
    Text { text: String, rendered: String },
    /// The member is some other JSON value; its compact JSON rendering.
    NonText(String),
}

/// The mathematical form of a `JsonMember`.
pub enum JsonMemberView {
    Malformed(Seq<char>),
    Absent,
    Text { text: Seq<char>, rendered: Seq<char> },
    NonText(Seq<char>),
}

impl View for JsonMember {
    type V = JsonMemberView;

    open spec fn view(&self) -> JsonMemberView {
        match self {
            JsonMember::Malformed(m) => JsonMemberView::Malformed(m@),
            JsonMember::Absent => JsonMemberView::Absent,
            JsonMember::Text { text, rendered } => JsonMemberView::Text { text: text@, rendered: rendered@ },
            JsonMember::NonText(t) => JsonMemberView::NonText(t@),
        }
    }
}

/// What `serde_json` finds in the document `text` under `key`.
pub uninterp spec fn json_member_of(text: Seq<char>, key: Seq<char>) -> JsonMemberView;

/// Parse `text` with `serde_json::from_str` into a `serde_json::Value`, look
/// `key` up with `Value::get`, and report what is there: the parser's error
/// message (its `Display`), no member, a string member's text, or another
/// member's compact rendering (its `Display`). The contract claims only that
/// the report is a function of `text` and `key`; what serde_json accepts as
/// JSON and its error messages are left to serde_json.
#[verifier::external_body]
pub(crate) fn inspect_json_member(text: &str, key: &str) -> (r: JsonMember)
    ensures
        r@ == json_member_of(text@, key@),
{
    match serde_json::from_str::<serde_json::Value>(text) {
        Err(error) => JsonMember::Malformed(error.to_string()),
        Ok(value) => match value.get(key) {
            None => JsonMember::Absent,
            Some(member @ serde_json::Value::String(s)) => JsonMember::Text { text: s.clone(), rendered: member.to_string() },
            Some(other) => JsonMember::NonText(other.to_string()),
        },
    }
}

/// The JSON string that `serde_json` writes for `text`.
pub uninterp spec fn json_string_of(text: Seq<char>) -> Seq<char>;

/// Write `text` as a JSON string with `serde_json::to_string`. Its source
/// writes the text between double quotes, escaping quotes, backslashes and
/// control characters; how each character is escaped is left to serde_json.
/// Serializing a `str` into memory does not fail, so the error arm is never
/// taken.
#[verifier::external_body]
pub(crate) fn json_string(text: &str) -> (r: String)
    ensures
        r@ == json_string_of(text@),
        r@.len() >= 2 && r@[0] == '"' && r@[r@.len() - 1] == '"',
{
    match serde_json::to_string(text) {
        Ok(quoted) => quoted,
        Err(_) => String::new(),
    }
}

} // verus!
