//! JSON documents, which the library carries but does not look into.

use crate::websocket::{MessageView, WebSocketMessage};
use vstd::prelude::*;
use vstd::utf8::encode_utf8;

verus! {

/// A JSON document of any shape.
#[verifier::external_type_specification]
#[verifier::external_body]
pub struct ExJsonValue(serde_json::Value);

/// The JSON document that `text` holds, if it holds one and nothing else.
pub uninterp spec fn json_document(text: Seq<u8>) -> Option<serde_json::Value>;

/// `serde_json::from_slice` reads bytes as one JSON document. What it makes
/// of them depends on the bytes alone.
#[verifier::external_body]
pub(crate) fn parse_json(text: &[u8]) -> (document: Option<serde_json::Value>)
    ensures
        document == json_document(text@),
{
    serde_json::from_slice::<serde_json::Value>(text).ok()
}

/// The member `name` of a JSON object; `None` where the document is no
/// object or has no such member.
pub uninterp spec fn json_member(document: serde_json::Value, name: Seq<char>) -> Option<
    serde_json::Value,
>;

/// The unsigned number that a JSON document is, if it is one that fits 64 bits.
pub uninterp spec fn json_u64(document: serde_json::Value) -> Option<u64>;

/// `serde_json::Value::get` with a name looks a member of an object up, and
/// finds none in a document that is no object.
#[verifier::external_body]
pub(crate) fn member<'a>(document: &'a serde_json::Value, name: &str) -> (found: Option<
    &'a serde_json::Value,
>)
    ensures
        found.is_some() == json_member(*document, name@).is_some(),
        found.is_some() ==> *found.unwrap() == json_member(*document, name@).unwrap(),
{
    document.get(name)
}

/// `serde_json::Value::as_u64` gives the number that the document is, if it
/// is a non-negative integer that fits 64 bits.
#[verifier::external_body]
pub(crate) fn as_u64(document: &serde_json::Value) -> (number: Option<u64>)
    ensures
        number == json_u64(*document),
{
    document.as_u64()
}

/// The text that a JSON document is, if it is a string.
pub uninterp spec fn json_str(document: serde_json::Value) -> Option<Seq<char>>;

/// The truth value that a JSON document is, if it is one.
pub uninterp spec fn json_bool(document: serde_json::Value) -> Option<bool>;

/// The JSON string that holds `text`.
pub uninterp spec fn json_of_text(text: Seq<char>) -> serde_json::Value;

/// The JSON number that `number` is.
pub uninterp spec fn json_of_number(number: u64) -> serde_json::Value;

/// The JSON array of `items`.
pub uninterp spec fn json_of_list(items: Seq<serde_json::Value>) -> serde_json::Value;

/// The JSON object with `members`. Where a name comes twice, the later
/// member counts.
pub uninterp spec fn json_of_members(members: Seq<(Seq<char>, serde_json::Value)>)
    -> serde_json::Value;

/// A JSON document written out, without any space that it does not need.
pub uninterp spec fn json_written(document: serde_json::Value) -> Seq<char>;

/// The members of an object under construction, in mathematical terms.
pub open spec fn members_view(members: Vec<(String, serde_json::Value)>) -> Seq<
    (Seq<char>, serde_json::Value),
> {
    members@.map_values(|m: (String, serde_json::Value)| (m.0@, m.1))
}

/// `serde_json::Value::as_str` gives the text that the document is, if it
/// is a string.
#[verifier::external_body]
pub(crate) fn as_str<'a>(document: &'a serde_json::Value) -> (text: Option<&'a str>)
    ensures
        text.is_some() == json_str(*document).is_some(),
        text.is_some() ==> text.unwrap()@ == json_str(*document).unwrap(),
{
    document.as_str()
}

/// `serde_json::Value::as_bool` gives the truth value that the document is,
/// if it is one.
#[verifier::external_body]
pub(crate) fn as_bool(document: &serde_json::Value) -> (value: Option<bool>)
    ensures
        value == json_bool(*document),
{
    document.as_bool()
}

/// `serde_json::Value::from` makes a JSON string of a text.
#[verifier::external_body]
pub(crate) fn text_value(text: &str) -> (document: serde_json::Value)
    ensures
        document == json_of_text(text@),
{
    serde_json::Value::from(text)
}

/// `serde_json::Value::from` makes a JSON number of an unsigned integer.
#[verifier::external_body]
pub(crate) fn number_value(number: u64) -> (document: serde_json::Value)
    ensures
        document == json_of_number(number),
{
    serde_json::Value::from(number)
}

/// `serde_json::Value::from` makes a JSON array of a list of documents.
#[verifier::external_body]
pub(crate) fn list_value(items: Vec<serde_json::Value>) -> (document: serde_json::Value)
    ensures
        document == json_of_list(items@),
{
    serde_json::Value::from(items)
}

/// `serde_json::Value::from_iter` makes a JSON object of named documents.
#[verifier::external_body]
pub(crate) fn object_value(members: Vec<(String, serde_json::Value)>) -> (document:
    serde_json::Value)
    ensures
        document == json_of_members(members_view(members)),
{
    serde_json::Value::from_iter(members)
}

/// `to_string` on a `serde_json::Value` writes the document out in its
/// compact form.
#[verifier::external_body]
pub(crate) fn write_json(document: &serde_json::Value) -> (text: String)
    ensures
        text@ == json_written(*document),
{
    document.to_string()
}

/// The JSON document that a message holds: that of a text message whose
/// text is one.
pub open spec fn document_of(message: MessageView) -> Option<serde_json::Value> {
    match message {
        MessageView::Text(text) => json_document(encode_utf8(text)),
        _ => None,
    }
}

/// Reads a message as a JSON document.
pub fn document_of_message(message: &WebSocketMessage) -> (document: Option<serde_json::Value>)
    ensures
        document == document_of(message@),
{
    match message {
        WebSocketMessage::Text(text) => parse_json(text.as_str().as_bytes()),
        _ => None,
    }
}

} // verus!
