use vstd::prelude::*;

use crate::command::result_view;

verus! {

/// One member of a JSON object: its key, its value as compact JSON text, and
/// the value's characters when it is a JSON string.
#[derive(Debug)]
pub struct JsonMember {
    pub key: String,
    pub json: String,
    pub text: Option<String>,
}

/// The mathematical value of a [`JsonMember`].
pub struct JsonMemberView {
    pub key: Seq<char>,
    pub json: Seq<char>,
    pub text: Option<Seq<char>>,
}

impl View for JsonMember {
    type V = JsonMemberView;

    open spec fn view(&self) -> JsonMemberView {
        JsonMemberView { key: self.key@, json: self.json@, text: self.text.deep_view() }
    }
}

impl DeepView for JsonMember {
    type V = JsonMemberView;

    open spec fn deep_view(&self) -> JsonMemberView {
        self@
    }
}

/// What `serde_json` makes of `text` read as one JSON value: the compact
/// JSON text by which that value displays itself, or the text by which its
/// error displays itself.
pub uninterp spec fn json_compact(text: Seq<char>) -> Result<Seq<char>, Seq<char>>;

/// What `serde_json` makes of `bytes` read as a JSON array: for each element,
/// its members when it is an object and `None` otherwise; or the text by which
/// its error displays itself.
pub uninterp spec fn json_object_list(bytes: Seq<u8>) -> Result<
    Seq<Option<Seq<JsonMemberView>>>,
    Seq<char>,
>;

/// Calls `serde_json::from_str::<serde_json::Value>` and hands the value over
/// as the compact JSON text of its `Display`. Claimed: the result is a
/// function of the text.
#[verifier::external_body]
pub(crate) fn compact_json(text: &str) -> (r: Result<String, String>)
    ensures
        result_view(r) == json_compact(text@),
{
    serde_json::from_str::<serde_json::Value>(text).map(|value| value.to_string()).map_err(
        |error| error.to_string(),
    )
}

/// Calls `serde_json::from_slice::<Vec<serde_json::Value>>` and hands each
/// element over as its object members (key, compact JSON text of the value by
/// `Display`, and the string it holds by `as_str`). Claimed: the result is a
/// function of the bytes.
#[verifier::external_body]
pub(crate) fn parse_object_list(bytes: &[u8]) -> (r: Result<Vec<Option<Vec<JsonMember>>>, String>)
    ensures
        result_view(r) == json_object_list(bytes@),
{
    serde_json::from_slice::<Vec<serde_json::Value>>(bytes).map(|values| {
        values.into_iter().map(|value| match value {
            serde_json::Value::Object(map) => Some(map.into_iter().map(|(key, member)| JsonMember {
                text: member.as_str().map(String::from),
                json: member.to_string(),
                key,
            }).collect()),
            _ => None,
        }).collect()
    }).map_err(|error| error.to_string())
}

} // verus!
