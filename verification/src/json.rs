//! JSON text, written by `serde_json`.

use vstd::prelude::*;
use crate::text::texts;

verus! {

/// `serde_json::Error`, why a value could not be written as JSON.
#[verifier::external_type_specification]
#[verifier::external_body]
pub struct ExJsonError(serde_json::Error);

/// Why a value could not be written as JSON.
#[derive(Debug)]
pub struct JsonError {
    /// What the serializer said.
    pub message: String,
}

/// The JSON string literal for `text`, as `serde_json` writes it: the text between
/// double quotes, with the escapes that JSON asks for.
pub uninterp spec fn json_string(text: Seq<char>) -> Seq<char>;

/// What `serde_json::to_string` makes of `list`: the JSON array of its strings, and
/// nothing where the list cannot be written.
pub uninterp spec fn json_string_list(list: Seq<Seq<char>>) -> Option<Seq<char>>;

/// Makes a `serde_json::Value::String` of `text` and formats it with the value's
/// `Display`, which writes compact JSON. The contract only names the outcome: it is
/// `json_string` of the text.
#[verifier::external_body]
pub(crate) fn to_json_string(text: &str) -> (json: String)
    ensures
        json@ == json_string(text@),
{
    serde_json::Value::String(text.to_owned()).to_string()
}

/// Calls `serde_json::to_string` on a list of texts. The contract only names the
/// outcome: the text is `json_string_list` of the texts, and there is an error exactly
/// where that is nothing. It does not say on which lists that is.
#[verifier::external_body]
pub(crate) fn to_json_list(list: &Vec<String>) -> (json: Result<String, serde_json::Error>)
    ensures
        match json {
            Ok(text) => json_string_list(texts(list@)) == Some(text@),
            Err(_) => json_string_list(texts(list@)) is None,
        },
{
    serde_json::to_string(list)
}

/// Formats a `serde_json::Error` with its `Display`. Nothing is claimed of the text.
#[verifier::external_body]
pub(crate) fn json_error_message(error: &serde_json::Error) -> String {
    error.to_string()
}

} // verus!
