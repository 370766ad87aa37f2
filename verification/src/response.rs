//! What the node answers: JSON text, of which the protocol reads two string
//! members.

use vstd::prelude::*;

verus! {

/// `serde_json::Value`: a decoded answer, handed on as it is.
#[verifier::external_type_specification]
#[verifier::external_body]
pub struct ExValue(serde_json::Value);

/// `serde_json::Error`: why a text is no JSON. Nothing is read of it.
#[verifier::external_type_specification]
#[verifier::external_body]
pub struct ExJsonError(serde_json::Error);

/// The members of a JSON value that are strings, by their keys. A value
/// that is no object has none.
pub uninterp spec fn string_members(value: serde_json::Value) -> Map<Seq<char>, Seq<char>>;

/// The string members of the JSON value that a text decodes to, or `None`
/// where the text is no JSON.
pub uninterp spec fn decoded_members(text: Seq<char>) -> Option<Map<Seq<char>, Seq<char>>>;

/// Why an attempt to publish a question failed.
#[derive(Clone, Copy, Debug, PartialEq, Eq, Structural)]
pub enum PostError {
    /// A request got no answer.
    NetworkFailure,
    /// An answer was no JSON, or lacked the string that it has to hold.
    DecodeFailure,
    /// The unsigned transaction could not be signed.
    SigningFailure,
}

/// The key of the unsigned transaction in the answer to a post.
pub open spec fn transaction_hex_key() -> Seq<char> {
    "TransactionHex"@
}

/// The key of the transaction's hash in the answer to a broadcast.
pub open spec fn txn_hash_hex_key() -> Seq<char> {
    "TxnHashHex"@
}

/// The member of a map of strings, if it is there.
pub open spec fn member(members: Map<Seq<char>, Seq<char>>, key: Seq<char>) -> Option<Seq<char>> {
    if members.contains_key(key) {
        Some(members[key])
    } else {
        None
    }
}

/// The text of an answer, if there is one.
pub open spec fn text_of(reply: Option<&str>) -> Option<Seq<char>> {
    match reply {
        Some(text) => Some(text@),
        None => None,
    }
}

/// The string members of the answer to a request: a request that got no
/// answer failed on the network, an answer that is no JSON fails to decode.
pub open spec fn reply_members(reply: Option<Seq<char>>) -> Result<
    Map<Seq<char>, Seq<char>>,
    PostError,
> {
    match reply {
        None => Err(PostError::NetworkFailure),
        Some(text) => match decoded_members(text) {
            None => Err(PostError::DecodeFailure),
            Some(members) => Ok(members),
        },
    }
}

/// The string that an answer has to hold under a key: an answer without
/// a string of that key fails to decode.
pub open spec fn field(members: Map<Seq<char>, Seq<char>>, key: Seq<char>) -> Result<
    Seq<char>,
    PostError,
> {
    match member(members, key) {
        Some(text) => Ok(text),
        None => Err(PostError::DecodeFailure),
    }
}

/// A string or the failure that stands in its place, in contracts.
pub open spec fn text_view(outcome: Result<String, PostError>) -> Result<Seq<char>, PostError> {
    match outcome {
        Ok(text) => Ok(text@),
        Err(error) => Err(error),
    }
}

/// Decodes the answer to a request. `None` stands for a request that got
/// no answer.
pub fn decode_reply(reply: Option<&str>) -> (decoded: Result<serde_json::Value, PostError>)
    ensures
        reply_members(text_of(reply)) == match decoded {
            Ok(value) => Ok::<Map<Seq<char>, Seq<char>>, PostError>(string_members(value)),
            Err(error) => Err(error),
        },
{
    match reply {
        None => Err(PostError::NetworkFailure),
        Some(text) => decoding_outcome(json_from_str(text)),
    }
}

/// What `decode_reply` makes of the decoder's answer: the value, or the
/// failure without the decoder's message.
pub fn decoding_outcome(answer: Result<serde_json::Value, serde_json::Error>) -> (decoded: Result<
    serde_json::Value,
    PostError,
>)
    ensures
        match answer {
            Ok(value) => decoded == Ok::<serde_json::Value, PostError>(value),
            Err(_) => decoded == Err::<serde_json::Value, PostError>(PostError::DecodeFailure),
        },
{
    match answer {
        Ok(value) => Ok(value),
        Err(_) => Err(PostError::DecodeFailure),
    }
}

/// The unsigned transaction in the answer to a post.
pub fn transaction_hex(response: &serde_json::Value) -> (hex: Result<String, PostError>)
    ensures
        text_view(hex) == field(string_members(*response), transaction_hex_key()),
{
    required(json_string_member(response, "TransactionHex"))
}

/// The hash of the transaction in the answer to a broadcast.
pub fn txn_hash_hex(response: &serde_json::Value) -> (hash: Result<String, PostError>)
    ensures
        text_view(hash) == field(string_members(*response), txn_hash_hex_key()),
{
    required(json_string_member(response, "TxnHashHex"))
}

/// The string that was found, or a decode failure where none was.
pub fn required(found: Option<String>) -> (outcome: Result<String, PostError>)
    ensures
        outcome == match found {
            Some(text) => Ok::<String, PostError>(text),
            None => Err(PostError::DecodeFailure),
        },
{
    match found {
        Some(text) => Ok(text),
        None => Err(PostError::DecodeFailure),
    }
}

/// Calls `serde_json::from_str` for a `serde_json::Value`.
///
/// Trusted: whether the text decodes, and to what, is a function of the
/// text alone.
#[verifier::external_body]
fn json_from_str(text: &str) -> (decoded: Result<serde_json::Value, serde_json::Error>)
    ensures
        match decoded {
            Ok(value) => decoded_members(text@) == Some(string_members(value)),
            Err(_) => decoded_members(text@) is None,
        },
{
    serde_json::from_str(text)
}

/// Indexes a `serde_json::Value` by a key and calls `Value::as_str` on
/// what is there.
///
/// Trusted: a string comes back exactly where the value is an object whose
/// member of that key is a string, and it is that string.
#[verifier::external_body]
fn json_string_member(value: &serde_json::Value, key: &str) -> (found: Option<String>)
    ensures
        match found {
            Some(text) => member(string_members(*value), key@) == Some(text@),
            None => member(string_members(*value), key@) is None,
        },
{
    value[key].as_str().map(str::to_owned)
}

} // verus!
