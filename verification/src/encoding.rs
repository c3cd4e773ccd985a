//! The serialized form of room keys.
//!
//! A room key is the base64 text of the JSON encoding of a string. Both
//! encodings are computed by `cosmwasm_std`; this module gives their results a
//! name so that contracts can speak of them. Nothing here is proved: the two
//! functions below are the boundary to that crate.

use vstd::prelude::*;

verus! {

/// The JSON text of a string, as bytes: the string between double quotes,
/// with quotes, backslashes and control characters escaped, in UTF-8.
pub uninterp spec fn json_string_bytes(text: Seq<char>) -> Seq<u8>;

/// The base64 text of a byte string, in the standard alphabet with padding.
pub uninterp spec fn base64_text(bytes: Seq<u8>) -> Seq<char>;

/// Calls `cosmwasm_std::to_json_binary` on a string and hands out the bytes of
/// the `Binary` it returns.
///
/// Assumed: the bytes are the JSON text of `text`, a function of `text` alone,
/// and the call succeeds for every string (the serializer behind it writes a
/// string without ever reporting an error).
#[verifier::external_body]
pub(crate) fn to_json_bytes(text: &str) -> (bytes: Option<Vec<u8>>)
    ensures
        bytes is Some,
        bytes->0@ == json_string_bytes(text@),
{
    cosmwasm_std::to_json_binary(text).ok().map(|binary| binary.0)
}

/// Calls `cosmwasm_std::Binary::to_base64` on the given bytes.
///
/// Assumed: the text is the base64 encoding of `bytes`, a function of `bytes`
/// alone.
#[verifier::external_body]
pub(crate) fn to_base64(bytes: Vec<u8>) -> (text: String)
    ensures
        text@ == base64_text(bytes@),
{
    cosmwasm_std::Binary(bytes).to_base64()
}

} // verus!
