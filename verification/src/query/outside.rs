//! The calls into `serde_json` and `base64`, with what is taken on trust of each.

use vstd::prelude::*;
use base64::Engine;
use serde_json::Error as JsonError;

verus! {

/// `serde_json::Error`, carried from the JSON parser to where it is turned into an [`Error`].
#[verifier::external_type_specification]
#[verifier::external_body]
pub struct ExJsonError(JsonError);

/// `base64::DecodeError`, carried from the decoder to where it is turned into an [`Error`].
#[verifier::external_type_specification]
#[verifier::external_body]
pub struct ExDecodeError(base64::DecodeError);

/// The JSON text that `serde_json::to_vec` writes for a string.
pub uninterp spec fn json_text(key: Seq<char>) -> Seq<u8>;

/// The string that `serde_json::from_slice` reads from `text`, if it reads one.
pub uninterp spec fn json_string(text: Seq<u8>) -> Option<Seq<char>>;

/// What the `URL_SAFE_NO_PAD` engine of `base64` encodes `bytes` as.
pub uninterp spec fn base64_text(bytes: Seq<u8>) -> Seq<char>;

/// What the `URL_SAFE_NO_PAD` engine of `base64` decodes `text` to, if it accepts it.
pub uninterp spec fn base64_bytes(text: Seq<char>) -> Option<Seq<u8>>;

/// Calls `serde_json::to_vec` on a string. Trusted: the call never fails on a string (the
/// writer is a `Vec`, and a string has no other way to fail), its output is a function of
/// the string alone, and `serde_json::from_slice` reads the same string back from it.
#[verifier::external_body]
pub(crate) fn json_to_vec(key: &str) -> (res: std::result::Result<Vec<u8>, JsonError>)
    ensures
        match res {
            Ok(text) => text@ == json_text(key@) && json_string(text@) == Some(key@),
            Err(_) => false,
        },
{
    serde_json::to_vec(key)
}

/// Calls `serde_json::from_slice` for a `String`. Trusted: whether it succeeds, and with
/// which string, is a function of the bytes alone.
#[verifier::external_body]
pub(crate) fn json_from_slice(text: &[u8]) -> (res: std::result::Result<String, JsonError>)
    ensures
        match res {
            Ok(key) => json_string(text@) == Some(key@),
            Err(_) => json_string(text@) is None,
        },
{
    serde_json::from_slice::<String>(text)
}

/// Calls `Engine::encode` on `URL_SAFE_NO_PAD`. Trusted: the output is a function of the
/// bytes alone, and `Engine::decode` on the same engine gives the bytes back.
#[verifier::external_body]
pub(crate) fn base64_encode(bytes: &[u8]) -> (text: String)
    ensures
        text@ == base64_text(bytes@),
        base64_bytes(text@) == Some(bytes@),
{
    base64::engine::general_purpose::URL_SAFE_NO_PAD.encode(bytes)
}

/// Calls `Engine::decode` on `URL_SAFE_NO_PAD`. Trusted: whether it succeeds, and with
/// which bytes, is a function of the text alone.
#[verifier::external_body]
pub(crate) fn base64_decode(text: &str) -> (res: std::result::Result<Vec<u8>, base64::DecodeError>)
    ensures
        match res {
            Ok(bytes) => base64_bytes(text@) == Some(bytes@),
            Err(_) => base64_bytes(text@) is None,
        },
{
    base64::engine::general_purpose::URL_SAFE_NO_PAD.decode(text)
}

/// The text that `base64::DecodeError` is displayed as. Nothing is claimed of it.
#[verifier::external_body]
pub(crate) fn decode_error_text(err: &base64::DecodeError) -> String {
    err.to_string()
}

/// The text that `serde_json::Error` is displayed as. Nothing is claimed of it.
#[verifier::external_body]
pub(crate) fn json_error_text(err: &JsonError) -> String {
    err.to_string()
}

} // verus!
