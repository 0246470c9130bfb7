//! The cursor codec: a key, written as JSON text, in URL-safe base64 without padding.

use vstd::prelude::*;
use crate::query::outside::{
    base64_bytes, base64_decode, base64_encode, base64_text, decode_error_text, json_error_text,
    json_from_slice, json_string, json_text, json_to_vec,
};
use crate::error::Error;

verus! {

/// The cursor that stands for `key`.
pub open spec fn cursor_text(key: Seq<char>) -> Seq<char> {
    base64_text(json_text(key))
}

/// The key that `cursor` stands for, if it stands for one.
pub open spec fn cursor_key(cursor: Seq<char>) -> Option<Seq<char>> {
    match base64_bytes(cursor) {
        Some(bytes) => json_string(bytes),
        None => None,
    }
}

/// A position in a collection: the key of the item at that position.
#[derive(Debug, Default, Clone, PartialEq, Eq, Hash)]
pub struct OpaqueCursor<T>(pub T);

impl<T: View> View for OpaqueCursor<T> {
    type V = T::V;

    open spec fn view(&self) -> T::V {
        self.0@
    }
}

impl OpaqueCursor<String> {
    /// Reads a cursor. Succeeds exactly on the texts that stand for a key.
    pub fn decode_cursor(s: &str) -> (res: std::result::Result<Self, Error>)
        ensures
            match cursor_key(s@) {
                Some(key) => res matches Ok(cursor) && cursor@ == key,
                None => res matches Err(Error::CursorMalformed(_)),
            },
    {
        let bytes = match base64_decode(s) {
            Ok(bytes) => bytes,
            Err(err) => {
                return Err(Error::CursorMalformed(decode_error_text(&err)));
            },
        };
        match json_from_slice(bytes.as_slice()) {
            Ok(key) => Ok(OpaqueCursor(key)),
            Err(err) => Err(Error::CursorMalformed(json_error_text(&err))),
        }
    }

    /// Writes the cursor as text: a text that [`Self::decode_cursor`] reads the same key
    /// back from.
    pub fn encode_cursor(&self) -> (text: String)
        ensures
            text@ == cursor_text(self@),
            cursor_key(text@) == Some(self@),
    {
        let value = match json_to_vec(self.0.as_str()) {
            Ok(value) => value,
            Err(_) => Vec::new(),
        };
        base64_encode(value.as_slice())
    }
}

} // verus!
