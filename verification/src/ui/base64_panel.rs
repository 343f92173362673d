//! The Base64 tool of the desktop application: encodes the input, or decodes
//! it and shows text, or hexadecimal when the bytes are not UTF-8.

use crate::cmd::base64::{base64_decoding, base64_encoded, decode_bytes, encode, shown_bytes};
use crate::hexfmt::hex_chars;
use crate::locale::L10n;
use crate::text::{owned, string_from_chars, string_from_utf8};
use vstd::prelude::*;
use vstd::utf8::{encode_utf8, valid_utf8};

verus! {

/// What the Base64 tool shows: a text, and whether it is the hexadecimal
/// form of bytes that are not UTF-8.
pub struct Base64Result {
    pub value: String,
    pub is_binary: bool,
}

/// The state of the Base64 tool.
pub struct Base64Panel {
    /// Whether the URL-safe alphabet is chosen.
    pub url_safe: bool,
    /// Whether encoding pads with `=`.
    pub padded: bool,
    /// The last result.
    pub result: Option<Base64Result>,
    /// The message shown when the input is not Base64.
    pub error: Option<String>,
}

impl Base64Panel {
    /// The tool at start: standard alphabet, padded, nothing shown.
    pub fn new() -> (res: Self)
        ensures
            !res.url_safe,
            res.padded,
            res.result is None,
            res.error is None,
    {
        Base64Panel { url_safe: false, padded: true, result: None, error: None }
    }

    /// Shows the Base64 of the UTF-8 bytes of the input.
    pub fn encode(&mut self, input: &str)
        ensures
            final(self).url_safe == old(self).url_safe,
            final(self).padded == old(self).padded,
            final(self).result matches Some(r) && !r.is_binary && r.value@ == base64_encoded(
                encode_utf8(input@),
                old(self).url_safe,
                old(self).padded,
            ),
            final(self).error is None,
    {
        let value = encode(input, self.url_safe, self.padded);
        self.result = Some(Base64Result { value, is_binary: false });
        self.error = None;
    }

    /// Decodes the input (padding optional): shows the text, or the
    /// uppercase hexadecimal of bytes that are not UTF-8; shows the error
    /// message when the input is not Base64. A message shown before stays
    /// when decoding succeeds.
    pub fn decode(&mut self, l10n: &L10n, input: &str)
        ensures
            final(self).url_safe == old(self).url_safe,
            final(self).padded == old(self).padded,
            match base64_decoding(input@, old(self).url_safe) {
                Some(bytes) => (final(self).result matches Some(r) && r.value@ == shown_bytes(bytes)
                    && r.is_binary == !valid_utf8(bytes)) && final(self).error == old(self).error,
                None => final(self).result is None && (final(self).error matches Some(e) && e@
                    == l10n.base64_error@),
            },
    {
        match decode_bytes(input, self.url_safe) {
            Ok(bytes) => match string_from_utf8(bytes) {
                Ok(text) => {
                    self.result = Some(Base64Result { value: text, is_binary: false });
                },
                Err(raw) => {
                    let hex = string_from_chars(&hex_chars(raw.as_slice(), false));
                    self.result = Some(Base64Result { value: hex, is_binary: true });
                },
            },
            Err(_) => {
                self.error = Some(owned(l10n.base64_error));
                self.result = None;
            },
        }
    }

    /// Chooses the alphabet and clears what is shown.
    pub fn select_url_safe(&mut self, url_safe: bool)
        ensures
            final(self).url_safe == url_safe,
            final(self).padded == old(self).padded,
            final(self).result is None,
            final(self).error is None,
    {
        self.url_safe = url_safe;
        self.result = None;
        self.error = None;
    }

    /// Chooses whether encoding pads, and clears what is shown.
    pub fn select_padded(&mut self, padded: bool)
        ensures
            final(self).url_safe == old(self).url_safe,
            final(self).padded == padded,
            final(self).result is None,
            final(self).error is None,
    {
        self.padded = padded;
        self.result = None;
        self.error = None;
    }

    /// Clears what is shown; the options stay.
    pub fn clear(&mut self)
        ensures
            final(self).url_safe == old(self).url_safe,
            final(self).padded == old(self).padded,
            final(self).result is None,
            final(self).error is None,
    {
        self.result = None;
        self.error = None;
    }
}

} // verus!
