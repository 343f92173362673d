//! The URL tool of the desktop application: percent-encodes or decodes the
//! input.

use crate::cmd::url::{decode, decoded_text, encode, percent_encoded};
use vstd::prelude::*;
use vstd::utf8::encode_utf8;

verus! {

/// The state of the URL tool: the last result, if any.
pub struct UrlPanel {
    pub result: Option<String>,
}

impl UrlPanel {
    /// The tool at start: no result.
    pub fn new() -> (res: Self)
        ensures
            res.result is None,
    {
        UrlPanel { result: None }
    }

    /// Shows the percent-encoding of the input.
    pub fn url_encode(&mut self, input: &str)
        ensures
            final(self).result matches Some(r) && encode_utf8(r@) == percent_encoded(
                encode_utf8(input@),
            ),
    {
        self.result = Some(encode(input));
    }

    /// Shows the percent-decoding of the input (the input itself when the
    /// decoded bytes are not UTF-8).
    pub fn url_decode(&mut self, input: &str)
        ensures
            final(self).result matches Some(r) && r@ == decoded_text(input@),
    {
        self.result = Some(decode(input));
    }

    /// Clears the result.
    pub fn clear(&mut self)
        ensures
            final(self).result is None,
    {
        self.result = None;
    }
}

} // verus!
