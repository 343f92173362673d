//! Percent-encoding of URL components: every byte that is not an ASCII
//! letter or digit becomes `%XX`.

use crate::pretty::{Report, ReportLine};
use crate::text::{chars_of, string_from_chars};
use percent_encoding::{percent_decode, utf8_percent_encode, NON_ALPHANUMERIC};
use vstd::prelude::*;
use vstd::utf8::{decode_utf8, encode_utf8, valid_utf8};

verus! {

broadcast use vstd::utf8::group_utf8_lib;

/// ASCII letters and digits: the bytes that stay as they are.
pub open spec fn is_alphanumeric_byte(b: u8) -> bool {
    (48 <= b <= 57) || (65 <= b <= 90) || (97 <= b <= 122)
}

/// The uppercase hexadecimal digit byte of `d < 16`.
pub open spec fn upper_hex_byte(d: u8) -> u8 {
    if d < 10 {
        (48 + d) as u8
    } else {
        (55 + d) as u8
    }
}

/// What one byte becomes: itself, or `%` and two uppercase hex digits.
pub open spec fn encode_byte(b: u8) -> Seq<u8> {
    if is_alphanumeric_byte(b) {
        seq![b]
    } else {
        seq![37u8, upper_hex_byte(b / 16), upper_hex_byte(b % 16)]
    }
}

/// The percent-encoding of `bytes` (the bytes of the encoded text).
pub open spec fn percent_encoded(bytes: Seq<u8>) -> Seq<u8>
    decreases bytes.len(),
{
    if bytes.len() == 0 {
        Seq::empty()
    } else {
        encode_byte(bytes[0]) + percent_encoded(bytes.drop_first())
    }
}

/// Value of a byte read as a hexadecimal digit (either case).
pub open spec fn hex_byte_value(b: u8) -> Option<u8> {
    if 48 <= b <= 57 {
        Some((b - 48) as u8)
    } else if 65 <= b <= 70 {
        Some((b - 55) as u8)
    } else if 97 <= b <= 102 {
        Some((b - 87) as u8)
    } else {
        None
    }
}

/// Percent-decoding: `%` followed by two hex digits becomes that byte; every
/// other byte, a lone `%` included, stays as it is.
pub open spec fn percent_decoded(bytes: Seq<u8>) -> Seq<u8>
    decreases bytes.len(),
{
    if bytes.len() == 0 {
        Seq::empty()
    } else if bytes[0] == 37 && bytes.len() >= 3 && hex_byte_value(bytes[1]) is Some
        && hex_byte_value(bytes[2]) is Some {
        seq![
            (hex_byte_value(bytes[1])->Some_0 * 16 + hex_byte_value(bytes[2])->Some_0) as u8,
        ] + percent_decoded(bytes.skip(3))
    } else {
        seq![bytes[0]] + percent_decoded(bytes.drop_first())
    }
}

/// Percent-encodes the UTF-8 bytes of `input` with
/// `utf8_percent_encode(input, NON_ALPHANUMERIC)`. Its source encodes every
/// byte that is not ASCII or that the set `NON_ALPHANUMERIC` contains (all
/// ASCII but letters and digits) as `%` and two uppercase hex digits, and
/// keeps the others; the contract states exactly that, over the bytes of
/// the result.
#[verifier::external_body]
fn percent_encode_text(input: &str) -> (res: String)
    ensures
        encode_utf8(res@) == percent_encoded(encode_utf8(input@)),
{
    utf8_percent_encode(input, NON_ALPHANUMERIC).to_string()
}

/// Percent-decodes the bytes of `input` with `percent_decode` and reads the
/// result as UTF-8 with `decode_utf8`. Claimed: the decoded bytes are as
/// `percent_decoded` states; the result is present exactly when they are
/// valid UTF-8, and is then the text they encode.
#[verifier::external_body]
fn percent_decode_text(input: &str) -> (res: Option<String>)
    ensures
        match res {
            Some(s) => valid_utf8(percent_decoded(encode_utf8(input@))) && s@ == decode_utf8(
                percent_decoded(encode_utf8(input@)),
            ),
            None => !valid_utf8(percent_decoded(encode_utf8(input@))),
        },
{
    percent_decode(input.as_bytes()).decode_utf8().ok().map(|c| c.into_owned())
}

/// Percent-encodes `input`: ASCII letters and digits stay, every other byte
/// of its UTF-8 form becomes `%XX`.
pub fn encode(input: &str) -> (res: String)
    ensures
        encode_utf8(res@) == percent_encoded(encode_utf8(input@)),
{
    percent_encode_text(input)
}

/// What decoding `input` gives: the text of the decoded bytes, or `input`
/// itself when they are not valid UTF-8.
pub open spec fn decoded_text(input: Seq<char>) -> Seq<char> {
    let bytes = percent_decoded(encode_utf8(input));
    if valid_utf8(bytes) {
        decode_utf8(bytes)
    } else {
        input
    }
}

/// Percent-decodes `input`; when the result is not valid UTF-8, gives
/// `input` back unchanged.
pub fn decode(input: &str) -> (res: String)
    ensures
        res@ == decoded_text(input@),
{
    match percent_decode_text(input) {
        Some(s) => s,
        None => string_from_chars(&chars_of(input)),
    }
}

proof fn lemma_hex_byte_roundtrip(d: u8)
    requires
        d < 16,
    ensures
        hex_byte_value(upper_hex_byte(d)) == Some(d),
{
}

/// Decoding the encoding of a byte sequence gives it back.
pub proof fn lemma_percent_decode_encoded(bytes: Seq<u8>)
    ensures
        percent_decoded(percent_encoded(bytes)) == bytes,
    decreases bytes.len(),
{
    if bytes.len() > 0 {
        let b = bytes[0];
        let rest = percent_encoded(bytes.drop_first());
        lemma_percent_decode_encoded(bytes.drop_first());
        let all = encode_byte(b) + rest;
        if is_alphanumeric_byte(b) {
            assert(all.drop_first() =~= rest);
            assert(all[0] == b);
        } else {
            lemma_hex_byte_roundtrip(b / 16);
            lemma_hex_byte_roundtrip(b % 16);
            assert(all.skip(3) =~= rest);
            assert(all[0] == 37 && all[1] == upper_hex_byte(b / 16) && all[2] == upper_hex_byte(
                b % 16,
            ));
            assert((b / 16) * 16 + b % 16 == b);
        }
        assert(percent_decoded(all) =~= seq![b] + bytes.drop_first());
        assert(seq![b] + bytes.drop_first() =~= bytes);
    }
}

/// Decoding what `encode` gives returns the text that was encoded.
pub proof fn lemma_url_roundtrip(s: Seq<char>, encoded: Seq<char>)
    requires
        encode_utf8(encoded) == percent_encoded(encode_utf8(s)),
    ensures
        decoded_text(encoded) == s,
{
    lemma_percent_decode_encoded(encode_utf8(s));
}

/// The argument of the URL encode command: the text.
pub struct EncodeArgs {
    pub text: String,
}

/// The argument of the URL decode command: the text.
pub struct DecodeArgs {
    pub text: String,
}

/// The URL encode report: the header `URL Encode` and the encoded text.
pub fn run_encode(args: EncodeArgs) -> (res: Report)
    ensures
        res.header@ == "URL Encode"@,
        res.lines@.len() == 1,
        res.lines@[0] matches ReportLine::Text(t) && encode_utf8(t@) == percent_encoded(
            encode_utf8(args.text@),
        ),
{
    let mut lines: Vec<ReportLine> = Vec::new();
    lines.push(ReportLine::Text(encode(args.text.as_str())));
    Report { header: string_from_chars(&chars_of("URL Encode")), lines }
}

/// The URL decode report: the header `URL Decode` and the decoded text.
pub fn run_decode(args: DecodeArgs) -> (res: Report)
    ensures
        res.header@ == "URL Decode"@,
        res.lines@.len() == 1,
        res.lines@[0] matches ReportLine::Text(t) && t@ == decoded_text(args.text@),
{
    let mut lines: Vec<ReportLine> = Vec::new();
    lines.push(ReportLine::Text(decode(args.text.as_str())));
    Report { header: string_from_chars(&chars_of("URL Decode")), lines }
}

} // verus!
