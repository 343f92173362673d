//! Base64 (RFC 4648) with the standard or the URL-safe alphabet.

use crate::hexfmt::{encode_upper, hex_text};
use crate::pretty::{Report, ReportLine};
use crate::text::{chars_of, string_from_chars, string_from_utf8};
use ::base64::alphabet::{STANDARD, URL_SAFE};
use ::base64::engine::general_purpose::{GeneralPurpose, GeneralPurposeConfig};
use ::base64::engine::DecodePaddingMode;
use ::base64::Engine;
use vstd::prelude::*;
use vstd::utf8::{decode_utf8, encode_utf8, valid_utf8};

verus! {

broadcast use vstd::utf8::group_utf8_lib;

/// The error `base64` reports for text that is not Base64.
#[verifier::external_type_specification]
#[verifier::external_body]
pub struct ExDecodeError(::base64::DecodeError);

/// The Base64 symbol for the 6-bit value `v`.
pub open spec fn symbol(v: nat, url_safe: bool) -> char {
    if v < 26 {
        (65 + v) as char
    } else if v < 52 {
        (97 + v - 26) as char
    } else if v < 62 {
        (48 + v - 52) as char
    } else if v == 62 {
        if url_safe {
            '-'
        } else {
            '+'
        }
    } else if url_safe {
        '_'
    } else {
        '/'
    }
}

/// The Base64 text of `bytes`: four symbols per three bytes; a last group of
/// one or two bytes gives two or three symbols, followed by `=` signs up to
/// four when `padded`.
pub open spec fn base64_encoded(bytes: Seq<u8>, url_safe: bool, padded: bool) -> Seq<char>
    decreases bytes.len(),
{
    if bytes.len() == 0 {
        Seq::empty()
    } else if bytes.len() >= 3 {
        let (b0, b1, b2) = (bytes[0] as nat, bytes[1] as nat, bytes[2] as nat);
        seq![
            symbol(b0 / 4, url_safe),
            symbol((b0 % 4) * 16 + b1 / 16, url_safe),
            symbol((b1 % 16) * 4 + b2 / 64, url_safe),
            symbol(b2 % 64, url_safe),
        ] + base64_encoded(bytes.skip(3), url_safe, padded)
    } else if bytes.len() == 2 {
        let (b0, b1) = (bytes[0] as nat, bytes[1] as nat);
        seq![
            symbol(b0 / 4, url_safe),
            symbol((b0 % 4) * 16 + b1 / 16, url_safe),
            symbol((b1 % 16) * 4, url_safe),
        ] + if padded {
            seq!['=']
        } else {
            Seq::empty()
        }
    } else {
        let b0 = bytes[0] as nat;
        seq![symbol(b0 / 4, url_safe), symbol((b0 % 4) * 16, url_safe)] + if padded {
            seq!['=', '=']
        } else {
            Seq::empty()
        }
    }
}

/// Whether `text` is the encoding of `bytes`, padded or not.
pub open spec fn canonical_encoding(bytes: Seq<u8>, url_safe: bool, text: Seq<char>) -> bool {
    base64_encoded(bytes, url_safe, true) == text || base64_encoded(bytes, url_safe, false) == text
}

/// Whether the decoding result holds exactly `bytes`.
pub open spec fn is_decoding_of(res: Result<Vec<u8>, ::base64::DecodeError>, bytes: Seq<u8>) -> bool {
    res matches Ok(v) && v@ == bytes
}

/// The bytes that `base64` decodes from `text` with the standard or URL-safe
/// alphabet, trailing padding optional; `None` when it reports an error.
pub uninterp spec fn base64_decoding(text: Seq<char>, url_safe: bool) -> Option<Seq<u8>>;

/// Encodes with `base64`'s `GeneralPurpose` engine, standard alphabet,
/// padding as given. Claimed: the text is the RFC 4648 encoding that
/// `base64_encoded` spells out.
#[verifier::external_body]
fn encode_standard(data: &[u8], padded: bool) -> (res: String)
    ensures
        res@ == base64_encoded(data@, false, padded),
{
    GeneralPurpose::new(&STANDARD, GeneralPurposeConfig::new().with_encode_padding(padded)).encode(
        data,
    )
}

/// Encodes with `base64`'s `GeneralPurpose` engine, URL-safe alphabet
/// (`-` and `_`), padding as given. Claimed: the text is the RFC 4648
/// encoding that `base64_encoded` spells out.
#[verifier::external_body]
fn encode_url_safe(data: &[u8], padded: bool) -> (res: String)
    ensures
        res@ == base64_encoded(data@, true, padded),
{
    GeneralPurpose::new(&URL_SAFE, GeneralPurposeConfig::new().with_encode_padding(padded)).encode(
        data,
    )
}

/// Decodes with `base64`'s `GeneralPurpose` engine, standard alphabet, in
/// the padding mode `Indifferent`. Claimed: the result is `base64_decoding`
/// of the text; and the canonical encoding of any bytes, padded or not,
/// decodes to those bytes, as the crate documents. Which texts it rejects,
/// and how it decodes non-canonical ones, is left to the name.
#[verifier::external_body]
fn decode_standard(text: &str) -> (res: Result<Vec<u8>, ::base64::DecodeError>)
    ensures
        forall|b: Seq<u8>| canonical_encoding(b, false, text@) ==> is_decoding_of(res, b),
        (match res {
            Ok(v) => base64_decoding(text@, false) == Some(v@),
            Err(_) => base64_decoding(text@, false) is None,
        }),
{
    GeneralPurpose::new(
        &STANDARD,
        GeneralPurposeConfig::new().with_decode_padding_mode(DecodePaddingMode::Indifferent),
    ).decode(text.as_bytes())
}

/// Decodes with `base64`'s `GeneralPurpose` engine, URL-safe alphabet, in
/// the padding mode `Indifferent`. Claimed as for the standard alphabet.
#[verifier::external_body]
fn decode_url_safe(text: &str) -> (res: Result<Vec<u8>, ::base64::DecodeError>)
    ensures
        forall|b: Seq<u8>| canonical_encoding(b, true, text@) ==> is_decoding_of(res, b),
        (match res {
            Ok(v) => base64_decoding(text@, true) == Some(v@),
            Err(_) => base64_decoding(text@, true) is None,
        }),
{
    GeneralPurpose::new(
        &URL_SAFE,
        GeneralPurposeConfig::new().with_decode_padding_mode(DecodePaddingMode::Indifferent),
    ).decode(text.as_bytes())
}

/// Base64 of the UTF-8 bytes of `input`.
pub fn encode(input: &str, url_safe: bool, padded: bool) -> (res: String)
    ensures
        res@ == base64_encoded(encode_utf8(input@), url_safe, padded),
{
    if url_safe {
        encode_url_safe(input.as_bytes(), padded)
    } else {
        encode_standard(input.as_bytes(), padded)
    }
}

/// The decoded bytes of `input`.
pub fn decode_bytes(input: &str, url_safe: bool) -> (res: Result<Vec<u8>, ::base64::DecodeError>)
    ensures
        match res {
            Ok(v) => base64_decoding(input@, url_safe) == Some(v@),
            Err(_) => base64_decoding(input@, url_safe) is None,
        },
        forall|b: Seq<u8>| canonical_encoding(b, url_safe, input@) ==> is_decoding_of(res, b),
{
    if url_safe {
        decode_url_safe(input)
    } else {
        decode_standard(input)
    }
}

/// How decoded bytes are shown: as text when they are UTF-8, otherwise as
/// uppercase hexadecimal.
pub open spec fn shown_bytes(bytes: Seq<u8>) -> Seq<char> {
    if valid_utf8(bytes) {
        decode_utf8(bytes)
    } else {
        hex_text(bytes, false)
    }
}

/// Decodes `input`: the decoded text, or the hexadecimal form of the bytes
/// when they are not UTF-8; fails when `input` is not Base64.
pub fn decode(input: &str, url_safe: bool) -> (res: Result<String, ::base64::DecodeError>)
    ensures
        match base64_decoding(input@, url_safe) {
            Some(bytes) => res matches Ok(s) && s@ == shown_bytes(bytes),
            None => res is Err,
        },
        forall|t: Seq<char>|
            #[trigger] canonical_encoding(encode_utf8(t), url_safe, input@) ==> (res matches Ok(s)
                && s@ == t),
{
    let decoded = decode_bytes(input, url_safe);
    let ghost g = decoded;
    let bytes = match decoded {
        Ok(b) => b,
        Err(e) => {
            proof {
                assert forall|t: Seq<char>|
                    #[trigger] canonical_encoding(encode_utf8(t), url_safe, input@) implies false by {
                    assert(is_decoding_of(g, encode_utf8(t)));
                }
            }
            return Err(e);
        },
    };
    proof {
        assert forall|t: Seq<char>|
            #[trigger] canonical_encoding(encode_utf8(t), url_safe, input@) implies bytes@
            == encode_utf8(t) by {
            assert(is_decoding_of(g, encode_utf8(t)));
        }
    }
    match string_from_utf8(bytes) {
        Ok(s) => Ok(s),
        Err(raw) => Ok(encode_upper(raw.as_slice())),
    }
}

/// The arguments of the Base64 encode command.
pub struct EncodeArgs {
    /// The text to encode.
    pub text: String,
    /// Whether to use the URL-safe alphabet.
    pub url_safe: bool,
    /// Whether to leave the padding out.
    pub no_padding: bool,
}

/// The arguments of the Base64 decode command.
pub struct DecodeArgs {
    /// The text to decode.
    pub text: String,
    /// Whether it uses the URL-safe alphabet.
    pub url_safe: bool,
}

/// The Base64 encode report: the header `Base64 Encode` and the encoding of
/// the UTF-8 bytes of the text.
pub fn run_encode(args: EncodeArgs) -> (res: Report)
    ensures
        res.header@ == "Base64 Encode"@,
        res.lines@.len() == 1,
        res.lines@[0] matches ReportLine::Text(t) && t@ == base64_encoded(
            encode_utf8(args.text@),
            args.url_safe,
            !args.no_padding,
        ),
{
    let mut lines: Vec<ReportLine> = Vec::new();
    lines.push(ReportLine::Text(encode(args.text.as_str(), args.url_safe, !args.no_padding)));
    Report { header: string_from_chars(&chars_of("Base64 Encode")), lines }
}

/// The Base64 decode report: the header `Base64 Decode` and what `decode`
/// shows; fails, printing nothing, when the text is not Base64.
pub fn run_decode(args: DecodeArgs) -> (res: Result<Report, ::base64::DecodeError>)
    ensures
        match base64_decoding(args.text@, args.url_safe) {
            Some(bytes) => res matches Ok(r) && r.header@ == "Base64 Decode"@ && r.lines@.len() == 1
                && (r.lines@[0] matches ReportLine::Text(t) && t@ == shown_bytes(bytes)),
            None => res is Err,
        },
{
    let shown = match decode(args.text.as_str(), args.url_safe) {
        Ok(s) => s,
        Err(e) => return Err(e),
    };
    let mut lines: Vec<ReportLine> = Vec::new();
    lines.push(ReportLine::Text(shown));
    Ok(Report { header: string_from_chars(&chars_of("Base64 Decode")), lines })
}

/// What `encode` writes, padded or not, is the canonical encoding of the
/// text's bytes; so `decode` gives the text back (see its contract).
pub proof fn lemma_base64_roundtrip(t: Seq<char>, url_safe: bool, padded: bool)
    ensures
        canonical_encoding(encode_utf8(t), url_safe, base64_encoded(encode_utf8(t), url_safe, padded)),
{
}

} // verus!
