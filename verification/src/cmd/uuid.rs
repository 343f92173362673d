//! UUIDs of version 4 (random) and version 7 (time-ordered), written with
//! or without hyphens.

use crate::hexfmt::{hex_digit, hex_text};
use crate::pretty::{Report, ReportLine};
use crate::text::{chars_of, concat, string_from_chars};
use uuid::Uuid;
use vstd::prelude::*;

verus! {

/// The UUID version to generate.
#[derive(Clone, Copy, Debug, PartialEq, Eq, Structural)]
pub enum Version {
    /// Random.
    V4,
    /// Unix time in milliseconds, then random bits.
    V7,
}

/// The version number a UUID of this version carries.
pub open spec fn version_number(v: Version) -> int {
    match v {
        Version::V4 => 4,
        Version::V7 => 7,
    }
}

/// The name of a version, `V4` or `V7`.
pub open spec fn version_label(v: Version) -> Seq<char> {
    match v {
        Version::V4 => "V4"@,
        Version::V7 => "V7"@,
    }
}

impl Version {
    /// The name of the version, `V4` or `V7`.
    pub fn label(&self) -> (res: String)
        ensures
            res@ == version_label(*self),
    {
        match self {
            Version::V4 => string_from_chars(&chars_of("V4")),
            Version::V7 => string_from_chars(&chars_of("V7")),
        }
    }
}

/// Whether the 16 bytes are a UUID of the version: the version number in
/// the high nibble of byte 6 and the RFC 4122 variant (`10` in the two high
/// bits) in byte 8.
pub open spec fn is_uuid_of(bytes: Seq<u8>, v: Version) -> bool {
    &&& bytes.len() == 16
    &&& bytes[6] / 16 == version_number(v)
    &&& bytes[8] / 64 == 2
}

/// The text of a UUID in lowercase hexadecimal: with hyphens, in groups of
/// 8, 4, 4, 4 and 12 digits; without, the 32 digits alone.
pub open spec fn uuid_text(bytes: Seq<u8>, hyphens: bool) -> Seq<char> {
    if hyphens {
        hex_text(bytes.subrange(0, 4), true) + seq!['-'] + hex_text(bytes.subrange(4, 6), true)
            + seq!['-'] + hex_text(bytes.subrange(6, 8), true) + seq!['-'] + hex_text(
            bytes.subrange(8, 10),
            true,
        ) + seq!['-'] + hex_text(bytes.subrange(10, 16), true)
    } else {
        hex_text(bytes, true)
    }
}

/// `Uuid::new_v4` of `uuid`, as bytes. Claimed: a UUID of version 4 (its
/// bits otherwise come from the system's random source).
#[verifier::external_body]
fn new_v4_bytes() -> (res: [u8; 16])
    ensures
        is_uuid_of(res@, Version::V4),
{
    *Uuid::new_v4().as_bytes()
}

/// `Uuid::now_v7` of `uuid`, as bytes. Claimed: a UUID of version 7 (its
/// bits otherwise come from the clock and the system's random source).
#[verifier::external_body]
fn now_v7_bytes() -> (res: [u8; 16])
    ensures
        is_uuid_of(res@, Version::V7),
{
    *Uuid::now_v7().as_bytes()
}

/// `Uuid::hyphenated` of `uuid`, as text. Claimed: `uuid_text` with hyphens,
/// the lowercase form its documentation gives.
#[verifier::external_body]
fn hyphenated_text(bytes: [u8; 16]) -> (res: String)
    ensures
        res@ == uuid_text(bytes@, true),
{
    Uuid::from_bytes(bytes).hyphenated().to_string()
}

/// `Uuid::simple` of `uuid`, as text. Claimed: `uuid_text` without hyphens,
/// the 32 lowercase digits its documentation gives.
#[verifier::external_body]
fn simple_text(bytes: [u8; 16]) -> (res: String)
    ensures
        res@ == uuid_text(bytes@, false),
{
    Uuid::from_bytes(bytes).simple().to_string()
}

/// A new UUID of the version.
pub fn new_uuid(version: Version) -> (res: [u8; 16])
    ensures
        is_uuid_of(res@, version),
{
    match version {
        Version::V4 => new_v4_bytes(),
        Version::V7 => now_v7_bytes(),
    }
}

/// The text of a UUID, with or without hyphens.
pub fn uuid_string(bytes: [u8; 16], hyphens: bool) -> (res: String)
    ensures
        res@ == uuid_text(bytes@, hyphens),
{
    if hyphens {
        hyphenated_text(bytes)
    } else {
        simple_text(bytes)
    }
}

/// Whether `t` is the text of some UUID of the version.
pub open spec fn uuid_text_of(t: Seq<char>, version: Version, hyphens: bool) -> bool {
    exists|b: Seq<u8>| is_uuid_of(b, version) && #[trigger] uuid_text(b, hyphens) == t
}

/// `count` new UUIDs of the version, as text.
pub fn generate(version: Version, count: usize, hyphens: bool) -> (res: Vec<String>)
    ensures
        res@.len() == count,
        forall|i: int| 0 <= i < count ==> uuid_text_of((#[trigger] res@[i])@, version, hyphens),
{
    let mut out: Vec<String> = Vec::new();
    let mut k: usize = 0;
    while k < count
        invariant
            0 <= k <= count,
            out@.len() == k,
            forall|i: int| 0 <= i < k ==> uuid_text_of((#[trigger] out@[i])@, version, hyphens),
        decreases count - k,
    {
        let bytes = new_uuid(version);
        let text = uuid_string(bytes, hyphens);
        assert(uuid_text(bytes@, hyphens) == text@);
        out.push(text);
        k = k + 1;
    }
    out
}

/// The arguments of the UUID command.
pub struct Args {
    /// How many UUIDs to print.
    pub count: usize,
    /// Their version.
    pub version: Version,
    /// Whether to leave the hyphens out.
    pub no_hyphens: bool,
}

/// The UUID report: the header `# UUID` with the version, then `count`
/// new UUIDs of that version, one per line.
pub fn run(args: Args) -> (res: Report)
    ensures
        res.header@ == "# UUID "@ + version_label(args.version),
        res.lines@.len() == args.count,
        forall|i: int|
            0 <= i < args.count ==> (#[trigger] res.lines@[i] matches ReportLine::Text(t)
                && uuid_text_of(t@, args.version, !args.no_hyphens)),
{
    let texts = generate(args.version, args.count, !args.no_hyphens);
    let mut lines: Vec<ReportLine> = Vec::new();
    let mut k: usize = 0;
    while k < texts.len()
        invariant
            0 <= k <= texts@.len(),
            texts@.len() == args.count,
            forall|i: int|
                0 <= i < args.count ==> uuid_text_of((#[trigger] texts@[i])@, args.version, !args.no_hyphens),
            lines@.len() == k,
            forall|i: int|
                0 <= i < k ==> (#[trigger] lines@[i] matches ReportLine::Text(t) && uuid_text_of(
                    t@,
                    args.version,
                    !args.no_hyphens,
                )),
        decreases texts@.len() - k,
    {
        lines.push(ReportLine::Text(texts[k].clone()));
        k = k + 1;
    }
    let header = concat(&chars_of("# UUID "), &chars_of(args.version.label().as_str()));
    Report { header: string_from_chars(&header), lines }
}

/// A UUID written with hyphens has 36 characters, hyphens at 8, 13, 18 and
/// 23, its version digit at 14 and one of `8`, `9`, `a`, `b` at 19; written
/// without, 32 characters with those digits at 12 and 16.
pub proof fn lemma_uuid_text_layout(b: Seq<u8>, v: Version)
    requires
        is_uuid_of(b, v),
    ensures
        ({
            let t = uuid_text(b, true);
            &&& t.len() == 36
            &&& t[8] == '-' && t[13] == '-' && t[18] == '-' && t[23] == '-'
            &&& t[14] == hex_digit(version_number(v) as nat, true)
            &&& 8 <= b[8] / 16 <= 11 && t[19] == hex_digit((b[8] / 16) as nat, true)
        }),
        ({
            let t = uuid_text(b, false);
            &&& t.len() == 32
            &&& t[12] == hex_digit(version_number(v) as nat, true)
            &&& t[16] == hex_digit((b[8] / 16) as nat, true)
        }),
{
    let g1 = hex_text(b.subrange(0, 4), true);
    let g2 = hex_text(b.subrange(4, 6), true);
    let g3 = hex_text(b.subrange(6, 8), true);
    let g4 = hex_text(b.subrange(8, 10), true);
    let g5 = hex_text(b.subrange(10, 16), true);
    let t = uuid_text(b, true);
    assert(t == g1 + seq!['-'] + g2 + seq!['-'] + g3 + seq!['-'] + g4 + seq!['-'] + g5);
    assert(g3[0] == hex_digit((b[6] / 16) as nat, true));
    assert(g4[0] == hex_digit((b[8] / 16) as nat, true));
    assert(t[14] == g3[0]);
    assert(t[19] == g4[0]);
    let u = uuid_text(b, false);
    assert(u[12] == hex_digit((b[6] / 16) as nat, true));
    assert(u[16] == hex_digit((b[8] / 16) as nat, true));
}

} // verus!
