//! Message digests (MD5, SHA-1, SHA-256, SHA-512, SHA3-256, SHA3-512, BLAKE3)
//! of a text, written in lowercase hexadecimal.

use crate::hexfmt::{encode_lower, hex_text};
use crate::pretty::{Report, ReportLine};
use crate::text::{chars_of, string_from_chars};
use md5::{Digest, Md5};
use sha1::Sha1;
use sha2::{Sha256, Sha512};
use sha3::{Sha3_256, Sha3_512};
use vstd::prelude::*;
use vstd::utf8::encode_utf8;

verus! {

/// The MD5 digest of the bytes.
pub uninterp spec fn md5_digest(data: Seq<u8>) -> Seq<u8>;

/// The SHA-1 digest of the bytes.
pub uninterp spec fn sha1_digest(data: Seq<u8>) -> Seq<u8>;

/// The SHA-256 digest of the bytes.
pub uninterp spec fn sha256_digest(data: Seq<u8>) -> Seq<u8>;

/// The SHA-512 digest of the bytes.
pub uninterp spec fn sha512_digest(data: Seq<u8>) -> Seq<u8>;

/// The SHA3-256 digest of the bytes.
pub uninterp spec fn sha3_256_digest(data: Seq<u8>) -> Seq<u8>;

/// The SHA3-512 digest of the bytes.
pub uninterp spec fn sha3_512_digest(data: Seq<u8>) -> Seq<u8>;

/// The BLAKE3 hash (32 bytes) of the bytes.
pub uninterp spec fn blake3_digest(data: Seq<u8>) -> Seq<u8>;

/// `Md5::digest` of `md-5`. Claimed: the result is `md5_digest` of the
/// bytes, 16 bytes long.
#[verifier::external_body]
fn md5_of(data: &[u8]) -> (res: Vec<u8>)
    ensures
        res@ == md5_digest(data@),
        res@.len() == 16,
{
    Md5::digest(data).to_vec()
}

/// `Sha1::digest` of `sha1`. Claimed: the result is `sha1_digest` of the
/// bytes, 20 bytes long.
#[verifier::external_body]
fn sha1_of(data: &[u8]) -> (res: Vec<u8>)
    ensures
        res@ == sha1_digest(data@),
        res@.len() == 20,
{
    Sha1::digest(data).to_vec()
}

/// `Sha256::digest` of `sha2`. Claimed: the result is `sha256_digest` of the
/// bytes, 32 bytes long.
#[verifier::external_body]
fn sha256_of(data: &[u8]) -> (res: Vec<u8>)
    ensures
        res@ == sha256_digest(data@),
        res@.len() == 32,
{
    Sha256::digest(data).to_vec()
}

/// `Sha512::digest` of `sha2`. Claimed: the result is `sha512_digest` of the
/// bytes, 64 bytes long.
#[verifier::external_body]
fn sha512_of(data: &[u8]) -> (res: Vec<u8>)
    ensures
        res@ == sha512_digest(data@),
        res@.len() == 64,
{
    Sha512::digest(data).to_vec()
}

/// `Sha3_256` of `sha3` (`new`, `update`, `finalize`). Claimed: the result
/// is `sha3_256_digest` of the bytes, 32 bytes long.
#[verifier::external_body]
fn sha3_256_of(data: &[u8]) -> (res: Vec<u8>)
    ensures
        res@ == sha3_256_digest(data@),
        res@.len() == 32,
{
    let mut h = Sha3_256::new();
    h.update(data);
    h.finalize().to_vec()
}

/// `Sha3_512` of `sha3` (`new`, `update`, `finalize`). Claimed: the result
/// is `sha3_512_digest` of the bytes, 64 bytes long.
#[verifier::external_body]
fn sha3_512_of(data: &[u8]) -> (res: Vec<u8>)
    ensures
        res@ == sha3_512_digest(data@),
        res@.len() == 64,
{
    let mut h = Sha3_512::new();
    h.update(data);
    h.finalize().to_vec()
}

/// `blake3::hash(..).to_hex()`. Claimed: the text is the lowercase
/// hexadecimal form of `blake3_digest` of the bytes, 64 digits for the
/// 32-byte hash.
#[verifier::external_body]
fn blake3_hex(data: &[u8]) -> (res: String)
    ensures
        res@ == hex_text(blake3_digest(data@), true),
        res@.len() == 64,
{
    blake3::hash(data).to_hex().to_string()
}

/// A digest algorithm.
#[derive(Clone, Copy, Debug, PartialEq, Eq, Structural)]
pub enum Algorithm {
    Md5,
    Sha1,
    Sha256,
    Sha512,
    Sha3_256,
    Sha3_512,
    Blake3,
}

/// The algorithms, in the order in which they are listed.
pub open spec fn all_algorithms() -> Seq<Algorithm> {
    seq![
        Algorithm::Md5,
        Algorithm::Sha1,
        Algorithm::Sha256,
        Algorithm::Sha512,
        Algorithm::Sha3_256,
        Algorithm::Sha3_512,
        Algorithm::Blake3,
    ]
}

/// The digest of `data` by `algo`.
pub open spec fn digest(algo: Algorithm, data: Seq<u8>) -> Seq<u8> {
    match algo {
        Algorithm::Md5 => md5_digest(data),
        Algorithm::Sha1 => sha1_digest(data),
        Algorithm::Sha256 => sha256_digest(data),
        Algorithm::Sha512 => sha512_digest(data),
        Algorithm::Sha3_256 => sha3_256_digest(data),
        Algorithm::Sha3_512 => sha3_512_digest(data),
        Algorithm::Blake3 => blake3_digest(data),
    }
}

/// The printed name of an algorithm.
pub open spec fn algorithm_name(algo: Algorithm) -> Seq<char> {
    match algo {
        Algorithm::Md5 => "MD5"@,
        Algorithm::Sha1 => "SHA1"@,
        Algorithm::Sha256 => "SHA256"@,
        Algorithm::Sha512 => "SHA512"@,
        Algorithm::Sha3_256 => "SHA3-256"@,
        Algorithm::Sha3_512 => "SHA3-512"@,
        Algorithm::Blake3 => "BLAKE3"@,
    }
}

impl Algorithm {
    /// All algorithms, in the order in which they are listed.
    pub fn all() -> (res: [Algorithm; 7])
        ensures
            res@ == all_algorithms(),
    {
        let res = [
            Algorithm::Md5,
            Algorithm::Sha1,
            Algorithm::Sha256,
            Algorithm::Sha512,
            Algorithm::Sha3_256,
            Algorithm::Sha3_512,
            Algorithm::Blake3,
        ];
        assert(res@ =~= all_algorithms());
        res
    }

    /// The printed name of the algorithm, such as `SHA3-256`.
    pub fn name(self) -> (res: String)
        ensures
            res@ == algorithm_name(self),
    {
        let s = match self {
            Algorithm::Md5 => "MD5",
            Algorithm::Sha1 => "SHA1",
            Algorithm::Sha256 => "SHA256",
            Algorithm::Sha512 => "SHA512",
            Algorithm::Sha3_256 => "SHA3-256",
            Algorithm::Sha3_512 => "SHA3-512",
            Algorithm::Blake3 => "BLAKE3",
        };
        string_from_chars(&chars_of(s))
    }
}

/// The lowercase hexadecimal digest of the UTF-8 bytes of `input`.
pub fn compute(algo: Algorithm, input: &str) -> (res: String)
    ensures
        res@ == hex_text(digest(algo, encode_utf8(input@)), true),
{
    let data = input.as_bytes();
    match algo {
        Algorithm::Md5 => encode_lower(md5_of(data).as_slice()),
        Algorithm::Sha1 => encode_lower(sha1_of(data).as_slice()),
        Algorithm::Sha256 => encode_lower(sha256_of(data).as_slice()),
        Algorithm::Sha512 => encode_lower(sha512_of(data).as_slice()),
        Algorithm::Sha3_256 => encode_lower(sha3_256_of(data).as_slice()),
        Algorithm::Sha3_512 => encode_lower(sha3_512_of(data).as_slice()),
        Algorithm::Blake3 => blake3_hex(data),
    }
}

/// A report line giving the name and the digest of `data` by `algo`.
pub open spec fn digest_line_ok(line: ReportLine, algo: Algorithm, data: Seq<u8>) -> bool {
    match line {
        ReportLine::Pair { key, value, width } => key@ == algorithm_name(algo) && value@
            == hex_text(digest(algo, data), true) && width == 12,
        ReportLine::Text(_) => false,
    }
}

/// The argument of the digest commands: the text to hash.
pub struct Args {
    pub input: String,
}

/// Why a digest command did nothing.
#[derive(Clone, Copy, Debug, PartialEq, Eq, Structural)]
pub enum HashError {
    /// The input text is empty.
    EmptyInput,
}

/// The digest report: with one algorithm, its name as header and the digest
/// as the only line; with none, every algorithm in order, name and digest.
pub fn run(algorithm: Option<Algorithm>, args: Args) -> (res: Result<Report, HashError>)
    ensures
        args.input@.len() == 0 <==> res is Err,
        res matches Ok(report) ==> match algorithm {
            Some(algo) => {
                &&& report.header@ == algorithm_name(algo)
                &&& report.lines@.len() == 1
                &&& (report.lines@[0] matches ReportLine::Text(t) && t@ == hex_text(
                    digest(algo, encode_utf8(args.input@)),
                    true,
                ))
            },
            None => {
                &&& report.header@ == "🔐 Hash"@
                &&& report.lines@.len() == 7
                &&& forall|i: int|
                    0 <= i < 7 ==> digest_line_ok(
                        #[trigger] report.lines@[i],
                        all_algorithms()[i],
                        encode_utf8(args.input@),
                    )
            },
        },
{
    let input = args.input;
    if input.as_str().is_empty() {
        return Err(HashError::EmptyInput);
    }
    match algorithm {
        Some(algo) => {
            let mut lines: Vec<ReportLine> = Vec::new();
            lines.push(ReportLine::Text(compute(algo, input.as_str())));
            Ok(Report { header: algo.name(), lines })
        },
        None => {
            let all = Algorithm::all();
            let mut lines: Vec<ReportLine> = Vec::new();
            let mut k: usize = 0;
            while k < 7
                invariant
                    0 <= k <= 7,
                    all@ == all_algorithms(),
                    lines@.len() == k,
                    forall|i: int|
                        0 <= i < k ==> digest_line_ok(
                            #[trigger] lines@[i],
                            all_algorithms()[i],
                            encode_utf8(input@),
                        ),
                decreases 7 - k,
            {
                let algo = all[k];
                lines.push(
                    ReportLine::Pair {
                        key: algo.name(),
                        value: compute(algo, input.as_str()),
                        width: 12,
                    },
                );
                k = k + 1;
            }
            Ok(Report { header: string_from_chars(&chars_of("🔐 Hash")), lines })
        },
    }
}

} // verus!
