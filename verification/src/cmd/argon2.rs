//! Argon2id password hashes in the PHC string format.

use crate::pretty::{Report, ReportLine};
use crate::text::{chars_of, string_from_chars};
use argon2::password_hash::phc::Salt;
use argon2::{Argon2, PasswordHasher};
use vstd::prelude::*;
use vstd::utf8::encode_utf8;

verus! {

/// The error `argon2` reports when it cannot hash a password.
#[verifier::external_type_specification]
#[verifier::external_body]
pub struct ExPasswordHashError(argon2::password_hash::Error);

/// The start of every hash made with `argon2`'s default parameters: the
/// algorithm Argon2id, version 19 (0x13), 19 MiB of memory, 2 passes, one lane.
pub open spec fn argon2_prefix() -> Seq<char> {
    "$argon2id$v=19$m=19456,t=2,p=1$"@
}

/// Whether `t` has the shape of a default Argon2id hash: the prefix, then a
/// 16-byte salt (22 base64 characters), `$`, and a 32-byte hash (43
/// characters); 97 characters in all.
pub open spec fn argon2_shape(t: Seq<char>) -> bool {
    &&& t.len() == 97
    &&& t.take(31) == argon2_prefix()
    &&& t[53] == '$'
}

/// The Argon2id hash, in the PHC string format, that `argon2`'s default
/// parameters give for the password with this salt.
pub uninterp spec fn argon2_phc(password: Seq<char>, salt: Seq<u8>) -> Seq<char>;

/// Whether `t` is the hash of the password with some 16-byte salt.
pub open spec fn is_argon2_of(t: Seq<char>, password: Seq<char>) -> bool {
    exists|salt: Seq<u8>| salt.len() == 16 && #[trigger] argon2_phc(password, salt) == t
}

/// A new salt from `Salt::generate` of `argon2`'s `phc` module: 16 bytes from
/// the system's random source (it panics when that source fails). Nothing is
/// claimed of the bytes.
#[verifier::external_body]
pub(crate) fn argon2_salt() -> (salt: [u8; 16]) {
    let generated = Salt::generate();
    let mut bytes = [0u8; 16];
    bytes.copy_from_slice(&generated);
    bytes
}

/// The longest password, in bytes, that `argon2` hashes (`MAX_PWD_LEN`).
pub open spec fn max_password_len() -> int {
    0xFFFF_FFFF
}

/// Why `argon2` could not hash a password.
pub enum Argon2Failure {
    /// The password is longer than `max_password_len()` bytes.
    PasswordTooLong,
    /// The memory for the hash could not be allocated.
    OutOfMemory,
    /// Any other error `argon2` reports.
    Other(argon2::password_hash::Error),
}

/// The text shown for a failure.
pub open spec fn failure_text(f: Argon2Failure) -> Option<Seq<char>> {
    match f {
        Argon2Failure::PasswordTooLong => Some("invalid password"@),
        Argon2Failure::OutOfMemory => Some("out of memory"@),
        Argon2Failure::Other(_) => None,
    }
}

/// The message of an `argon2` error, as its `Display` writes it. Nothing is
/// claimed of the text.
#[verifier::external_body]
fn argon2_error_text(e: &argon2::password_hash::Error) -> (res: String) {
    format!("{}", e)
}

impl Argon2Failure {
    /// The message shown for the failure, as `argon2`'s error writes it:
    /// `invalid password` for a password too long, `out of memory` when the
    /// memory could not be had.
    pub fn message(&self) -> (res: String)
        ensures
            failure_text(*self) matches Some(t) ==> res@ == t,
    {
        match self {
            Argon2Failure::PasswordTooLong => crate::text::owned("invalid password"),
            Argon2Failure::OutOfMemory => crate::text::owned("out of memory"),
            Argon2Failure::Other(e) => argon2_error_text(e),
        }
    }
}

/// `Argon2::default().hash_password_with_salt` and `to_string` of `argon2`,
/// its error told apart by variant. Claimed, from its source: the text is
/// `argon2_phc` of the password and salt (the hash with a given salt is a
/// function of the two) and has `argon2_shape`; with the default parameters
/// and a 16-byte salt the only errors are a password over `MAX_PWD_LEN`
/// bytes (`PasswordInvalid`) and a failed allocation of the memory blocks
/// (`OutOfMemory`, checked first).
#[verifier::external_body]
pub(crate) fn argon2_hash_with_salt(password: &str, salt: [u8; 16]) -> (res: Result<
    String,
    Argon2Failure,
>)
    ensures
        res matches Ok(t) ==> t@ == argon2_phc(password@, salt@) && argon2_shape(t@),
        res matches Err(Argon2Failure::PasswordTooLong) ==> encode_utf8(password@).len()
            > max_password_len(),
        encode_utf8(password@).len() > max_password_len() ==> res is Err,
        !(res matches Err(Argon2Failure::Other(_))),
{
    match Argon2::default().hash_password_with_salt(password.as_bytes(), &salt) {
        Ok(h) => Ok(h.to_string()),
        Err(argon2::password_hash::Error::PasswordInvalid) => Err(Argon2Failure::PasswordTooLong),
        Err(argon2::password_hash::Error::OutOfMemory) => Err(Argon2Failure::OutOfMemory),
        Err(e) => Err(Argon2Failure::Other(e)),
    }
}

/// Whether a failure is one the password explains (too long) or lack of
/// memory: the only ways hashing fails.
pub open spec fn expected_failure(f: Argon2Failure, password: Seq<char>) -> bool {
    match f {
        Argon2Failure::PasswordTooLong => encode_utf8(password).len() > max_password_len(),
        Argon2Failure::OutOfMemory => true,
        Argon2Failure::Other(_) => false,
    }
}

/// A hash of the password with a new salt. It fails only for a password
/// over `max_password_len()` bytes or when memory runs out.
pub(crate) fn argon2_hash(password: &str) -> (res: Result<String, Argon2Failure>)
    ensures
        res matches Ok(t) ==> argon2_shape(t@) && is_argon2_of(t@, password@),
        res matches Err(f) ==> expected_failure(f, password@),
        encode_utf8(password@).len() > max_password_len() ==> res is Err,
{
    let salt = argon2_salt();
    let res = argon2_hash_with_salt(password, salt);
    if let Ok(t) = &res {
        assert(argon2_phc(password@, salt@) == t@);
    }
    res
}

/// The argument of the Argon2 command: the password.
pub struct Args {
    pub password: String,
}

/// Why the Argon2 command failed.
pub enum Argon2CommandError {
    /// The password is empty.
    EmptyPassword,
    /// `argon2` could not hash it.
    Hash(Argon2Failure),
}

/// The Argon2 report: the header `Argon2` and the hash of the password.
pub fn run(args: Args) -> (res: Result<Report, Argon2CommandError>)
    ensures
        (res matches Err(Argon2CommandError::EmptyPassword)) <==> args.password@.len() == 0,
        res matches Err(Argon2CommandError::Hash(f)) ==> expected_failure(f, args.password@),
        args.password@.len() > 0 && encode_utf8(args.password@).len() <= max_password_len() ==> (
        res is Ok || res matches Err(Argon2CommandError::Hash(Argon2Failure::OutOfMemory))),
        res matches Ok(report) ==> {
            &&& report.header@ == "Argon2"@
            &&& report.lines@.len() == 1
            &&& (report.lines@[0] matches ReportLine::Text(t) && argon2_shape(t@) && is_argon2_of(
                t@,
                args.password@,
            ))
        },
{
    if args.password.as_str().is_empty() {
        return Err(Argon2CommandError::EmptyPassword);
    }
    let hash = match argon2_hash(args.password.as_str()) {
        Ok(h) => h,
        Err(e) => return Err(Argon2CommandError::Hash(e)),
    };
    let mut lines: Vec<ReportLine> = Vec::new();
    lines.push(ReportLine::Text(hash));
    Ok(Report { header: string_from_chars(&chars_of("Argon2")), lines })
}

} // verus!
