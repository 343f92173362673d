//! Bcrypt password hashes at the default cost.

use crate::pretty::{Report, ReportLine};
use crate::text::{chars_of, string_from_chars};
use vstd::prelude::*;

verus! {

/// The error `bcrypt` reports when it cannot hash a password.
#[verifier::external_type_specification]
#[verifier::external_body]
pub struct ExBcryptError(bcrypt::BcryptError);

/// The start of every hash made at the default cost: version `2b`, cost 12.
pub open spec fn bcrypt_prefix() -> Seq<char> {
    "$2b$12$"@
}

/// Whether `t` has the shape of a bcrypt hash at cost 12: the prefix, then
/// 22 characters of salt and 31 of hash; 60 characters in all.
pub open spec fn bcrypt_shape(t: Seq<char>) -> bool {
    &&& t.len() == 60
    &&& t.take(7) == bcrypt_prefix()
}

/// The bcrypt hash (version `2b`, cost 12) that `bcrypt` gives for the
/// password with this salt.
pub uninterp spec fn bcrypt_text(password: Seq<char>, salt: Seq<u8>) -> Seq<char>;

/// Whether `t` is the hash of the password with some 16-byte salt.
pub open spec fn is_bcrypt_of(t: Seq<char>, password: Seq<char>) -> bool {
    exists|salt: Seq<u8>| salt.len() == 16 && #[trigger] bcrypt_text(password, salt) == t
}

/// A new salt: 16 bytes from `getrandom::fill`, the source `bcrypt::hash`
/// draws its salt from; its error becomes a `BcryptError` as in `bcrypt`.
/// Nothing is claimed of the bytes.
#[verifier::external_body]
pub(crate) fn bcrypt_salt() -> (res: Result<[u8; 16], bcrypt::BcryptError>) {
    let mut bytes = [0u8; 16];
    getrandom::fill(&mut bytes)?;
    Ok(bytes)
}

/// `bcrypt::hash_with_salt` at `DEFAULT_COST` (12), written with `to_string`
/// (version `2b`). Claimed: the text is `bcrypt_text` of the password and
/// salt, it has `bcrypt_shape`, and, as the source shows for cost 12 (a cost
/// it allows, with passwords longer than 72 bytes cut, not refused), it
/// always succeeds.
#[verifier::external_body]
pub(crate) fn bcrypt_hash_with_salt(password: &str, salt: [u8; 16]) -> (res: Result<
    String,
    bcrypt::BcryptError,
>)
    ensures
        res is Ok,
        res matches Ok(t) ==> t@ == bcrypt_text(password@, salt@) && bcrypt_shape(t@),
{
    Ok(bcrypt::hash_with_salt(password, bcrypt::DEFAULT_COST, salt)?.to_string())
}

/// A hash of the password with a new salt; fails only when no salt could
/// be drawn.
pub(crate) fn bcrypt_hash(password: &str) -> (res: Result<String, bcrypt::BcryptError>)
    ensures
        res matches Ok(t) ==> bcrypt_shape(t@) && is_bcrypt_of(t@, password@),
{
    let salt = match bcrypt_salt() {
        Ok(s) => s,
        Err(e) => return Err(e),
    };
    let res = bcrypt_hash_with_salt(password, salt);
    if let Ok(t) = &res {
        assert(bcrypt_text(password@, salt@) == t@);
    }
    res
}

/// The argument of the bcrypt command: the password.
pub struct Args {
    pub password: String,
}

/// Why the bcrypt command failed.
pub enum BcryptCommandError {
    /// The password is empty.
    EmptyPassword,
    /// `bcrypt` could not hash it.
    Hash(bcrypt::BcryptError),
}

/// The bcrypt report: the header `Bcrypt` and the hash of the password.
pub fn run(args: Args) -> (res: Result<Report, BcryptCommandError>)
    ensures
        (res matches Err(BcryptCommandError::EmptyPassword)) <==> args.password@.len() == 0,
        res matches Ok(report) ==> {
            &&& report.header@ == "Bcrypt"@
            &&& report.lines@.len() == 1
            &&& (report.lines@[0] matches ReportLine::Text(t) && bcrypt_shape(t@) && is_bcrypt_of(
                t@,
                args.password@,
            ))
        },
{
    if args.password.as_str().is_empty() {
        return Err(BcryptCommandError::EmptyPassword);
    }
    let hash = match bcrypt_hash(args.password.as_str()) {
        Ok(h) => h,
        Err(e) => return Err(BcryptCommandError::Hash(e)),
    };
    let mut lines: Vec<ReportLine> = Vec::new();
    lines.push(ReportLine::Text(hash));
    Ok(Report { header: string_from_chars(&chars_of("Bcrypt")), lines })
}

} // verus!
