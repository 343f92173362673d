//! The password hash tool of the desktop application: an Argon2id or a
//! bcrypt hash of the password.

use crate::cmd::argon2::{argon2_hash, argon2_shape, is_argon2_of, max_password_len};
use crate::cmd::bcrypt::{bcrypt_hash, bcrypt_shape, is_bcrypt_of};
use crate::locale::L10n;
use crate::text::{chars_of, concat, string_from_chars};
use vstd::prelude::*;
use vstd::utf8::encode_utf8;

verus! {

/// The algorithm of the password hash tool.
#[derive(Clone, Copy, Debug, PartialEq, Eq, Structural)]
pub enum HashAlgorithm {
    Argon2,
    Bcrypt,
}

/// The message of a `bcrypt` error, as its `Display` writes it. Nothing is
/// claimed of the text.
#[verifier::external_body]
fn bcrypt_error_text(e: &bcrypt::BcryptError) -> (res: String) {
    format!("{}", e)
}

/// The state of the password hash tool.
pub struct PasswordHashPanel {
    /// The algorithm chosen.
    pub algorithm: HashAlgorithm,
    /// The last hash made.
    pub pwd_hash_result: Option<String>,
    /// The message shown when hashing failed.
    pub pwd_error: Option<String>,
}

/// Whether `t` is a hash of the password by the algorithm, with some salt
/// (and so has that algorithm's shape).
pub open spec fn hash_of(algorithm: HashAlgorithm, t: Seq<char>, password: Seq<char>) -> bool {
    match algorithm {
        HashAlgorithm::Argon2 => argon2_shape(t) && is_argon2_of(t, password),
        HashAlgorithm::Bcrypt => bcrypt_shape(t) && is_bcrypt_of(t, password),
    }
}

/// Whether `m` is the failure message: the error label, `: `, then the
/// outside error's own text.
pub open spec fn failure_message(m: Seq<char>, l10n: L10n) -> bool {
    let head = l10n.hash_password_error@ + ": "@;
    m.len() >= head.len() && m.take(head.len() as int) == head
}

fn failure(l10n: &L10n, detail: String) -> (res: String)
    ensures
        failure_message(res@, *l10n),
        res@ == l10n.hash_password_error@ + ": "@ + detail@,
{
    let head = concat(&chars_of(l10n.hash_password_error), &chars_of(": "));
    let all = concat(&head, &chars_of(detail.as_str()));
    assert(all@.take(head@.len() as int) =~= head@);
    string_from_chars(&all)
}

impl PasswordHashPanel {
    /// The tool at start: Argon2, nothing shown.
    pub fn new() -> (res: Self)
        ensures
            res.algorithm == HashAlgorithm::Argon2,
            res.pwd_hash_result is None,
            res.pwd_error is None,
    {
        PasswordHashPanel { algorithm: HashAlgorithm::Argon2, pwd_hash_result: None, pwd_error: None }
    }

    /// Hashes the password with the chosen algorithm; an empty password
    /// changes nothing. Either the hash or a failure message is shown.
    pub fn generate_hash(&mut self, l10n: &L10n, password: &str)
        ensures
            password@.len() == 0 ==> *final(self) == *old(self),
            password@.len() > 0 ==> {
                &&& final(self).algorithm == old(self).algorithm
                &&& match final(self).pwd_hash_result {
                    Some(h) => hash_of(old(self).algorithm, h@, password@) && final(self).pwd_error is None,
                    None => final(self).pwd_error matches Some(m) && failure_message(m@, *l10n),
                }
            },
            old(self).algorithm == HashAlgorithm::Argon2 && password@.len() > 0
                && encode_utf8(password@).len() <= max_password_len()
                ==> (final(self).pwd_hash_result is Some || (final(self).pwd_error matches Some(m)
                && m@ == l10n.hash_password_error@ + ": "@ + "out of memory"@)),
    {
        if password.is_empty() {
            return;
        }
        match self.algorithm {
            HashAlgorithm::Argon2 => match argon2_hash(password) {
                Ok(h) => {
                    self.pwd_hash_result = Some(h);
                    self.pwd_error = None;
                },
                Err(e) => {
                    self.pwd_error = Some(failure(l10n, e.message()));
                    self.pwd_hash_result = None;
                },
            },
            HashAlgorithm::Bcrypt => match bcrypt_hash(password) {
                Ok(h) => {
                    self.pwd_hash_result = Some(h);
                    self.pwd_error = None;
                },
                Err(e) => {
                    self.pwd_error = Some(failure(l10n, bcrypt_error_text(&e)));
                    self.pwd_hash_result = None;
                },
            },
        }
    }

    /// Chooses the algorithm and clears what is shown.
    pub fn select_algorithm(&mut self, algorithm: HashAlgorithm)
        ensures
            final(self).algorithm == algorithm,
            final(self).pwd_hash_result is None,
            final(self).pwd_error is None,
    {
        self.algorithm = algorithm;
        self.pwd_hash_result = None;
        self.pwd_error = None;
    }

    /// Clears what is shown; the algorithm stays.
    pub fn clear(&mut self)
        ensures
            final(self).algorithm == old(self).algorithm,
            final(self).pwd_hash_result is None,
            final(self).pwd_error is None,
    {
        self.pwd_hash_result = None;
        self.pwd_error = None;
    }
}

} // verus!
