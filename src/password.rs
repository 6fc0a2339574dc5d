use vstd::prelude::*;
use vstd::string::*;

use argon2::password_hash::rand_core::{OsRng, RngCore};
use argon2::password_hash::{PasswordHasher as _, SaltString};
use argon2::{Argon2, PasswordHash, PasswordVerifier};
use argon2::password_hash::Error as HashError;

use crate::account::PasswordHasher as PasswordHasherTrait;
use crate::errors::Error;

verus! {

#[verifier::external_type_specification]
#[verifier::external_body]
pub struct ExHashError(HashError);

/// Whether Argon2 accepts `password` against the PHC string `phc`, under
/// the algorithm, version, parameters and salt written in that string.
pub uninterp spec fn argon2_accepts(password: Seq<char>, phc: Seq<char>) -> bool;

/// A PHC string of the Argon2id algorithm: it starts with `$argon2id$`.
pub open spec fn is_argon2id_phc(s: Seq<char>) -> bool {
    s.len() >= 10 && s.subrange(0, 10) == "$argon2id$"@
}

/// Relies on `OsRng::try_fill_bytes` for 16 random salt bytes (a failing OS
/// source is reported as `Error::Crypto`), `SaltString::encode_b64`, and
/// argon2's `hash_password` with default parameters (Argon2id, version 19),
/// whose PHC string is written `$argon2id$v=19$...`. `verify_password`
/// recomputes the digest from the salt and parameters in that string, so the
/// string verifies against its password.
#[verifier::external_body]
fn argon2_hash(password: &str) -> (r: Result<String, HashError>)
    ensures
        r is Ok ==> argon2_accepts(password@, r->Ok_0@),
        r is Ok ==> is_argon2id_phc(r->Ok_0@),
{
    let mut bytes = [0u8; 16];
    OsRng.try_fill_bytes(&mut bytes).map_err(|_| HashError::Crypto)?;
    let salt = SaltString::encode_b64(&bytes)?;
    Argon2::default().hash_password(password.as_bytes(), &salt).map(|h| h.to_string())
}

/// Relies on `PasswordHash::new` to read the PHC string and on argon2's
/// `verify_password` to check the password against it; a string that does
/// not parse is a mismatch.
#[verifier::external_body]
fn argon2_verify(password: &str, phc: &str) -> (r: bool)
    ensures
        r == argon2_accepts(password@, phc@),
{
    match PasswordHash::new(phc) {
        Ok(parsed) => Argon2::default().verify_password(password.as_bytes(), &parsed).is_ok(),
        Err(_) => false,
    }
}

/// Argon2 password hashing with default cost parameters.
pub struct PasswordHasher;

impl PasswordHasher {
    pub fn new() -> (r: Self) {
        PasswordHasher
    }
}

impl PasswordHasherTrait for PasswordHasher {
    open spec fn accepts(&self, password: Seq<char>, stored: Seq<char>) -> bool {
        argon2_accepts(password, stored)
    }

    /// The stored string is an Argon2id PHC string, never the plaintext form.
    fn hash(&self, password: String) -> (r: Result<String, Error>)
        ensures
            r is Ok ==> is_argon2id_phc(r->Ok_0@),
    {
        match argon2_hash(password.as_str()) {
            Ok(phc) => Ok(phc),
            Err(_) => Err(Error::Unknown(String::from_str("password hashing failed"))),
        }
    }

    fn verify(&self, password: String, actual: String) -> (r: bool) {
        argon2_verify(password.as_str(), actual.as_str())
    }
}

} // verus!
