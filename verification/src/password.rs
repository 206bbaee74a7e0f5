//! Password hashing. The memory-hard hash itself is Argon2 from the
//! `argon2` crate, with its default parameters; this module gives its two
//! operations a name and says how they relate.

use vstd::prelude::*;
use argon2::password_hash::{PasswordHash, PasswordHasher, PasswordVerifier, SaltString};
use argon2::Argon2;
use crate::headers::text_bytes;

verus! {

/// Whether Argon2 accepts `password` for the hash written down in `hash`.
/// A text that is not a hash in PHC string format accepts no password.
pub uninterp spec fn argon2_verifies(hash: Seq<char>, password: Seq<u8>) -> bool;

/// The hash, in PHC string format, that Argon2 with its default
/// parameters computes for `password` and `salt`; nothing where the salt
/// is not one or the computation is refused.
pub uninterp spec fn argon2_hashed(password: Seq<u8>, salt: Seq<char>) -> Option<Seq<char>>;

/// Mathematical value of an optional text.
pub open spec fn opt_string(s: Option<String>) -> Option<Seq<char>> {
    match s {
        Some(t) => Some(t@),
        None => None,
    }
}

/// `PasswordVerifier::verify_password` of the default `Argon2`, on the
/// hash that `PasswordHash::new` parses from `hash`: whether parsing and
/// verification both succeed.
#[verifier::external_body]
fn argon2_verify(hash: &str, password: &[u8]) -> (ok: bool)
    ensures
        ok == argon2_verifies(hash@, password@),
{
    PasswordHash::new(hash)
        .ok()
        .map(|parsed| Argon2::default().verify_password(password, &parsed).is_ok())
        .unwrap_or(false)
}

/// `PasswordHasher::hash_password` of the default `Argon2`, with the salt
/// that `SaltString::from_b64` reads from `salt`, written out as a PHC
/// string. Verification recomputes the hash from the password and the
/// salt and parameters recorded in that string, so the password that was
/// hashed is accepted for it.
#[verifier::external_body]
fn argon2_hash(password: &[u8], salt: &str) -> (hash: Option<String>)
    ensures
        opt_string(hash) == argon2_hashed(password@, salt@),
        hash matches Some(h) ==> argon2_verifies(h@, password@),
{
    let salt = SaltString::from_b64(salt).ok()?;
    Argon2::default().hash_password(password, &salt).ok().map(|h| h.to_string())
}

/// Whether `password` is the one that `hash` was computed from.
pub fn verify_password(hash: &str, password: &str) -> (ok: bool)
    ensures
        ok == argon2_verifies(hash@, text_bytes(password@)),
{
    argon2_verify(hash, password.as_bytes())
}

/// Hashes `password` with `salt`, which is base64 without padding. The
/// password verifies against the hash that is returned.
pub fn hash_password(password: &str, salt: &str) -> (hash: Option<String>)
    ensures
        opt_string(hash) == argon2_hashed(text_bytes(password@), salt@),
        hash matches Some(h) ==> argon2_verifies(h@, text_bytes(password@)),
{
    argon2_hash(password.as_bytes(), salt)
}

} // verus!
