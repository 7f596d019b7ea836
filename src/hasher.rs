use vstd::prelude::*;
use argon2::password_hash::rand_core::OsRng;
use argon2::password_hash::SaltString;
use argon2::{Argon2, PasswordHash, PasswordHasher, PasswordVerifier};

verus! {

/// Whether argon2 accepts `secret` against the stored PHC string `stored`.
pub uninterp spec fn argon2_accepts(secret: Seq<char>, stored: Seq<char>) -> bool;

/// Relies on argon2's `PasswordHash::new` and `Argon2::verify_password`: the
/// answer depends on the secret and the stored string alone, and a stored
/// string that does not parse is a plain `false`.
#[verifier::external_body]
fn argon2_verify(secret: &str, stored: &str) -> (r: bool)
    ensures
        r == argon2_accepts(secret@, stored@),
{
    match PasswordHash::new(stored) {
        Ok(parsed) => Argon2::default().verify_password(secret.as_bytes(), &parsed).is_ok(),
        Err(_) => false,
    }
}

/// Whether argon2 takes `secret` as a password: its UTF-8 encoding is at most
/// `u32::MAX` bytes long.
pub open spec fn hashable(secret: Seq<char>) -> bool {
    vstd::utf8::encode_utf8(secret).len() <= 0xFFFF_FFFF
}

/// Relies on `SaltString::generate` over `OsRng` and `Argon2::hash_password`
/// with the default parameters: a fresh salt on every call, and a PHC string
/// that `verify_password` accepts for the same secret. With the generated
/// salt and default parameters the only failure is a password longer than
/// `u32::MAX` bytes.
#[verifier::external_body]
fn argon2_hash(secret: &str) -> (r: Option<String>)
    ensures
        r matches Some(h) ==> argon2_accepts(secret@, h@),
        r is Some <==> hashable(secret@),
{
    let salt = SaltString::generate(&mut OsRng);
    Argon2::default().hash_password(secret.as_bytes(), &salt).ok().map(|h| h.to_string())
}

/// Salted, memory-hard credential hashing.
pub struct Hasher;

impl Hasher {
    /// Hashes `secret` under a fresh random salt. Whatever hash comes back is
    /// one that `verify` accepts for the same secret; `None` only for a secret
    /// too long for argon2.
    pub fn hash(secret: &str) -> (r: Option<String>)
        ensures
            r matches Some(h) ==> argon2_accepts(secret@, h@),
            r is Some <==> hashable(secret@),
    {
        argon2_hash(secret)
    }

    /// Whether `secret` matches the stored hash. A malformed stored hash gives
    /// `false`, exactly as a mismatch does.
    pub fn verify(secret: &str, stored: &str) -> (r: bool)
        ensures
            r == argon2_accepts(secret@, stored@),
    {
        argon2_verify(secret, stored)
    }
}

} // verus!
