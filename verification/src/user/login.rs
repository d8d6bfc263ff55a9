//! Password hashing.

use argon2::password_hash::rand_core::{OsRng, RngCore};
use argon2::password_hash::SaltString;
use argon2::{Argon2, PasswordHasher};
use vstd::prelude::*;

verus! {

/// The number of random bytes that salt a hash.
pub const SALT_LENGTH: usize = 16;

/// The Argon2 hash of `word` under `salt`, as the text that is stored; `None`
/// where the hasher refuses its input.
pub uninterp spec fn argon2_hash(word: Seq<char>, salt: Seq<u8>) -> Option<String>;

/// Fresh salt from the operating system.
///
/// Calls `OsRng::try_fill_bytes`, which fills the buffer from the system's
/// source of randomness or reports that it could not. Nothing is claimed of
/// the bytes.
#[verifier::external_body]
fn random_salt() -> Option<[u8; SALT_LENGTH]> {
    let mut salt_bytes = [0u8; SALT_LENGTH];
    match OsRng.try_fill_bytes(&mut salt_bytes) {
        Ok(()) => Some(salt_bytes),
        Err(_) => None,
    }
}

/// Hashes `word` under `salt`.
///
/// Calls `Argon2::hash_password` with the default parameters, on the bytes of
/// `word` and on `salt` in the encoding that `SaltString::encode_b64` gives
/// it, and writes the hash out with its `Display`. The hasher reads nothing
/// but these two, so the outcome is a function of them: that is all that is
/// claimed.
#[verifier::external_body]
fn hash_salted(word: &str, salt: &[u8; SALT_LENGTH]) -> (hash: Option<String>)
    ensures
        hash == argon2_hash(word@, salt@),
{
    let salt = match SaltString::encode_b64(salt) {
        Ok(salt) => salt,
        Err(_) => return None,
    };
    match Argon2::default().hash_password(word.as_bytes(), &salt) {
        Ok(hash) => Some(format!("{}", hash)),
        Err(_) => None,
    }
}

/// Whether `hash` is what hashing `word` under some salt of
/// [`SALT_LENGTH`] bytes gives.
pub open spec fn is_hash_of(hash: String, word: Seq<char>) -> bool {
    exists|salt: Seq<u8>| salt.len() == SALT_LENGTH && #[trigger] argon2_hash(word, salt) == Some(hash)
}

/// Hashes `word` under fresh salt. `None` where the system gave no salt or
/// the hasher refused; [`hash_with_salt`] says what comes back for each salt.
pub fn create_hash(word: &str) -> (hash: Option<String>)
    ensures
        hash matches Some(h) ==> is_hash_of(h, word@),
{
    let salt = random_salt();
    let hash = hash_with_salt(word, salt);
    proof {
        if hash is Some {
            assert(argon2_hash(word@, salt->0@) == Some(hash->0));
        }
    }
    hash
}

/// What hashing `word` comes to once the system was asked for salt: the hash
/// of `word` under the salt it gave, nothing where it gave none.
pub open spec fn salted_hash(word: Seq<char>, salt: Option<[u8; SALT_LENGTH]>) -> Option<String> {
    match salt {
        Some(salt) => argon2_hash(word, salt@),
        None => None,
    }
}

/// Hashes `word` under the salt that the system gave, if it gave any.
pub fn hash_with_salt(word: &str, salt: Option<[u8; SALT_LENGTH]>) -> (hash: Option<String>)
    ensures
        hash == salted_hash(word@, salt),
{
    match salt {
        Some(salt) => hash_salted(word, &salt),
        None => None,
    }
}

} // verus!
