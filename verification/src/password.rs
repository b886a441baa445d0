//! Password hashing and checking with argon2.
use vstd::prelude::*;
use argon2::{Argon2, PasswordHash, PasswordHasher, PasswordVerifier};
use argon2::password_hash::{Salt, SaltString};

verus! {

/// Whether `password` verifies against the PHC string `phc` under argon2:
/// the string parses as a password hash and hashing the password with that
/// hash's algorithm, version, parameters and salt gives its output.
pub uninterp spec fn password_matches(password: Seq<u8>, phc: Seq<char>) -> bool;

/// Checks a password against a stored hash.
///
/// Trusted: `PasswordHash::new(phc)` parses the PHC string and
/// `Argon2::default().verify_password(password, &hash)` recomputes the hash;
/// the result is `true` exactly when both succeed, which `password_matches`
/// names.
#[verifier::external_body]
pub(crate) fn verify_password(password: &[u8], phc: &str) -> (ok: bool)
    ensures
        ok == password_matches(password@, phc@),
{
    match PasswordHash::new(phc) {
        Ok(hash) => Argon2::default().verify_password(password, &hash).is_ok(),
        Err(_) => false,
    }
}

/// The PHC string that argon2 (default parameters) makes of `password` with
/// the salt bytes `salt`, or `None` when it makes none: a fixed function of
/// the two, holding algorithm, version, parameters, salt and hash output.
pub uninterp spec fn argon2_phc(password: Seq<u8>, salt: Seq<u8>) -> Option<Seq<char>>;

/// Number of random bytes in a password salt (argon2's recommended salt
/// length).
pub const SALT_LEN: usize = 16;

/// Hashes a password with the given salt bytes.
///
/// Trusted: `SaltString::encode_b64(salt)` encodes the salt,
/// `Salt::from_b64` checks the encoding's length (so a salt too short to
/// encode into four characters gives `None` rather than the panic of the
/// `From` conversion) and `Argon2::default().hash_password(password, salt)`
/// hashes the password with it; the PHC string of the hash is returned,
/// `None` when any of them fails. The result is named `argon2_phc` of the
/// password and the salt. Claimed besides: the string verifies the same
/// password (the algorithm, version, parameters, salt and output go into it,
/// and `verify_password` recomputes from them); and with a salt of
/// `SALT_LEN` bytes (22 characters encoded, within the 4 to 64 a salt string
/// holds, and more than argon2's minimum of 8 bytes) and a password of at
/// most `u32::MAX` bytes (argon2's limit), none of the calls fails.
#[verifier::external_body]
pub(crate) fn hash_password(password: &[u8], salt: &[u8]) -> (phc: Option<String>)
    ensures
        phc matches Some(phc) ==> argon2_phc(password@, salt@) == Some(phc@),
        phc is None ==> argon2_phc(password@, salt@) is None,
        phc matches Some(phc) ==> password_matches(password@, phc@),
        salt@.len() == SALT_LEN && password@.len() <= u32::MAX ==> phc is Some,
{
    let salt_string = match SaltString::encode_b64(salt) {
        Ok(salt_string) => salt_string,
        Err(_) => return None,
    };
    let salt = match Salt::from_b64(salt_string.as_str()) {
        Ok(salt) => salt,
        Err(_) => return None,
    };
    match Argon2::default().hash_password(password, salt) {
        Ok(hash) => Some(hash.to_string()),
        Err(_) => None,
    }
}

/// Draws `SALT_LEN` random bytes for a salt; `None` when the operating
/// system gives none.
pub fn random_salt() -> (salt: Option<Vec<u8>>)
    ensures
        salt matches Some(s) ==> s@.len() == SALT_LEN,
{
    let mut bytes: Vec<u8> = Vec::new();
    let mut i: usize = 0;
    while i < SALT_LEN
        invariant
            i <= SALT_LEN,
            bytes@.len() == i,
        decreases SALT_LEN - i,
    {
        bytes.push(0);
        i += 1;
    }
    if crate::session::fill_random(&mut bytes) {
        Some(bytes)
    } else {
        None
    }
}

} // verus!
