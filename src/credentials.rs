use vstd::prelude::*;
use argon2::password_hash::rand_core::{OsRng, RngCore};
use argon2::password_hash::SaltString;
use argon2::{Argon2, PasswordHash, PasswordHasher, PasswordVerifier};

verus! {

#[verifier::external_type_specification]
#[verifier::external_body]
pub struct ExPasswordHashError(argon2::password_hash::Error);

/// Whether Argon2, run with the parameters and salt that the encoded hash `stored` carries,
/// turns `password` into the digest that `stored` holds.
pub uninterp spec fn argon2_accepts(password: Seq<char>, stored: Seq<char>) -> bool;

/// The start of every PHC string that `Argon2::default` writes.
pub open spec fn argon2id_prefix() -> Seq<char> {
    "$argon2id$"@
}

/// Relies on `OsRng::try_fill_bytes` for sixteen salt bytes (a generator failure is
/// reported as `Error::Crypto`), `SaltString::encode_b64`, and
/// `Argon2::default().hash_password`, whose PHC string opens with `$argon2id$`.
/// Verifying the same password against that string recomputes the same digest.
#[verifier::external_body]
fn argon2_hash(password: &str) -> (r: Result<String, argon2::password_hash::Error>)
    ensures
        r matches Ok(h) ==> argon2_accepts(password@, h@),
        r matches Ok(h) ==> is_argon2id_phc(h@),
{
    let mut bytes = [0u8; 16];
    OsRng.try_fill_bytes(&mut bytes).map_err(|_| argon2::password_hash::Error::Crypto)?;
    let salt = SaltString::encode_b64(&bytes)?;
    Argon2::default().hash_password(password.as_bytes(), &salt).map(|h| h.to_string())
}

/// Relies on `PasswordHash::new` and `Argon2::default().verify_password`; a stored value
/// that does not parse as a PHC string (among them any that is empty or does not open
/// with `$`) is never accepted.
#[verifier::external_body]
fn argon2_verify(password: &str, stored: &str) -> (r: bool)
    ensures
        r == argon2_accepts(password@, stored@),
        (stored@.len() == 0 || stored@[0] != '$') ==> !r,
{
    match PasswordHash::new(stored) {
        Ok(parsed) => Argon2::default().verify_password(password.as_bytes(), &parsed).is_ok(),
        Err(_) => false,
    }
}

/// A salted Argon2id hash of `password` as a PHC string, or `None` where the primitive
/// failed. The plaintext itself is never handed back as its hash.
pub fn hash_password(password: &String) -> (r: Option<String>)
    ensures
        r matches Some(h) ==> argon2_accepts(password@, h@),
        r matches Some(h) ==> is_argon2id_phc(h@),
        r matches Some(h) ==> h@ != password@,
{
    match argon2_hash(password.as_str()) {
        Ok(h) => {
            if h == *password {
                None
            } else {
                Some(h)
            }
        },
        Err(_) => None,
    }
}

/// `h` opens with the `$argon2id$` tag of a PHC string.
pub open spec fn is_argon2id_phc(h: Seq<char>) -> bool {
    h.len() > argon2id_prefix().len() && h.take(argon2id_prefix().len() as int) == argon2id_prefix()
}

/// Whether `password` is the one that the encoded hash `stored` was made from. A stored
/// value that is empty or does not open with `$` is no PHC string and is refused.
pub fn verify_password(password: &String, stored: &String) -> (r: bool)
    ensures
        r == argon2_accepts(password@, stored@),
        (stored@.len() == 0 || stored@[0] != '$') ==> !r,
{
    argon2_verify(password.as_str(), stored.as_str())
}

} // verus!
