//! Password hashing with Argon2 (the crate's default parameters) in PHC string form.
use vstd::prelude::*;
use vstd::string::StringSliceAdditionalSpecFns;
use crate::digest::os_random_bytes;
use crate::errors::AuthError;

verus! {

#[verifier::external_type_specification]
#[verifier::external_body]
pub struct ExPasswordHashError(password_hash::Error);

/// The PHC string that `Argon2::default().hash_password` makes of a password and a
/// base64 salt, or `None` where it fails.
pub uninterp spec fn argon2_phc(password: Seq<u8>, salt: Seq<char>) -> Option<Seq<char>>;

/// What `Argon2::default().verify_password` decides for a password against a PHC
/// string: `None` where the string does not parse as a password hash, else whether
/// the password matches.
pub uninterp spec fn argon2_check(password: Seq<u8>, phc: Seq<char>) -> Option<bool>;

/// The text `password_hash::SaltString::encode_b64` makes of salt bytes: their
/// unpadded B64 encoding.
pub uninterp spec fn salt_b64(bytes: Seq<u8>) -> Seq<char>;

/// Passwords that Argon2 accepts: at most `u32::MAX` bytes (`argon2::MAX_PWD_LEN`).
pub open spec fn password_len_ok(password: Seq<u8>) -> bool {
    password.len() <= 0xFFFF_FFFF
}

/// `password_hash::SaltString::encode_b64(bytes)`, as its text. It succeeds for at
/// most 48 bytes, whose encoding fits the 64 characters a salt may have.
#[verifier::external_body]
fn salt_from_bytes(bytes: &[u8]) -> (r: Result<String, password_hash::Error>)
    ensures
        r matches Ok(t) ==> t@ == salt_b64(bytes@),
        bytes@.len() <= 48 ==> r is Ok,
{
    Ok(password_hash::SaltString::encode_b64(bytes)?.as_str().to_string())
}

/// `Argon2::default().hash_password(password, salt)` in PHC form. Verifying the same
/// password against the hash it returns succeeds. A password longer than `u32::MAX`
/// bytes is refused; a shorter one with a salt that is the B64 text of sixteen bytes
/// (which decodes back to those bytes, above the eight-byte minimum) is hashed.
#[verifier::external_body]
fn argon2_hash(password: &[u8], salt: &str) -> (r: Result<String, password_hash::Error>)
    ensures
        r is Ok <==> argon2_phc(password@, salt@) is Some,
        !password_len_ok(password@) ==> r is Err,
        password_len_ok(password@) && (exists|bytes: Seq<u8>|
            bytes.len() == 16 && salt@ == #[trigger] salt_b64(bytes)) ==> r is Ok,
        r matches Ok(h) ==> argon2_phc(password@, salt@) == Some(h@) && argon2_check(
            password@,
            h@,
        ) == Some(true),
{
    let salt = password_hash::Salt::from_b64(salt)?;
    let hash = argon2::PasswordHasher::hash_password(&argon2::Argon2::default(), password, salt)?;
    Ok(hash.to_string())
}

/// `PasswordHash::new(phc)` followed by `Argon2::default().verify_password`; the
/// error is that of the parse.
#[verifier::external_body]
fn argon2_verify(password: &[u8], phc: &str) -> (r: Result<bool, password_hash::Error>)
    ensures
        r is Ok <==> argon2_check(password@, phc@) is Some,
        r matches Ok(b) ==> argon2_check(password@, phc@) == Some(b),
{
    let parsed = password_hash::PasswordHash::new(phc)?;
    Ok(argon2::PasswordVerifier::verify_password(&argon2::Argon2::default(), password, &parsed).is_ok())
}

/// What `verify_password` returns: whether the password matches, or
/// `InvalidCredentials` where the stored hash does not parse.
pub open spec fn password_check_outcome(password: Seq<char>, phc: Seq<char>) -> Result<bool, AuthError> {
    match argon2_check(vstd::utf8::encode_utf8(password), phc) {
        Some(b) => Ok(b),
        None => Err(AuthError::InvalidCredentials),
    }
}

/// Hashes a password with a fresh random salt. Whatever salt was drawn, checking the
/// same password against the returned hash answers `Ok(true)`. It fails only for a
/// password longer than `u32::MAX` bytes.
pub fn hash_password(password: &str) -> (r: Result<String, AuthError>)
    ensures
        r is Ok <==> password_len_ok(password.spec_bytes()),
        r matches Ok(h) ==> exists|salt: Seq<char>| #[trigger]
            argon2_phc(password.spec_bytes(), salt) == Some(h@),
        r matches Ok(h) ==> password_check_outcome(password@, h@) == Ok::<bool, AuthError>(true),
        r matches Err(e) ==> e == AuthError::PasswordHashing,
{
    let bytes: [u8; 16] = os_random_bytes::<16>();
    let salt = match salt_from_bytes(&bytes) {
        Ok(s) => s,
        Err(_) => {
            return Err(AuthError::PasswordHashing);
        },
    };
    assert(bytes@.len() == 16);
    match argon2_hash(password.as_bytes(), salt.as_str()) {
        Ok(h) => Ok(h),
        Err(_) => Err(AuthError::PasswordHashing),
    }
}

/// Checks a password against a stored PHC hash.
pub fn verify_password(password: &str, hash: &str) -> (r: Result<bool, AuthError>)
    ensures
        r == password_check_outcome(password@, hash@),
{
    match argon2_verify(password.as_bytes(), hash) {
        Ok(b) => Ok(b),
        Err(_) => Err(AuthError::InvalidCredentials),
    }
}

} // verus!
