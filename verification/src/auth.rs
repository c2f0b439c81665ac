//! Sign-up, log-in and token refresh: what each request decides, given what the
//! database answered.
use vstd::prelude::*;
use crate::digest::base64_url_nopad;
use crate::errors::AuthError;
use crate::password::{hash_password, password_check_outcome, password_len_ok, verify_password};
use vstd::string::StrSliceExecFns;
use crate::text::{lowercase_of, to_lowercase};
use crate::token::{
    generate_access_token, generate_refresh_token, hash_refresh_token, is_access_token,
    refresh_token_digest, Claims,
};

verus! {

/// A stored hash that no password matches, checked when a log-in names an unknown
/// user so that the answer takes as long as for a known one.
pub const DUMMY_HASH: &'static str =
    "$argon2id$v=19$m=19456,t=2,p=1$c29tZXNhbHQ$7vQm0zFjI4G0g8m1QqY6K6v6T6XQ3V8lYQv8h0w5W0A";

/// Fewest characters a new password may have.
pub const MIN_PASSWORD_CHARS: usize = 8;

/// Lifetime of a refresh token, in nanoseconds (seven days).
pub const REFRESH_TOKEN_NANOS: i128 = 604_800_000_000_000;

pub struct SignupRequest {
    pub email: String,
    pub username: String,
    pub password: String,
}

pub struct LoginRequest {
    pub identifier: String,
    pub password: String,
}

pub struct AuthResponse {
    pub access_token: String,
    pub refresh_token: String,
}

pub struct LoginResponse {
    pub access_token: String,
    pub refresh_token: String,
}

pub struct RefreshRequest {
    pub refresh_token: String,
}

/// A request that carried a valid access token.
pub struct AuthUser(pub Claims);

/// A request that may have carried a valid access token.
pub struct MaybeAuthUser(pub Option<Claims>);

/// The user a log-in identifier names, as stored.
pub struct UserCredentials {
    pub id: u128,
    pub password_hash: String,
}

/// A refresh token as stored: the owner, the digest of the token and when it expires
/// (nanoseconds since the Unix epoch).
pub struct RefreshTokenRow {
    pub user_id: u128,
    pub token_hash: String,
    pub expires_at: i128,
}

/// A stored refresh token as read back for a refresh request.
pub struct RefreshTokenRecord {
    pub id: u128,
    pub user_id: u128,
    pub expires_at: i128,
}

/// The answer to a log-in attempt, given the user found under the identifier.
pub open spec fn login_outcome(user: Option<UserCredentials>, password: Seq<char>) -> Result<
    u128,
    AuthError,
> {
    match user {
        Some(u) => if password_check_outcome(password, u.password_hash@) == Ok::<bool, AuthError>(
            true,
        ) {
            Ok(u.id)
        } else {
            Err(AuthError::InvalidCredentials)
        },
        None => Err(AuthError::InvalidCredentials),
    }
}

/// Decides a log-in: the user's id where the user exists and the password matches
/// the stored hash, `InvalidCredentials` in every other case. An unknown user is
/// checked against `DUMMY_HASH` all the same.
pub fn login_check(user: Option<UserCredentials>, password: &str) -> (r: Result<u128, AuthError>)
    ensures
        r == login_outcome(user, password@),
{
    match user {
        Some(u) => match verify_password(password, u.password_hash.as_str()) {
            Ok(true) => Ok(u.id),
            Ok(false) => Err(AuthError::InvalidCredentials),
            Err(e) => Err(e),
        },
        None => {
            let _ = verify_password(password, DUMMY_HASH);
            Err(AuthError::InvalidCredentials)
        },
    }
}

/// What a sign-up stores: the lowercased e-mail and the password's hash.
pub struct NewUser {
    pub email: String,
    pub username: String,
    pub password_hash: String,
}

/// Validates a sign-up and prepares the user row. A password of fewer than eight
/// characters is refused; the e-mail is lowercased; the password is hashed so that it
/// checks against the stored hash. Hashing fails only for a password longer than
/// `u32::MAX` bytes.
pub fn signup_prepare(req: &SignupRequest) -> (r: Result<NewUser, AuthError>)
    ensures
        req.password@.len() < 8 ==> r == Err::<NewUser, AuthError>(
            AuthError::InvalidInput("password must be at least 8 characters"),
        ),
        req.password@.len() >= 8 && !password_len_ok(vstd::utf8::encode_utf8(req.password@))
            ==> r == Err::<NewUser, AuthError>(AuthError::PasswordHashing),
        req.password@.len() >= 8 && password_len_ok(vstd::utf8::encode_utf8(req.password@))
            ==> r is Ok,
        r matches Ok(u) ==> {
            &&& u.email@ == lowercase_of(req.email@)
            &&& u.username@ == req.username@
            &&& password_check_outcome(req.password@, u.password_hash@) == Ok::<bool, AuthError>(true)
        },
{
    if req.password.as_str().unicode_len() < MIN_PASSWORD_CHARS {
        return Err(AuthError::InvalidInput("password must be at least 8 characters"));
    }
    let email = to_lowercase(req.email.as_str());
    let password_hash = hash_password(req.password.as_str())?;
    Ok(NewUser { email, username: req.username.clone(), password_hash })
}

/// The row to store for a refresh token issued at `now` (nanoseconds since the Unix
/// epoch): its digest, and an expiry seven days later.
pub fn refresh_token_row(user_id: u128, token: &str, now: i128) -> (row: RefreshTokenRow)
    requires
        now <= i128::MAX - REFRESH_TOKEN_NANOS,
    ensures
        row.user_id == user_id,
        row.token_hash@ == refresh_token_digest(token@),
        row.expires_at == now + REFRESH_TOKEN_NANOS,
{
    RefreshTokenRow {
        user_id,
        token_hash: hash_refresh_token(token),
        expires_at: now + REFRESH_TOKEN_NANOS,
    }
}

/// What a successful log-in, sign-up or refresh hands out, and the refresh-token row
/// to store for it.
pub struct IssuedSession {
    pub response: AuthResponse,
    pub stored: RefreshTokenRow,
}

/// Issues an access token and a fresh refresh token for `user_id`, with the row that
/// records the refresh token as issued at `now` (nanoseconds since the Unix epoch).
pub fn issue_session(user_id: u128, secret: &[u8], now: i128) -> (r: Result<IssuedSession, AuthError>)
    requires
        now <= i128::MAX - REFRESH_TOKEN_NANOS,
    ensures
        r is Ok,
        r matches Ok(s) ==> {
            &&& is_access_token(s.response.access_token@, user_id, secret@)
            &&& s.stored.user_id == user_id
            &&& s.stored.token_hash@ == refresh_token_digest(s.response.refresh_token@)
            &&& exists|bytes: Seq<u8>|
                bytes.len() == 32 && s.response.refresh_token@ == #[trigger] base64_url_nopad(bytes)
            &&& s.stored.expires_at == now + REFRESH_TOKEN_NANOS
        },
{
    let access_token = generate_access_token(user_id, secret)?;
    let refresh_token = generate_refresh_token();
    let stored = refresh_token_row(user_id, refresh_token.as_str(), now);
    Ok(IssuedSession { response: AuthResponse { access_token, refresh_token }, stored })
}

/// The answer to a refresh request, given the stored token found under the digest
/// of the presented one and the current time.
pub open spec fn refresh_outcome(record: Option<RefreshTokenRecord>, now: i128) -> Result<
    (u128, u128),
    AuthError,
> {
    match record {
        None => Err(AuthError::InvalidCredentials),
        Some(rec) => if rec.expires_at < now {
            Err(AuthError::TokenExpired)
        } else {
            Ok((rec.id, rec.user_id))
        },
    }
}

/// A stored refresh token is accepted, for its owner, at every moment up to and
/// including its expiry, and refused as expired at every moment after it; a token
/// found at one moment is also accepted at any earlier one. A token not found is
/// refused as unknown whatever the time.
pub proof fn lemma_refresh_accepted_until_expiry(
    record: Option<RefreshTokenRecord>,
    now: i128,
    earlier: i128,
)
    requires
        earlier <= now,
    ensures
        record is None ==> refresh_outcome(record, now) == Err::<(u128, u128), AuthError>(
            AuthError::InvalidCredentials,
        ),
        record matches Some(rec) ==> (now <= rec.expires_at <==> refresh_outcome(record, now)
            == Ok::<(u128, u128), AuthError>((rec.id, rec.user_id))),
        record matches Some(rec) ==> (rec.expires_at < now <==> refresh_outcome(record, now)
            == Err::<(u128, u128), AuthError>(AuthError::TokenExpired)),
        refresh_outcome(record, now) is Ok ==> refresh_outcome(record, earlier) == refresh_outcome(
            record,
            now,
        ),
{
}

/// Decides a refresh: an unknown token is `InvalidCredentials`, an expired one
/// `TokenExpired`; otherwise the stored token's id (to delete) and its owner.
pub fn refresh_check(record: Option<RefreshTokenRecord>, now: i128) -> (r: Result<(u128, u128), AuthError>)
    ensures
        r == refresh_outcome(record, now),
        record is None ==> r == Err::<(u128, u128), AuthError>(AuthError::InvalidCredentials),
        record matches Some(rec) ==> (rec.expires_at >= now ==> r == Ok::<(u128, u128), AuthError>(
            (rec.id, rec.user_id),
        )),
        record matches Some(rec) ==> (rec.expires_at < now ==> r == Err::<(u128, u128), AuthError>(
            AuthError::TokenExpired,
        )),
{
    match record {
        None => Err(AuthError::InvalidCredentials),
        Some(rec) => {
            if rec.expires_at < now {
                Err(AuthError::TokenExpired)
            } else {
                Ok((rec.id, rec.user_id))
            }
        },
    }
}

} // verus!
