use back::auth::{login_check, refresh_check, refresh_token_row, RefreshTokenRecord, UserCredentials, DUMMY_HASH};
use back::errors::AuthError;
use back::password::{hash_password, verify_password};
use back::token::{
    auth_required, authenticate, generate_access_token, generate_refresh_token, hash_refresh_token,
    maybe_authenticate, verify_token,
};

const SECRET: &[u8] = b"unit-test-secret";

#[test]
fn password_hash_round_trip() {
    let hash = hash_password("hunter22").unwrap();
    assert_eq!(verify_password("hunter22", &hash), Ok(true));
    assert_eq!(verify_password("hunter23", &hash), Ok(false));
}

#[test]
fn password_hashes_are_salted() {
    let a = hash_password("same password").unwrap();
    let b = hash_password("same password").unwrap();
    assert_ne!(a, b);
}

#[test]
fn unparsable_hash_is_invalid_credentials() {
    assert_eq!(verify_password("x", "not a phc string"), Err(AuthError::InvalidCredentials));
}

#[test]
fn dummy_hash_never_logs_in() {
    let user = UserCredentials { id: 1, password_hash: DUMMY_HASH.to_string() };
    assert_eq!(login_check(Some(user), "anything"), Err(AuthError::InvalidCredentials));
}

#[test]
fn login_with_unparsable_stored_hash() {
    let user = UserCredentials { id: 1, password_hash: "garbage".to_string() };
    assert_eq!(login_check(Some(user), "anything"), Err(AuthError::InvalidCredentials));
}

#[test]
fn access_token_round_trip() {
    let user: u128 = 1;
    let token = generate_access_token(user, SECRET).unwrap();
    assert_eq!(token.split('.').count(), 3);
    let claims = verify_token(&token, SECRET).unwrap();
    assert!(claims.starts_with("{\"sub\":\"00000000-0000-0000-0000-000000000001\",\"exp\":"));
    assert!(claims.contains(",\"iss\":\"my-api\",\"aud\":\"my-app\",\"jti\":\""));
    let v: serde_json::Value = serde_json::from_str(&claims).unwrap();
    assert_eq!(v["exp"].as_i64().unwrap() - v["iat"].as_i64().unwrap(), 600);
}

#[test]
fn token_under_other_secret_is_invalid() {
    let token = generate_access_token(5, SECRET).unwrap();
    assert_eq!(verify_token(&token, b"another secret"), Err(AuthError::InvalidToken));
}

#[test]
fn garbage_token_is_invalid() {
    assert_eq!(verify_token("not.a.token", SECRET), Err(AuthError::InvalidToken));
}

#[test]
fn bearer_prefix_is_required() {
    let token = generate_access_token(9, SECRET).unwrap();
    assert_eq!(auth_required(&token, SECRET), Err(AuthError::InvalidCredentials));
    assert_eq!(
        auth_required(&format!("bearer {}", token), SECRET),
        Err(AuthError::InvalidCredentials)
    );
    assert!(auth_required(&format!("Bearer {}", token), SECRET).is_ok());
}

#[test]
fn missing_header() {
    assert_eq!(authenticate(None, SECRET), Err(AuthError::MissingHeader("Authorization")));
    assert_eq!(maybe_authenticate(None, SECRET), None);
    assert_eq!(maybe_authenticate(Some("Basic abc"), SECRET), None);
    let token = generate_access_token(3, SECRET).unwrap();
    let header = format!("Bearer {}", token);
    assert!(maybe_authenticate(Some(&header), SECRET).is_some());
}

#[test]
fn refresh_token_shape() {
    let t = generate_refresh_token();
    assert_eq!(t.len(), 43);
    assert!(t.chars().all(|c| c.is_ascii_alphanumeric() || c == '-' || c == '_'));
    assert_ne!(t, generate_refresh_token());
}

#[test]
fn refresh_token_digest() {
    assert_eq!(
        hash_refresh_token("abc"),
        "ba7816bf8f01cfea414140de5dae2223b00361a396177a9cb410ff61f20015ad"
    );
    assert_eq!(hash_refresh_token("abc"), hash_refresh_token("abc"));
    assert_eq!(hash_refresh_token("").len(), 64);
}

#[test]
fn refresh_row_expires_in_seven_days() {
    let row = refresh_token_row(4, "abc", 1_000);
    assert_eq!(row.user_id, 4);
    assert_eq!(row.expires_at, 1_000 + 604_800_000_000_000);
    assert_eq!(row.token_hash, hash_refresh_token("abc"));
}

#[test]
fn refresh_unknown_token() {
    assert_eq!(refresh_check(None, 0), Err(AuthError::InvalidCredentials));
    let rec = RefreshTokenRecord { id: 1, user_id: 2, expires_at: 100 };
    assert_eq!(refresh_check(Some(rec), 100), Ok((1, 2)));
}

fn token_with(aud: &str, iss: &str) -> String {
    signed_token(aud, iss, 600, SECRET)
}

fn signed_token(aud: &str, iss: &str, expires_in: i64, secret: &[u8]) -> String {
    let now = std::time::SystemTime::now()
        .duration_since(std::time::UNIX_EPOCH)
        .unwrap()
        .as_secs() as i64;
    let text = format!(
        "{{\"sub\":\"00000000-0000-0000-0000-000000000001\",\"exp\":{},\"iat\":{},\"iss\":\"{}\",\"aud\":\"{}\",\"jti\":\"00000000-0000-0000-0000-000000000002\"}}",
        now + expires_in,
        now,
        iss,
        aud
    );
    let raw = serde_json::value::RawValue::from_string(text).unwrap();
    jsonwebtoken::encode(
        &jsonwebtoken::Header::new(jsonwebtoken::Algorithm::HS256),
        &raw,
        &jsonwebtoken::EncodingKey::from_secret(secret),
    )
    .unwrap()
}

#[test]
fn audience_and_issuer_are_checked() {
    assert!(verify_token(&token_with("my-app", "my-api"), SECRET).is_ok());
    assert_eq!(verify_token(&token_with("any-app", "my-api"), SECRET), Err(AuthError::InvalidToken));
    assert_eq!(verify_token(&token_with("my-app", "any-api"), SECRET), Err(AuthError::InvalidToken));
}

#[test]
fn bearer_token_errors_come_from_the_check() {
    assert_eq!(auth_required("Bearer not.a.token", SECRET), Err(AuthError::InvalidToken));
}

#[test]
fn expired_only_when_signed() {
    let expired = signed_token("my-app", "my-api", -3600, SECRET);
    assert_eq!(verify_token(&expired, SECRET), Err(AuthError::TokenExpired));
    let forged = signed_token("my-app", "my-api", -3600, b"someone else");
    assert_eq!(verify_token(&forged, SECRET), Err(AuthError::InvalidToken));
}

#[test]
fn token_ids_are_version_four() {
    let token = generate_access_token(1, SECRET).unwrap();
    let claims = verify_token(&token, SECRET).unwrap();
    let v: serde_json::Value = serde_json::from_str(&claims).unwrap();
    let jti = v["jti"].as_str().unwrap();
    assert_eq!(&jti[14..15], "4");
    assert!(matches!(&jti[19..20], "8" | "9" | "a" | "b"));
}
