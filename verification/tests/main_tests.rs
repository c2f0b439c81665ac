use back::auth::{
    issue_session, login_check, refresh_check, signup_prepare, RefreshTokenRecord,
    SignupRequest, UserCredentials,
};
use back::clock::now_unix_nanos;
use back::errors::AuthError;
use back::token::{hash_refresh_token, verify_token};

const SECRET: &[u8] = b"integration-secret";

/// Signs a user up, logs in, refreshes, and checks the tokens handed out on the way.
#[test]
fn drive_tests() {
    let req = SignupRequest {
        email: "Alice@Example.COM".to_string(),
        username: "alice".to_string(),
        password: "correct horse battery".to_string(),
    };
    let new_user = signup_prepare(&req).expect("sign-up is accepted");
    assert_eq!(new_user.email, "alice@example.com");
    let user_id: u128 = 0x67e5_5044_10b1_426f_9247_bb68_0e5f_e0c8;

    let stored = UserCredentials { id: user_id, password_hash: new_user.password_hash.clone() };
    assert_eq!(login_check(Some(stored), "correct horse battery"), Ok(user_id));
    let stored = UserCredentials { id: user_id, password_hash: new_user.password_hash.clone() };
    assert_eq!(login_check(Some(stored), "wrong"), Err(AuthError::InvalidCredentials));
    assert_eq!(login_check(None, "correct horse battery"), Err(AuthError::InvalidCredentials));

    let now = now_unix_nanos();
    let session = issue_session(user_id, SECRET, now).expect("tokens are issued");
    assert_eq!(session.stored.user_id, user_id);
    assert_eq!(session.stored.expires_at, now + 604_800_000_000_000);
    assert_eq!(session.stored.token_hash, hash_refresh_token(&session.response.refresh_token));
    let claims = verify_token(&session.response.access_token, SECRET).expect("token verifies");
    assert!(claims.contains("\"sub\":\"67e55044-10b1-426f-9247-bb680e5fe0c8\""));

    let record = RefreshTokenRecord { id: 7, user_id, expires_at: session.stored.expires_at };
    assert_eq!(refresh_check(Some(record), session.stored.expires_at), Ok((7, user_id)));
    let record = RefreshTokenRecord { id: 7, user_id, expires_at: session.stored.expires_at };
    assert_eq!(
        refresh_check(Some(record), session.stored.expires_at + 1),
        Err(AuthError::TokenExpired)
    );
}

#[test]
fn test_signup() {
    let short = SignupRequest {
        email: "bob@example.com".to_string(),
        username: "bob".to_string(),
        password: "short".to_string(),
    };
    assert!(matches!(
        signup_prepare(&short),
        Err(AuthError::InvalidInput("password must be at least 8 characters"))
    ));
    // Eight bytes, but only four characters: the length is counted in characters.
    let multibyte_short = SignupRequest {
        email: "bob@example.com".to_string(),
        username: "bob".to_string(),
        password: "éééé".to_string(),
    };
    assert!(matches!(
        signup_prepare(&multibyte_short),
        Err(AuthError::InvalidInput("password must be at least 8 characters"))
    ));
    let multibyte = SignupRequest {
        email: "BOB@example.com".to_string(),
        username: "bob".to_string(),
        password: "ééééwxyz".to_string(),
    };
    let user = signup_prepare(&multibyte).expect("eight characters are enough");
    assert_eq!(user.email, "bob@example.com");
    assert_eq!(user.username, "bob");
    assert!(user.password_hash.starts_with("$argon2id$"));
}
