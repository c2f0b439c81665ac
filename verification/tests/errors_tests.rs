use back::errors::{ApiError, AuthError};

#[test]
fn api_error_statuses_and_codes() {
    let cases = vec![
        (ApiError::InvalidCredentials, 401, "invalid_credentials", "invalid credentials"),
        (ApiError::TokenExpired, 401, "token_expired", "token expired"),
        (ApiError::MissingAuthHeader, 400, "missing_auth_header", "missing authorization header"),
        (ApiError::InvalidToken, 401, "invalid_token", "invalid token"),
        (ApiError::Unauthorized, 401, "unauthorized", "authentication required"),
        (ApiError::Forbidden, 403, "forbidden", "forbidden"),
        (ApiError::Validation("name".to_string()), 400, "validation_error", "validation error: name"),
        (ApiError::RepoNotFound, 404, "repo_not_found", "repository not found"),
        (ApiError::RepoAlreadyExists, 409, "repo_already_exists", "repository already exists"),
        (ApiError::Filesystem, 500, "filesystem_error", "filesystem operation failed"),
        (ApiError::Git, 500, "git_error", "git operation failed"),
        (ApiError::Database, 500, "database_error", "database operation failed"),
        (ApiError::Internal, 500, "internal_error", "internal server error"),
        (ApiError::CommitListingFailed, 400, "listing commits failed", "commits listing for branch failed"),
        (ApiError::FileNotFound, 500, "file not found", "could not find the specified file"),
        (ApiError::UnsupportedFileType, 415, "file not allowed", "unsupported file type"),
    ];
    for (e, status, code, message) in cases {
        assert_eq!(e.status(), status);
        assert_eq!(e.code(), code);
        assert_eq!(e.message(), message);
    }
}

#[test]
fn token_failures() {
    assert_eq!(ApiError::from_token_failure(true), ApiError::TokenExpired);
    assert_eq!(ApiError::from_token_failure(false), ApiError::InvalidToken);
    assert_eq!(AuthError::from_token_failure(true), AuthError::TokenExpired);
    assert_eq!(AuthError::from_token_failure(false), AuthError::InvalidToken);
}

#[test]
fn repo_insert_failures() {
    assert_eq!(ApiError::from_repo_insert_failure(Some("23505")), ApiError::RepoAlreadyExists);
    assert_eq!(ApiError::from_repo_insert_failure(Some("23503")), ApiError::Database);
    assert_eq!(ApiError::from_repo_insert_failure(None), ApiError::Database);
}

#[test]
fn user_insert_failures() {
    assert_eq!(
        AuthError::from_user_insert_failure(Some("23505"), Some("users_email_key")),
        AuthError::DuplicateEmail
    );
    assert_eq!(
        AuthError::from_user_insert_failure(Some("23505"), Some("users_username_key")),
        AuthError::DuplicateUsername
    );
    assert_eq!(
        AuthError::from_user_insert_failure(Some("23505"), Some("other_key")),
        AuthError::Database
    );
    assert_eq!(AuthError::from_user_insert_failure(Some("23505"), None), AuthError::Database);
    assert_eq!(
        AuthError::from_user_insert_failure(Some("42P01"), Some("users_email_key")),
        AuthError::Database
    );
    assert_eq!(AuthError::from_user_insert_failure(None, None), AuthError::Database);
}

#[test]
fn auth_error_statuses() {
    assert_eq!(AuthError::InvalidCredentials.status(), 401);
    assert_eq!(AuthError::TokenExpired.status(), 401);
    assert_eq!(AuthError::InvalidToken.status(), 401);
    assert_eq!(AuthError::MissingHeader("Authorization").status(), 400);
    assert_eq!(AuthError::InvalidInput("x").status(), 400);
    assert_eq!(AuthError::DuplicateEmail.status(), 409);
    assert_eq!(AuthError::DuplicateUsername.status(), 409);
    assert_eq!(AuthError::PasswordHashing.status(), 500);
    assert_eq!(AuthError::Database.status(), 500);
}

#[test]
fn auth_error_codes_and_messages() {
    let cases = vec![
        (AuthError::InvalidCredentials, "invalid_credentials", "invalid credentials"),
        (AuthError::TokenExpired, "token_expired", "token expired"),
        (AuthError::InvalidToken, "invalid_token", "invalid token"),
        (AuthError::MissingHeader("Authorization"), "missing_header", "missing header: Authorization"),
        (
            AuthError::InvalidInput("password must be at least 8 characters"),
            "invalid_input",
            "password must be at least 8 characters",
        ),
        (AuthError::DuplicateEmail, "duplicate_email", "email already registered"),
        (AuthError::DuplicateUsername, "duplicate_username", "username already taken"),
        (AuthError::PasswordHashing, "password_hashing", "password hashing failed"),
        (AuthError::Database, "database_error", "database operation failed"),
    ];
    for (e, code, message) in cases {
        assert_eq!(e.code(), code);
        assert_eq!(e.message(), message);
    }
}

#[test]
fn issue_database_failure() {
    assert_eq!(back::issues::internal_error("pool timed out"), (500, "Database error: pool timed out".to_string()));
}
