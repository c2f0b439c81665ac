//! The errors the service answers with, and how each maps onto an HTTP status.
use vstd::prelude::*;
use vstd::string::StringExecFns;
use crate::text::str_eq;

verus! {

/// Errors of the repository, comment and file endpoints.
#[derive(Debug, Clone, PartialEq, Eq)]
pub enum ApiError {
    InvalidCredentials,
    TokenExpired,
    MissingAuthHeader,
    InvalidToken,
    Unauthorized,
    Forbidden,
    Validation(String),
    RepoNotFound,
    RepoAlreadyExists,
    Filesystem,
    Git,
    Database,
    Internal,
    CommitListingFailed,
    FileNotFound,
    UnsupportedFileType,
}

/// The HTTP status each error is answered with.
pub open spec fn api_status(e: ApiError) -> u16 {
    match e {
        ApiError::InvalidCredentials => 401,
        ApiError::TokenExpired => 401,
        ApiError::MissingAuthHeader => 400,
        ApiError::InvalidToken => 401,
        ApiError::Unauthorized => 401,
        ApiError::Forbidden => 403,
        ApiError::Validation(_) => 400,
        ApiError::RepoNotFound => 404,
        ApiError::RepoAlreadyExists => 409,
        ApiError::Filesystem => 500,
        ApiError::Git => 500,
        ApiError::Database => 500,
        ApiError::Internal => 500,
        ApiError::CommitListingFailed => 400,
        ApiError::FileNotFound => 500,
        ApiError::UnsupportedFileType => 415,
    }
}

/// The machine-readable code that each error carries in its response body.
pub open spec fn api_code(e: ApiError) -> Seq<char> {
    match e {
        ApiError::InvalidCredentials => "invalid_credentials"@,
        ApiError::TokenExpired => "token_expired"@,
        ApiError::MissingAuthHeader => "missing_auth_header"@,
        ApiError::InvalidToken => "invalid_token"@,
        ApiError::Unauthorized => "unauthorized"@,
        ApiError::Forbidden => "forbidden"@,
        ApiError::Validation(_) => "validation_error"@,
        ApiError::RepoNotFound => "repo_not_found"@,
        ApiError::RepoAlreadyExists => "repo_already_exists"@,
        ApiError::Filesystem => "filesystem_error"@,
        ApiError::Git => "git_error"@,
        ApiError::Database => "database_error"@,
        ApiError::Internal => "internal_error"@,
        ApiError::CommitListingFailed => "listing commits failed"@,
        ApiError::FileNotFound => "file not found"@,
        ApiError::UnsupportedFileType => "file not allowed"@,
    }
}

/// The human-readable message of each error.
pub open spec fn api_message(e: ApiError) -> Seq<char> {
    match e {
        ApiError::InvalidCredentials => "invalid credentials"@,
        ApiError::TokenExpired => "token expired"@,
        ApiError::MissingAuthHeader => "missing authorization header"@,
        ApiError::InvalidToken => "invalid token"@,
        ApiError::Unauthorized => "authentication required"@,
        ApiError::Forbidden => "forbidden"@,
        ApiError::Validation(detail) => "validation error: "@ + detail@,
        ApiError::RepoNotFound => "repository not found"@,
        ApiError::RepoAlreadyExists => "repository already exists"@,
        ApiError::Filesystem => "filesystem operation failed"@,
        ApiError::Git => "git operation failed"@,
        ApiError::Database => "database operation failed"@,
        ApiError::Internal => "internal server error"@,
        ApiError::CommitListingFailed => "commits listing for branch failed"@,
        ApiError::FileNotFound => "could not find the specified file"@,
        ApiError::UnsupportedFileType => "unsupported file type"@,
    }
}

impl ApiError {
    /// The HTTP status code of the response for this error.
    pub fn status(&self) -> (s: u16)
        ensures
            s == api_status(*self),
    {
        match self {
            ApiError::InvalidCredentials => 401,
            ApiError::TokenExpired => 401,
            ApiError::MissingAuthHeader => 400,
            ApiError::InvalidToken => 401,
            ApiError::Unauthorized => 401,
            ApiError::Forbidden => 403,
            ApiError::Validation(_) => 400,
            ApiError::RepoNotFound => 404,
            ApiError::RepoAlreadyExists => 409,
            ApiError::Filesystem => 500,
            ApiError::Git => 500,
            ApiError::Database => 500,
            ApiError::Internal => 500,
            ApiError::CommitListingFailed => 400,
            ApiError::FileNotFound => 500,
            ApiError::UnsupportedFileType => 415,
        }
    }

    /// The code string placed in the response body.
    pub fn code(&self) -> (c: &'static str)
        ensures
            c@ == api_code(*self),
    {
        match self {
            ApiError::InvalidCredentials => "invalid_credentials",
            ApiError::TokenExpired => "token_expired",
            ApiError::MissingAuthHeader => "missing_auth_header",
            ApiError::InvalidToken => "invalid_token",
            ApiError::Unauthorized => "unauthorized",
            ApiError::Forbidden => "forbidden",
            ApiError::Validation(_) => "validation_error",
            ApiError::RepoNotFound => "repo_not_found",
            ApiError::RepoAlreadyExists => "repo_already_exists",
            ApiError::Filesystem => "filesystem_error",
            ApiError::Git => "git_error",
            ApiError::Database => "database_error",
            ApiError::Internal => "internal_error",
            ApiError::CommitListingFailed => "listing commits failed",
            ApiError::FileNotFound => "file not found",
            ApiError::UnsupportedFileType => "file not allowed",
        }
    }

    /// The message placed in the response body.
    pub fn message(&self) -> (m: String)
        ensures
            m@ == api_message(*self),
    {
        match self {
            ApiError::InvalidCredentials => "invalid credentials".to_string(),
            ApiError::TokenExpired => "token expired".to_string(),
            ApiError::MissingAuthHeader => "missing authorization header".to_string(),
            ApiError::InvalidToken => "invalid token".to_string(),
            ApiError::Unauthorized => "authentication required".to_string(),
            ApiError::Forbidden => "forbidden".to_string(),
            ApiError::Validation(detail) => {
                let mut m = "validation error: ".to_string();
                m.append(detail.as_str());
                m
            },
            ApiError::RepoNotFound => "repository not found".to_string(),
            ApiError::RepoAlreadyExists => "repository already exists".to_string(),
            ApiError::Filesystem => "filesystem operation failed".to_string(),
            ApiError::Git => "git operation failed".to_string(),
            ApiError::Database => "database operation failed".to_string(),
            ApiError::Internal => "internal server error".to_string(),
            ApiError::CommitListingFailed => "commits listing for branch failed".to_string(),
            ApiError::FileNotFound => "could not find the specified file".to_string(),
            ApiError::UnsupportedFileType => "unsupported file type".to_string(),
        }
    }

    /// The error for a failed token check: an expired signature, or any other failure.
    pub fn from_token_failure(expired: bool) -> (e: ApiError)
        ensures
            e == (if expired { ApiError::TokenExpired } else { ApiError::InvalidToken }),
    {
        if expired {
            ApiError::TokenExpired
        } else {
            ApiError::InvalidToken
        }
    }

    /// The error for a failed repository insert: a unique-key violation (SQLSTATE
    /// `23505`) means the owner already has a repository of that name.
    pub fn from_repo_insert_failure(sqlstate: Option<&str>) -> (e: ApiError)
        ensures
            e == (if sqlstate matches Some(c) && c@ == "23505"@ {
                ApiError::RepoAlreadyExists
            } else {
                ApiError::Database
            }),
    {
        match sqlstate {
            Some(c) => {
                if str_eq(c, "23505") {
                    ApiError::RepoAlreadyExists
                } else {
                    ApiError::Database
                }
            },
            None => ApiError::Database,
        }
    }
}

/// Errors of the sign-up, log-in and token endpoints.
#[derive(Debug, Clone, PartialEq, Eq)]
pub enum AuthError {
    InvalidCredentials,
    TokenExpired,
    InvalidToken,
    MissingHeader(&'static str),
    InvalidInput(&'static str),
    DuplicateEmail,
    DuplicateUsername,
    PasswordHashing,
    Database,
}

/// The HTTP status each authentication error is answered with.
pub open spec fn auth_status(e: AuthError) -> u16 {
    match e {
        AuthError::InvalidCredentials => 401,
        AuthError::TokenExpired => 401,
        AuthError::InvalidToken => 401,
        AuthError::MissingHeader(_) => 400,
        AuthError::InvalidInput(_) => 400,
        AuthError::DuplicateEmail => 409,
        AuthError::DuplicateUsername => 409,
        AuthError::PasswordHashing => 500,
        AuthError::Database => 500,
    }
}

/// The machine-readable code of each authentication error.
pub open spec fn auth_code(e: AuthError) -> Seq<char> {
    match e {
        AuthError::InvalidCredentials => "invalid_credentials"@,
        AuthError::TokenExpired => "token_expired"@,
        AuthError::InvalidToken => "invalid_token"@,
        AuthError::MissingHeader(_) => "missing_header"@,
        AuthError::InvalidInput(_) => "invalid_input"@,
        AuthError::DuplicateEmail => "duplicate_email"@,
        AuthError::DuplicateUsername => "duplicate_username"@,
        AuthError::PasswordHashing => "password_hashing"@,
        AuthError::Database => "database_error"@,
    }
}

/// The human-readable message of each authentication error; an invalid input carries
/// its own.
pub open spec fn auth_message(e: AuthError) -> Seq<char> {
    match e {
        AuthError::InvalidCredentials => "invalid credentials"@,
        AuthError::TokenExpired => "token expired"@,
        AuthError::InvalidToken => "invalid token"@,
        AuthError::MissingHeader(h) => "missing header: "@ + h@,
        AuthError::InvalidInput(m) => m@,
        AuthError::DuplicateEmail => "email already registered"@,
        AuthError::DuplicateUsername => "username already taken"@,
        AuthError::PasswordHashing => "password hashing failed"@,
        AuthError::Database => "database operation failed"@,
    }
}

impl AuthError {
    /// The code string placed in the response body.
    pub fn code(&self) -> (c: &'static str)
        ensures
            c@ == auth_code(*self),
    {
        match self {
            AuthError::InvalidCredentials => "invalid_credentials",
            AuthError::TokenExpired => "token_expired",
            AuthError::InvalidToken => "invalid_token",
            AuthError::MissingHeader(_) => "missing_header",
            AuthError::InvalidInput(_) => "invalid_input",
            AuthError::DuplicateEmail => "duplicate_email",
            AuthError::DuplicateUsername => "duplicate_username",
            AuthError::PasswordHashing => "password_hashing",
            AuthError::Database => "database_error",
        }
    }

    /// The message placed in the response body.
    pub fn message(&self) -> (m: String)
        ensures
            m@ == auth_message(*self),
    {
        match self {
            AuthError::InvalidCredentials => "invalid credentials".to_string(),
            AuthError::TokenExpired => "token expired".to_string(),
            AuthError::InvalidToken => "invalid token".to_string(),
            AuthError::MissingHeader(h) => {
                let mut m = "missing header: ".to_string();
                m.append(h);
                m
            },
            AuthError::InvalidInput(m) => (*m).to_string(),
            AuthError::DuplicateEmail => "email already registered".to_string(),
            AuthError::DuplicateUsername => "username already taken".to_string(),
            AuthError::PasswordHashing => "password hashing failed".to_string(),
            AuthError::Database => "database operation failed".to_string(),
        }
    }

    /// The HTTP status code of the response for this error.
    pub fn status(&self) -> (s: u16)
        ensures
            s == auth_status(*self),
    {
        match self {
            AuthError::InvalidCredentials => 401,
            AuthError::TokenExpired => 401,
            AuthError::InvalidToken => 401,
            AuthError::MissingHeader(_) => 400,
            AuthError::InvalidInput(_) => 400,
            AuthError::DuplicateEmail => 409,
            AuthError::DuplicateUsername => 409,
            AuthError::PasswordHashing => 500,
            AuthError::Database => 500,
        }
    }

    /// The error for a failed token check: an expired signature, or any other failure.
    pub fn from_token_failure(expired: bool) -> (e: AuthError)
        ensures
            e == (if expired { AuthError::TokenExpired } else { AuthError::InvalidToken }),
    {
        if expired {
            AuthError::TokenExpired
        } else {
            AuthError::InvalidToken
        }
    }

    /// The error for a failed user insert. A unique-key violation (SQLSTATE `23505`)
    /// on the e-mail or the user-name constraint is a duplicate; anything else is a
    /// database failure.
    pub fn from_user_insert_failure(sqlstate: Option<&str>, constraint: Option<&str>) -> (e:
        AuthError)
        ensures
            e == (if sqlstate matches Some(c) && c@ == "23505"@ {
                if constraint matches Some(k) && k@ == "users_email_key"@ {
                    AuthError::DuplicateEmail
                } else if constraint matches Some(k) && k@ == "users_username_key"@ {
                    AuthError::DuplicateUsername
                } else {
                    AuthError::Database
                }
            } else {
                AuthError::Database
            }),
    {
        let unique_violation = match sqlstate {
            Some(c) => str_eq(c, "23505"),
            None => false,
        };
        if !unique_violation {
            return AuthError::Database;
        }
        match constraint {
            Some(k) => {
                if str_eq(k, "users_email_key") {
                    AuthError::DuplicateEmail
                } else if str_eq(k, "users_username_key") {
                    AuthError::DuplicateUsername
                } else {
                    AuthError::Database
                }
            },
            None => AuthError::Database,
        }
    }
}

} // verus!
