//! The library behind a self-hosted git service: authentication and tokens,
//! repository and file listings, uploads, comments and issues.
pub mod auth;
pub mod branches;
pub mod cache;
pub mod clock;
pub mod comments;
pub mod commits;
pub mod digest;
pub mod errors;
pub mod files;
pub mod issues;
pub mod meta;
pub mod pagination;
pub mod password;
pub mod repo;
pub mod storage;
pub mod text;
pub mod token;
