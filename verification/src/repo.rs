//! Repository requests.
use vstd::prelude::*;

verus! {

pub enum RepoErrors {
    NotFound,
    MissingHead,
}

/// A repository to create.
pub struct NewRepo {
    pub name: String,
    pub description: Option<String>,
}

/// New metadata for a repository.
pub struct UpdateRepo {
    pub description: Option<String>,
}

/// A repository to delete, named by its owner's user name and its own name.
pub struct DeletionRequest {
    pub force: bool,
    pub repo_name: String,
    pub username: String,
}

} // verus!
