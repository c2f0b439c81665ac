//! Issues, pull requests and users: request shapes and the answers when a row is
//! missing.
use vstd::prelude::*;
use vstd::string::StringExecFns;

verus! {

/// A new issue.
pub struct IssueCreation {
    pub title: String,
    pub body: Option<String>,
}

/// A repository named by its owner and its name.
pub struct RepoPath {
    pub owner: String,
    pub repo: String,
}

/// An issue (or pull request) named by its repository and its number there.
pub struct IssuePath {
    pub owner: String,
    pub repo: String,
    pub number: i32,
}

/// The state of a pull request.
#[derive(Debug, Clone, Copy, PartialEq, Eq)]
pub enum PrState {
    Open,
    Closed,
    Merged,
}

pub struct MergeRequest {
    pub force: bool,
}

pub struct UpdateRequest {}

/// The answer when the repository of an issue request does not exist.
pub fn repository_not_found() -> (r: (u16, String))
    ensures
        r.0 == 404,
        r.1@ == "Repository not found"@,
{
    (404, "Repository not found".to_string())
}

/// The answer when the issue asked for does not exist or is not visible.
pub fn issue_not_found() -> (r: (u16, String))
    ensures
        r.0 == 404,
        r.1@ == "Issue not found"@,
{
    (404, "Issue not found".to_string())
}

/// The answer when a database request of an issue endpoint fails, given the error's
/// text.
pub fn internal_error(detail: &str) -> (r: (u16, String))
    ensures
        r.0 == 500,
        r.1@ == "Database error: "@ + detail@,
{
    let mut m = "Database error: ".to_string();
    m.append(detail);
    (500, m)
}

/// The answer to closing an issue, given how many rows the update changed: none
/// means the issue does not exist or the caller may not close it.
pub fn close_issue_outcome(rows_affected: u64) -> (r: Result<u16, (u16, String)>)
    ensures
        rows_affected == 0 ==> (r matches Err(e) && e.0 == 404 && e.1@ == "Issue not found"@),
        rows_affected != 0 ==> r == Ok::<u16, (u16, String)>(204),
{
    if rows_affected == 0 {
        return Err(issue_not_found());
    }
    Ok(204)
}

} // verus!
