//! Sizing of the in-memory caches: the memory they may use, and the weight each
//! cached value counts for.
use vstd::prelude::*;
use std::sync::Arc;
use crate::text::{parse_u64, parsed_u64, str_eq, trim, trimmed};

verus! {

/// A cached directory listing.
#[derive(Clone)]
pub struct Tree {}

/// Cached repository metadata.
#[derive(Clone)]
pub struct RepoMeta {}

/// The memory available when no limit can be read: one GiB.
pub const DEFAULT_MEMORY_LIMIT: u64 = 1024 * 1024 * 1024;

/// Idle time after which a cached directory listing is dropped, in seconds.
pub const TREE_IDLE_SECONDS: u64 = 600;

/// Idle time after which a cached file body is dropped, in seconds.
pub const BLOB_IDLE_SECONDS: u64 = 300;

/// Time after which cached repository metadata is dropped, in seconds.
pub const REPO_META_LIVE_SECONDS: u64 = 3600;

/// Idle time after which cached commit metadata is dropped, in seconds.
pub const COMMIT_IDLE_SECONDS: u64 = 60;

/// The memory limit that a cgroup v2 `memory.max` file states: its number, or none
/// where it reads `max` (no limit) or cannot be read or parsed.
pub open spec fn memory_limit_of(contents: Option<Seq<char>>) -> Option<u64> {
    match contents {
        None => None,
        Some(c) => if trimmed(c) == "max"@ {
            None
        } else {
            parsed_u64(trimmed(c))
        },
    }
}

/// Reads the container's memory limit out of the contents of
/// `/sys/fs/cgroup/memory.max` (`None` where the file could not be read).
pub fn memory_limit_bytes(contents: Option<&str>) -> (r: Option<u64>)
    ensures
        r == memory_limit_of(
            match contents {
                Some(c) => Some(c@),
                None => None,
            },
        ),
{
    match contents {
        None => None,
        Some(c) => {
            let t = trim(c);
            if str_eq(t, "max") {
                None
            } else {
                parse_u64(t)
            }
        },
    }
}

/// The weight of a cached directory listing: a fixed eight KiB.
pub fn estimate_tree_size(_tree: &Arc<Tree>) -> (r: u32)
    ensures
        r == 8192,
{
    8 * 1024
}

/// The weight of a cached file body: the sizes of its key (a repository id and a
/// path) and of the text, headers included, truncated to 32 bits.
pub fn estimate_blob_size(k: &(u128, String), v: &Arc<String>) -> (r: u32)
    requires
        vstd::layout::size_of::<u128>() + vstd::utf8::encode_utf8(k.1@).len()
            + vstd::layout::size_of::<String>() + vstd::utf8::encode_utf8(v@).len() <= usize::MAX,
    ensures
        r == (vstd::layout::size_of::<u128>() + vstd::utf8::encode_utf8(k.1@).len()
            + vstd::layout::size_of::<String>() + vstd::utf8::encode_utf8(v@).len()) as u32,
{
    let key_size = std::mem::size_of::<u128>() + k.1.as_str().as_bytes().len();
    let value_size = std::mem::size_of::<String>() + v.as_str().as_bytes().len();
    (key_size + value_size) as u32
}

/// How the cache memory is shared out.
pub struct CacheBudgets {
    pub total: u64,
    pub blobs: u64,
    pub trees: u64,
    pub repo_meta: u64,
    pub commits: u64,
}

pub open spec fn limit_or_default(memory_limit: Option<u64>) -> u64 {
    match memory_limit {
        Some(m) => m,
        None => 1073741824u64,
    }
}

/// Whether the shares of a limit can be computed in 64 bits.
pub open spec fn budget_fits(memory_limit: Option<u64>) -> bool {
    (limit_or_default(memory_limit) / 10) * 40 <= u64::MAX
}

/// Splits a tenth of the memory limit among the caches: 40% file bodies, 20%
/// directory listings, 10% repository metadata and 30% commit metadata.
pub fn cache_budgets(memory_limit: Option<u64>) -> (b: CacheBudgets)
    requires
        budget_fits(memory_limit),
    ensures
        b.total == limit_or_default(memory_limit) / 10,
        b.blobs == b.total * 40 / 100,
        b.trees == b.total * 20 / 100,
        b.repo_meta == b.total * 10 / 100,
        b.commits == b.total * 30 / 100,
        b.blobs + b.trees + b.repo_meta + b.commits <= b.total,
{
    let limit = match memory_limit {
        Some(m) => m,
        None => DEFAULT_MEMORY_LIMIT,
    };
    let total = limit / 10;
    let blobs = total * 40 / 100;
    let trees = total * 20 / 100;
    let repo_meta = total * 10 / 100;
    let commits = total * 30 / 100;
    assert(blobs + trees + repo_meta + commits <= total) by (nonlinear_arith)
        requires
            blobs == total * 40 / 100,
            trees == total * 20 / 100,
            repo_meta == total * 10 / 100,
            commits == total * 30 / 100,
            total >= 0,
    {
    }
    CacheBudgets { total, blobs, trees, repo_meta, commits }
}

} // verus!
