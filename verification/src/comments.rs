//! Comments on issues and pull requests, read back in pages ordered by creation
//! time and id.
use vstd::prelude::*;
use crate::errors::ApiError;

verus! {

/// What a comment is attached to.
#[derive(Debug, Clone, Copy, PartialEq, Eq)]
pub enum CommentTarget {
    PullRequest,
    Issue,
}

/// A new comment. Ids are UUIDs by their 128-bit value.
pub struct CommentCreationRequest {
    pub target_type: CommentTarget,
    pub target_id: u128,
    pub body: String,
    pub files: Vec<u128>,
}

/// A stored comment; times are nanoseconds since the Unix epoch.
pub struct Comment {
    pub id: u128,
    pub author_id: Option<u128>,
    pub body: String,
    pub created_at: i128,
    pub updated_at: i128,
}

/// A request for a page of comments, continuing after an optional cursor.
pub struct CommentAcquireRequest {
    pub repo_id: u128,
    pub target_type: CommentTarget,
    pub cursor_created_at: Option<i128>,
    pub cursor_id: Option<u128>,
    pub per_page: Option<i64>,
}

/// Where the next page starts: the creation time and id of the last comment sent.
#[derive(Debug, Clone, Copy, PartialEq, Eq)]
pub struct CommentCursor {
    pub created_at: i128,
    pub id: u128,
}

pub struct CommentPage {
    pub comments: Vec<Comment>,
    pub next_cursor: Option<CommentCursor>,
    pub has_more: bool,
}

/// The page size of a comment listing: fifty unless given, kept within one to a
/// hundred.
pub open spec fn comment_page_size_of(per_page: Option<i64>) -> i64 {
    let p = match per_page {
        Some(p) => p,
        None => 50,
    };
    if p < 1 {
        1
    } else if p > 100 {
        100
    } else {
        p
    }
}

pub fn comment_page_size(per_page: Option<i64>) -> (n: i64)
    ensures
        n == comment_page_size_of(per_page),
        1 <= n <= 100,
{
    let p = match per_page {
        Some(p) => p,
        None => 50,
    };
    if p < 1 {
        1
    } else if p > 100 {
        100
    } else {
        p
    }
}

/// The rows a comment page keeps: one more than a page is fetched to learn whether
/// more follow, and that extra row is dropped.
pub open spec fn kept_rows(rows: Seq<Comment>, per_page: i64) -> Seq<Comment> {
    if rows.len() > per_page {
        rows.drop_last()
    } else {
        rows
    }
}

/// Builds a page from the rows fetched with `LIMIT per_page + 1`: `has_more` tells
/// whether more rows came than a page holds, the surplus row is dropped, and the
/// cursor is the last comment kept.
pub fn build_comment_page(rows: Vec<Comment>, per_page: i64) -> (page: CommentPage)
    requires
        1 <= per_page <= 100,
    ensures
        page.has_more == (rows@.len() > per_page),
        page.comments@ == kept_rows(rows@, per_page),
        page.next_cursor == (if kept_rows(rows@, per_page).len() > 0 {
            Some(
                CommentCursor {
                    created_at: kept_rows(rows@, per_page).last().created_at,
                    id: kept_rows(rows@, per_page).last().id,
                },
            )
        } else {
            None
        }),
{
    let mut comments = rows;
    let has_more = comments.len() > per_page as usize;
    if has_more {
        comments.pop();
    }
    let n = comments.len();
    let next_cursor = if n > 0 {
        Some(CommentCursor { created_at: comments[n - 1].created_at, id: comments[n - 1].id })
    } else {
        None
    };
    CommentPage { comments, next_cursor, has_more }
}

/// Whether a comment at `(a_at, a_id)` comes before one at `(b_at, b_id)` in listing
/// order: by creation time, then by id.
pub open spec fn comes_before(a_at: i128, a_id: u128, b_at: i128, b_id: u128) -> bool {
    a_at < b_at || (a_at == b_at && a_id < b_id)
}

/// Whether comments are in strictly increasing listing order, as the listing query
/// returns them (`ORDER BY created_at, id`, ids being unique).
pub open spec fn in_listing_order(m: Seq<Comment>) -> bool {
    forall|i: int, j: int|
        0 <= i < j < m.len() ==> comes_before(
            #[trigger] m[i].created_at,
            m[i].id,
            #[trigger] m[j].created_at,
            m[j].id,
        )
}

/// Whether a comment lies after a cursor (every comment does without one).
pub open spec fn after_cursor(c: Comment, cursor: Option<CommentCursor>) -> bool {
    match cursor {
        None => true,
        Some(k) => comes_before(k.created_at, k.id, c.created_at, c.id),
    }
}

/// The comments that the listing query selects after a cursor, in order.
pub open spec fn rows_after(m: Seq<Comment>, cursor: Option<CommentCursor>) -> Seq<Comment>
    decreases m.len(),
{
    if m.len() == 0 {
        Seq::<Comment>::empty()
    } else if after_cursor(m.last(), cursor) {
        rows_after(m.drop_last(), cursor).push(m.last())
    } else {
        rows_after(m.drop_last(), cursor)
    }
}

/// The first `n` rows, as `LIMIT n` keeps them.
pub open spec fn first_rows(a: Seq<Comment>, n: int) -> Seq<Comment> {
    if a.len() > n {
        a.take(n)
    } else {
        a
    }
}

/// The cursor a comment leaves.
pub open spec fn cursor_of(c: Comment) -> CommentCursor {
    CommentCursor { created_at: c.created_at, id: c.id }
}

/// In listing order, the comments after a cursor are a suffix: those from the first
/// one after it on.
proof fn lemma_rows_after_suffix(m: Seq<Comment>, cursor: Option<CommentCursor>) -> (s: int)
    requires
        in_listing_order(m),
    ensures
        0 <= s <= m.len(),
        rows_after(m, cursor) == m.subrange(s, m.len() as int),
        forall|k: int| 0 <= k < s ==> !after_cursor(#[trigger] m[k], cursor),
        forall|k: int| s <= k < m.len() ==> after_cursor(#[trigger] m[k], cursor),
    decreases m.len(),
{
    if m.len() == 0 {
        assert(m.subrange(0, 0) =~= Seq::<Comment>::empty());
        0
    } else {
        let prefix = m.drop_last();
        assert(in_listing_order(prefix)) by {
            assert forall|i: int, j: int| 0 <= i < j < prefix.len() implies comes_before(
                #[trigger] prefix[i].created_at,
                prefix[i].id,
                #[trigger] prefix[j].created_at,
                prefix[j].id,
            ) by {
                assert(prefix[i] == m[i] && prefix[j] == m[j]);
                assert(comes_before(m[i].created_at, m[i].id, m[j].created_at, m[j].id));
            }
        }
        let s0 = lemma_rows_after_suffix(prefix, cursor);
        let n = m.len() - 1;
        if after_cursor(m.last(), cursor) {
            assert(m.subrange(s0, m.len() as int) =~= prefix.subrange(s0, n).push(m.last()));
            assert forall|k: int| s0 <= k < m.len() implies after_cursor(#[trigger] m[k], cursor) by {
                if k < n {
                    assert(prefix[k] == m[k]);
                }
            }
            assert forall|k: int| 0 <= k < s0 implies !after_cursor(#[trigger] m[k], cursor) by {
                assert(prefix[k] == m[k]);
            }
            s0
        } else {
            assert forall|k: int| 0 <= k < m.len() implies !after_cursor(#[trigger] m[k], cursor) by {
                if k < n {
                    assert(comes_before(m[k].created_at, m[k].id, m[n].created_at, m[n].id));
                }
            }
            if s0 < n {
                assert(prefix[s0] == m[s0]);
                assert(after_cursor(prefix[s0], cursor));
                assert(!after_cursor(m[s0], cursor));
            }
            assert(m.subrange(m.len() as int, m.len() as int) =~= Seq::<Comment>::empty());
            assert(prefix.subrange(s0, n) =~= Seq::<Comment>::empty());
            m.len() as int
        }
    }
}

/// Following a page's cursor continues the listing exactly where the page ended: the
/// comments after the cursor of a page's last comment are those after the page's own
/// cursor, less the page. So successive pages neither repeat nor skip a comment.
pub proof fn lemma_next_page_continues(
    m: Seq<Comment>,
    cursor: Option<CommentCursor>,
    per_page: i64,
)
    requires
        in_listing_order(m),
        1 <= per_page,
        kept_rows(first_rows(rows_after(m, cursor), per_page + 1), per_page).len() > 0,
    ensures
        ({
            let page = kept_rows(first_rows(rows_after(m, cursor), per_page + 1), per_page);
            rows_after(m, Some(cursor_of(page.last()))) == rows_after(m, cursor).skip(
                page.len() as int,
            )
        }),
{
    let a = rows_after(m, cursor);
    let rows = first_rows(a, per_page + 1);
    let page = kept_rows(rows, per_page);
    let s = lemma_rows_after_suffix(m, cursor);
    let l = page.len() as int;
    assert(l <= a.len());
    assert(page.last() == a[l - 1]);
    assert(a[l - 1] == m[s + l - 1]);
    let c2 = Some(cursor_of(page.last()));
    let s2 = lemma_rows_after_suffix(m, c2);
    let j = s + l - 1;
    assert forall|k: int| 0 <= k < m.len() implies (after_cursor(#[trigger] m[k], c2) <==> k > j) by {
        if k < j {
            assert(comes_before(m[k].created_at, m[k].id, m[j].created_at, m[j].id));
        } else if k > j {
            assert(comes_before(m[j].created_at, m[j].id, m[k].created_at, m[k].id));
        }
    }
    if s2 < j + 1 {
        assert(after_cursor(m[s2], c2));
    }
    if s2 > j + 1 {
        assert(!after_cursor(m[j + 1], c2));
    }
    assert(s2 == j + 1);
    assert(a.skip(l) =~= m.subrange(s + l, m.len() as int));
}

/// The answer to a request on a repository, given whether the access query found the
/// caller allowed (a missing answer counts as not allowed).
pub fn require_access(allowed: Option<bool>) -> (r: Result<(), ApiError>)
    ensures
        r is Ok <==> allowed == Some(true),
        r matches Err(e) ==> e == ApiError::Unauthorized,
{
    match allowed {
        Some(true) => Ok(()),
        _ => Err(ApiError::Unauthorized),
    }
}

} // verus!
