use back::comments::{build_comment_page, comment_page_size, require_access, Comment, CommentCursor};
use back::errors::ApiError;
use back::pagination::{CommitPager, PageStep, Pagination};

#[test]
fn page_params_defaults_and_bounds() {
    assert_eq!(Pagination { page: None, per_page: None }.page_params(), (1, 20));
    assert_eq!(Pagination { page: Some(0), per_page: Some(0) }.page_params(), (1, 1));
    assert_eq!(Pagination { page: Some(3), per_page: Some(500) }.page_params(), (3, 100));
    assert_eq!(Pagination { page: Some(7), per_page: Some(35) }.page_params(), (7, 35));
}

#[test]
fn issue_limit_offset() {
    assert_eq!(Pagination { page: Some(3), per_page: Some(25) }.limit_offset(), (25, 50));
    assert_eq!(Pagination { page: None, per_page: None }.limit_offset(), (20, 0));
}

fn walk(page: usize, per_page: usize, len: usize) -> Vec<usize> {
    let mut pager = CommitPager::new(page, per_page);
    let mut taken = Vec::new();
    for i in 0..len {
        match pager.step() {
            PageStep::Skip => continue,
            PageStep::Take => taken.push(i),
            PageStep::Stop => break,
        }
    }
    taken
}

#[test]
fn commit_pages() {
    assert_eq!(walk(1, 3, 10), vec![0, 1, 2]);
    assert_eq!(walk(2, 3, 10), vec![3, 4, 5]);
    assert_eq!(walk(4, 3, 10), vec![9]);
    assert_eq!(walk(5, 3, 10), Vec::<usize>::new());
    assert_eq!(walk(0, 3, 10), vec![0, 1, 2]);
    assert_eq!(walk(2, 0, 10), Vec::<usize>::new());
}

#[test]
fn pager_steps() {
    let mut pager = CommitPager::new(2, 2);
    assert_eq!(pager.step(), PageStep::Skip);
    assert_eq!(pager.step(), PageStep::Skip);
    assert_eq!(pager.step(), PageStep::Take);
    assert_eq!(pager.step(), PageStep::Take);
    assert_eq!(pager.step(), PageStep::Stop);
    assert_eq!(pager.next_index(), 5);
}

fn comment(id: u128, at: i128) -> Comment {
    Comment { id, author_id: None, body: format!("c{}", id), created_at: at, updated_at: at }
}

#[test]
fn comment_page_sizes() {
    assert_eq!(comment_page_size(None), 50);
    assert_eq!(comment_page_size(Some(0)), 1);
    assert_eq!(comment_page_size(Some(-4)), 1);
    assert_eq!(comment_page_size(Some(1000)), 100);
    assert_eq!(comment_page_size(Some(10)), 10);
}

#[test]
fn comment_page_with_more() {
    let rows = vec![comment(1, 10), comment(2, 20), comment(3, 30)];
    let page = build_comment_page(rows, 2);
    assert!(page.has_more);
    assert_eq!(page.comments.len(), 2);
    assert_eq!(page.comments[1].body, "c2");
    assert_eq!(page.next_cursor, Some(CommentCursor { created_at: 20, id: 2 }));
}

#[test]
fn comment_page_last() {
    let rows = vec![comment(1, 10), comment(2, 20)];
    let page = build_comment_page(rows, 2);
    assert!(!page.has_more);
    assert_eq!(page.comments.len(), 2);
    assert_eq!(page.next_cursor, Some(CommentCursor { created_at: 20, id: 2 }));
    let empty = build_comment_page(Vec::new(), 5);
    assert!(!empty.has_more);
    assert_eq!(empty.next_cursor, None);
}

#[test]
fn access_decisions() {
    assert_eq!(require_access(Some(true)), Ok(()));
    assert_eq!(require_access(Some(false)), Err(ApiError::Unauthorized));
    assert_eq!(require_access(None), Err(ApiError::Unauthorized));
}

/// The rows the listing query returns after a cursor: in (created_at, id) order,
/// strictly after the cursor, at most `limit` of them.
fn query(all: &[(u128, i128)], cursor: Option<CommentCursor>, limit: usize) -> Vec<Comment> {
    all.iter()
        .filter(|(id, at)| match cursor {
            None => true,
            Some(c) => *at > c.created_at || (*at == c.created_at && *id > c.id),
        })
        .take(limit)
        .map(|(id, at)| comment(*id, *at))
        .collect()
}

#[test]
fn following_cursors_lists_every_comment_once() {
    let all = [(1, 10), (2, 10), (3, 20), (4, 30), (5, 30)];
    let mut cursor = None;
    let mut seen = Vec::new();
    loop {
        let page = build_comment_page(query(&all, cursor, 3), 2);
        seen.extend(page.comments.iter().map(|c| c.id));
        cursor = page.next_cursor;
        if !page.has_more {
            break;
        }
    }
    assert_eq!(seen, vec![1, 2, 3, 4, 5]);
}
