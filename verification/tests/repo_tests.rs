use back::branches::{list_branches, split_remote_branch, RefCategory, RefRecord};
use back::commits::{
    check_signature_time, limit_reached, CommitError, CommitInfo, RawCommit, SignatureTime, WalkCollector, WalkStep,
};
use back::files::{
    build_tree, check_readable, collect_blobs, is_regular_file, BlobEntry, EntryKind, GixError, Node,
    TreeEntry, TreeListing,
};
use back::issues::{close_issue_outcome, issue_not_found, repository_not_found};
use back::meta::{bytes_equal, count_ref_types, CommitIdSet};

fn entry(name: &str, kind: EntryKind, subtree: Option<TreeListing>) -> TreeEntry {
    TreeEntry { name: name.to_string(), oid: format!("id-{}", name), kind, subtree: subtree.map(Box::new) }
}

fn sample_tree() -> TreeListing {
    let inner = TreeListing {
        entries: vec![entry("lib.rs", EntryKind::Blob, None), entry("run.sh", EntryKind::BlobExecutable, None)],
    };
    TreeListing {
        entries: vec![
            entry("README.md", EntryKind::Blob, None),
            entry("src", EntryKind::Tree, Some(inner)),
            entry("vendor", EntryKind::Commit, None),
            entry("link", EntryKind::Link, None),
        ],
    }
}

#[test]
fn tree_listing() {
    match build_tree(&sample_tree(), "").unwrap() {
        Node::Directory { name, children } => {
            assert_eq!(name, "");
            assert_eq!(children.len(), 3);
            assert!(matches!(&children[0], Node::File { name, oid } if name == "README.md" && oid == "id-README.md"));
            match &children[1] {
                Node::Directory { name, children } => {
                    assert_eq!(name, "src");
                    assert_eq!(children.len(), 1);
                    assert!(matches!(&children[0], Node::File { name, .. } if name == "lib.rs"));
                },
                other => panic!("unexpected {:?}", other),
            }
            assert!(matches!(&children[2], Node::Submodule { name, oid } if name == "vendor" && oid == "id-vendor"));
        },
        other => panic!("unexpected {:?}", other),
    }
}

#[test]
fn tree_without_subtree_fails() {
    let broken = TreeListing { entries: vec![entry("src", EntryKind::Tree, None)] };
    assert_eq!(build_tree(&broken, "").unwrap_err(), GixError::MissingItem);
}

#[test]
fn blob_paths() {
    let mut out: Vec<BlobEntry> = Vec::new();
    collect_blobs(&sample_tree(), "", &mut out).unwrap();
    let paths: Vec<(String, String)> = out.iter().map(|b| (b.path.clone(), b.oid.clone())).collect();
    assert_eq!(
        paths,
        vec![
            ("README.md".to_string(), "id-README.md".to_string()),
            ("src/lib.rs".to_string(), "id-lib.rs".to_string()),
        ]
    );
    let mut nested: Vec<BlobEntry> = Vec::new();
    collect_blobs(&sample_tree(), "root", &mut nested).unwrap();
    assert_eq!(nested[1].path, "root/src/lib.rs");
}

#[test]
fn readable_paths() {
    assert_eq!(check_readable(Some(EntryKind::Blob), "a.txt", "abc"), Ok(()));
    assert_eq!(check_readable(Some(EntryKind::BlobExecutable), "a.sh", "abc"), Ok(()));
    assert_eq!(check_readable(Some(EntryKind::Tree), "src", "abc"), Err("'src' is a directory, not a file".to_string()));
    assert_eq!(check_readable(Some(EntryKind::Link), "l", "abc"), Err("'l' is a symbolic link".to_string()));
    assert_eq!(check_readable(Some(EntryKind::Commit), "m", "abc"), Err("'m' is a submodule".to_string()));
    assert_eq!(check_readable(None, "x", "abc"), Err("'x' does not exist at commit abc".to_string()));
    assert!(is_regular_file(Some(EntryKind::Blob)));
    assert!(is_regular_file(Some(EntryKind::BlobExecutable)));
    assert!(!is_regular_file(Some(EntryKind::Tree)));
    assert!(!is_regular_file(None));
}

#[test]
fn remote_branch_names() {
    assert_eq!(split_remote_branch(b"origin/main"), ("origin".to_string(), "main".to_string()));
    assert_eq!(split_remote_branch(b"origin/feature/auth"), ("origin".to_string(), "feature/auth".to_string()));
    assert_eq!(split_remote_branch(b"origin"), ("origin".to_string(), String::new()));
    assert_eq!(split_remote_branch(b"o\xffx/b"), ("o\u{fffd}x".to_string(), "b".to_string()));
}

fn record(category: Option<RefCategory>, name: &str, tip: u8) -> Option<RefRecord> {
    Some(RefRecord { category, short_name: name.as_bytes().to_vec(), tip: vec![tip; 20] })
}

#[test]
fn branches_and_counts() {
    let refs = vec![
        record(Some(RefCategory::LocalBranch), "main", 1),
        None,
        record(Some(RefCategory::RemoteBranch), "origin/main", 2),
        record(Some(RefCategory::Tag), "v1.0", 3),
        record(None, "HEAD", 4),
        record(Some(RefCategory::Other), "notes", 5),
        record(Some(RefCategory::LocalBranch), "feature/auth", 6),
    ];
    let listing = list_branches(&refs);
    assert_eq!(listing.local.len(), 2);
    assert_eq!(listing.local[0].name, "main");
    assert_eq!(listing.local[1].name, "feature/auth");
    assert_eq!(listing.local[1].tip, vec![6u8; 20]);
    assert_eq!(listing.remote.len(), 1);
    assert_eq!(listing.remote[0].remote, "origin");
    assert_eq!(listing.remote[0].branch, "main");
    let counts = count_ref_types(&refs);
    assert_eq!(counts.branches, 3);
    assert_eq!(counts.tags, 1);
}

#[test]
fn distinct_commits() {
    let mut set = CommitIdSet::new();
    set.insert(&[1, 2, 3]);
    set.insert(&[1, 2, 3]);
    set.insert(&[4]);
    assert_eq!(set.len(), 2);
    assert!(bytes_equal(&[1, 2], &[1, 2]));
    assert!(!bytes_equal(&[1, 2], &[1, 3]));
    assert!(!bytes_equal(&[1], &[1, 3]));
}

fn raw(author: SignatureTime, committer: SignatureTime) -> RawCommit {
    RawCommit {
        hash: "ab".repeat(20),
        author_name: "A".to_string(),
        author_email: "a@x".to_string(),
        author_time: author,
        committer_name: "C".to_string(),
        committer_time: committer,
        summary: "fix".to_string(),
        body: Some("details".to_string()),
    }
}

#[test]
fn commit_metadata() {
    let t = SignatureTime { seconds: 1_700_000_000, offset: 3600 };
    let info = CommitInfo::from_raw(raw(t, SignatureTime { seconds: 1_700_000_100, offset: -7200 })).unwrap();
    assert_eq!(info.hash, "ab".repeat(20));
    assert_eq!(info.summary, "fix");
    assert_eq!(info.body.as_deref(), Some("details"));
    assert_eq!(info.authored_at, t);
    assert_eq!(info.committed_at, SignatureTime { seconds: 1_700_000_100, offset: -7200 });
    let bad_offset = SignatureTime { seconds: 0, offset: 93_600 };
    assert_eq!(CommitInfo::from_raw(raw(t, bad_offset)).err(), Some(CommitError::OffsetOutOfRange));
    assert_eq!(
        check_signature_time(SignatureTime { seconds: i64::MAX, offset: 0 }).err(),
        Some(CommitError::TimestampOutOfRange)
    );
    assert_eq!(
        check_signature_time(SignatureTime { seconds: 253_402_300_800, offset: 93_600 }).err(),
        Some(CommitError::TimestampOutOfRange)
    );
    assert_eq!(
        check_signature_time(SignatureTime { seconds: 253_402_300_799, offset: 3600 }).err(),
        Some(CommitError::TimestampOutOfRange)
    );
    assert!(check_signature_time(SignatureTime { seconds: -377_705_116_800, offset: 0 }).is_ok());
    assert!(check_signature_time(SignatureTime { seconds: 0, offset: 93_599 }).is_ok());
}

#[test]
fn walk_stops() {
    assert!(!limit_reached(None, 1000));
    assert!(limit_reached(Some(3), 3));
    assert!(!limit_reached(Some(3), 2));
}

fn collect(ids: &[u8], limit: Option<usize>, excluded: &[u8]) -> Vec<u8> {
    let mut set = CommitIdSet::new();
    for e in excluded {
        set.insert(&[*e]);
    }
    let mut collector = WalkCollector::new(limit, set);
    let mut out = Vec::new();
    for id in ids {
        if collector.is_full() {
            break;
        }
        match collector.step(&[*id]) {
            WalkStep::Take => out.push(*id),
            WalkStep::Skip => {},
            WalkStep::Stop => break,
        }
    }
    out
}

#[test]
fn walk_collects_range() {
    assert_eq!(collect(&[5, 4, 3, 2, 1], None, &[]), vec![5, 4, 3, 2, 1]);
    assert_eq!(collect(&[5, 4, 3, 2, 1], Some(2), &[]), vec![5, 4]);
    // A merge: `3` and `1` are reachable from the excluded side, `2` is not.
    assert_eq!(collect(&[5, 4, 3, 2, 1], None, &[3, 1]), vec![5, 4, 2]);
    assert_eq!(collect(&[5, 4, 3, 2, 1], Some(2), &[4]), vec![5, 3]);
    assert_eq!(collect(&[5, 4, 3, 2, 1], Some(0), &[]), Vec::<u8>::new());
    assert_eq!(collect(&[5, 4, 3, 2, 1], None, &[5, 4, 3, 2, 1]), Vec::<u8>::new());
    assert_eq!(collect(&[5, 4, 5, 3, 4], None, &[]), vec![5, 4, 3]);
    let mut collector = WalkCollector::new(Some(1), CommitIdSet::new());
    assert_eq!(collector.step(&[1]), WalkStep::Take);
    assert_eq!(collector.collected_count(), 1);
    assert!(collector.is_full());
    assert_eq!(collector.step(&[2]), WalkStep::Stop);
    assert_eq!(collector.collected_count(), 1);
}

#[test]
fn id_set_membership() {
    let mut set = CommitIdSet::new();
    set.insert(&[7, 7]);
    assert!(set.contains(&[7, 7]));
    assert!(!set.contains(&[7]));
}

#[test]
fn issue_answers() {
    assert_eq!(close_issue_outcome(0), Err((404, "Issue not found".to_string())));
    assert_eq!(close_issue_outcome(1), Ok(204));
    assert_eq!(issue_not_found(), (404, "Issue not found".to_string()));
    assert_eq!(repository_not_found(), (404, "Repository not found".to_string()));
}
