use back::clock::unix_nanos;
use back::cache::{cache_budgets, estimate_blob_size, estimate_tree_size, memory_limit_bytes, Tree};
use std::sync::Arc;

#[test]
fn memory_limits() {
    assert_eq!(memory_limit_bytes(None), None);
    assert_eq!(memory_limit_bytes(Some("max\n")), None);
    assert_eq!(memory_limit_bytes(Some("  max  ")), None);
    assert_eq!(memory_limit_bytes(Some("2147483648\n")), Some(2_147_483_648));
    assert_eq!(memory_limit_bytes(Some("+5")), Some(5));
    assert_eq!(memory_limit_bytes(Some("-5")), None);
    assert_eq!(memory_limit_bytes(Some("12 34")), None);
    assert_eq!(memory_limit_bytes(Some("")), None);
    assert_eq!(memory_limit_bytes(Some("18446744073709551616")), None);
}

#[test]
fn weights() {
    assert_eq!(estimate_tree_size(&Arc::new(Tree {})), 8192);
    let key = (7u128, "src/main.rs".to_string());
    let value = Arc::new("fn main() {}".to_string());
    let expected = 16 + 11 + std::mem::size_of::<String>() + 12;
    assert_eq!(estimate_blob_size(&key, &value), expected as u32);
}

#[test]
fn budgets() {
    let b = cache_budgets(None);
    assert_eq!(b.total, 107_374_182);
    assert_eq!(b.blobs, 42_949_672);
    assert_eq!(b.trees, 21_474_836);
    assert_eq!(b.repo_meta, 10_737_418);
    assert_eq!(b.commits, 32_212_254);
    let small = cache_budgets(Some(1000));
    assert_eq!((small.total, small.blobs, small.trees, small.repo_meta, small.commits), (100, 40, 20, 10, 30));
}

#[test]
fn nanosecond_instants() {
    assert_eq!(unix_nanos(1, 5), 1_000_000_005);
    assert_eq!(unix_nanos(-1, 0), -1_000_000_000);
    assert_eq!(unix_nanos(i64::MAX, 999_999_999), i64::MAX as i128 * 1_000_000_000 + 999_999_999);
}
