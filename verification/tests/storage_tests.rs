use back::errors::ApiError;
use back::storage::{after_insert, after_move, UploadFailure};
use back::storage::{
    content_disposition, content_type_value, placement, upload_labels, Placement, UploadReceiver,
    MAX_SNIFF_BYTES,
};

#[test]
fn received_file_is_keyed_by_content() {
    let mut r = UploadReceiver::new();
    r.absorb(b"hello ");
    r.absorb(b"");
    r.absorb(b"world");
    assert_eq!(r.size_bytes(), 11);
    let f = r.finish();
    assert_eq!(f.hash_hex, "b94d27b9934d3e08a52e52d7da7dabfac484efe37a5380ee9088f7ace2efcde9");
    assert_eq!(f.dir1, "b9");
    assert_eq!(f.dir2, "4d");
    assert_eq!(f.storage_key, "b9/4d/b94d27b9934d3e08a52e52d7da7dabfac484efe37a5380ee9088f7ace2efcde9");
    assert_eq!(f.size_bytes, 11);
    assert_eq!(f.sniff, b"hello world".to_vec());
}

#[test]
fn chunking_does_not_change_the_key() {
    let data: Vec<u8> = (0..20_000u32).map(|i| (i % 251) as u8).collect();
    let mut one = UploadReceiver::new();
    one.absorb(&data);
    let mut many = UploadReceiver::new();
    for chunk in data.chunks(777) {
        many.absorb(chunk);
    }
    let a = one.finish();
    let b = many.finish();
    assert_eq!(a.storage_key, b.storage_key);
    assert_eq!(a.sniff.len(), MAX_SNIFF_BYTES);
    assert_eq!(a.sniff, data[..MAX_SNIFF_BYTES].to_vec());
    assert_eq!(b.sniff, a.sniff);
    assert_eq!(b.size_bytes, 20_000);
}

#[test]
fn empty_upload() {
    let f = UploadReceiver::new().finish();
    assert_eq!(f.hash_hex, "e3b0c44298fc1c149afbf4c8996fb92427ae41e4649b934ca495991b7852b855");
    assert_eq!(f.size_bytes, 0);
    assert!(f.sniff.is_empty());
}

#[test]
fn labels_default_to_unknown() {
    assert_eq!(upload_labels(None, None), ("unknown".to_string(), "unknown".to_string()));
    assert_eq!(
        upload_labels(Some("a.png"), Some("image/png")),
        ("a.png".to_string(), "image/png".to_string())
    );
}

#[test]
fn placement_of_duplicates() {
    assert_eq!(placement(true), Placement::DiscardTemporary);
    assert_eq!(placement(false), Placement::MoveIntoPlace);
}

#[test]
fn served_headers() {
    assert_eq!(content_type_value("image/png"), "image/png");
    assert_eq!(content_type_value("text/plain\n"), "application/octet-stream");
    assert_eq!(content_type_value("a\tb"), "a\tb");
    assert_eq!(content_type_value("x\u{7f}"), "application/octet-stream");
    assert_eq!(content_disposition("report.pdf"), "inline; filename=\"report.pdf\"");
}

#[test]
fn upload_rollbacks() {
    assert_eq!(after_insert(true), Ok(()));
    assert_eq!(
        after_insert(false),
        Err(UploadFailure { delete_row: false, remove_temporary: true, error: ApiError::Internal })
    );
    assert_eq!(after_move(true), Ok(()));
    assert_eq!(
        after_move(false),
        Err(UploadFailure { delete_row: true, remove_temporary: true, error: ApiError::Internal })
    );
}
