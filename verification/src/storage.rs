//! Uploaded files: each is stored once under the SHA-256 of its content, in a
//! two-level directory named after the first four hex digits of that digest.
use vstd::prelude::*;
use vstd::string::StringExecFns;
use vstd::string::StrSliceExecFns;
use vstd::string::StringSliceAdditionalSpecFns;
use crate::errors::ApiError;
use crate::digest::{
    hex_encode, hex_lower, lemma_hex_lower_len, sha256_absorbed, sha256_finalize, sha256_new,
    sha256_of, sha256_update, Sha256Stream,
};

verus! {

/// How many leading bytes of an upload are kept for recognising its type.
pub const MAX_SNIFF_BYTES: usize = 8192;

/// Receives one uploaded file chunk by chunk: counts its bytes, hashes them, and
/// keeps the first `MAX_SNIFF_BYTES` of them.
pub struct UploadReceiver {
    size_bytes: i64,
    hasher: Sha256Stream,
    sniff: Vec<u8>,
    received: Ghost<Seq<u8>>,
}

pub open spec fn sniff_len(n: int) -> int {
    if n < 8192 {
        n
    } else {
        8192
    }
}

impl UploadReceiver {
    /// Every byte received so far, in order.
    pub closed spec fn received(&self) -> Seq<u8> {
        self.received@
    }

    pub closed spec fn wf(&self) -> bool {
        &&& self.size_bytes == self.received@.len()
        &&& sha256_absorbed(self.hasher) == self.received@
        &&& self.sniff@ == self.received@.take(sniff_len(self.received@.len() as int))
    }

    pub fn new() -> (r: UploadReceiver)
        ensures
            r.wf(),
            r.received() == Seq::<u8>::empty(),
    {
        let r = UploadReceiver {
            size_bytes: 0,
            hasher: sha256_new(),
            sniff: Vec::new(),
            received: Ghost(Seq::empty()),
        };
        assert(r.sniff@ =~= r.received@.take(0));
        r
    }

    /// The number of bytes received so far.
    pub fn size_bytes(&self) -> (n: i64)
        requires
            self.wf(),
        ensures
            n == self.received().len(),
    {
        self.size_bytes
    }

    /// Takes the next chunk of the file.
    pub fn absorb(&mut self, chunk: &[u8])
        requires
            old(self).wf(),
            old(self).received().len() + chunk@.len() <= i64::MAX,
        ensures
            final(self).wf(),
            final(self).received() == old(self).received() + chunk@,
    {
        let ghost before = self.received@;
        self.size_bytes = self.size_bytes + chunk.len() as i64;
        sha256_update(&mut self.hasher, chunk);
        if self.sniff.len() < MAX_SNIFF_BYTES {
            let remaining = MAX_SNIFF_BYTES - self.sniff.len();
            let take = if chunk.len() < remaining {
                chunk.len()
            } else {
                remaining
            };
            assert(self.sniff@ =~= before + chunk@.take(0));
            let mut i: usize = 0;
            while i < take
                invariant
                    0 <= i <= take <= chunk@.len(),
                    self.size_bytes == before.len() + chunk@.len(),
                    sha256_absorbed(self.hasher) == before + chunk@,
                    self.received@ == before,
                    take == (if chunk@.len() < 8192 - before.len() { chunk@.len() as int } else { 8192 - before.len() }),
                    self.sniff@ == before + chunk@.take(i as int),
                    before.len() + take <= 8192,
                decreases take - i,
            {
                self.sniff.push(chunk[i]);
                i = i + 1;
                assert(chunk@.take(i as int) =~= chunk@.take(i - 1).push(chunk@[i - 1]));
            }
            assert((before + chunk@).take(sniff_len((before + chunk@).len() as int)) =~= before
                + chunk@.take(take as int));
        } else {
            assert((before + chunk@).take(sniff_len((before + chunk@).len() as int))
                =~= before.take(sniff_len(before.len() as int)));
        }
        self.received = Ghost(before + chunk@);
    }

    /// Finishes the file: its digest and where it is stored.
    pub fn finish(self) -> (f: ReceivedFile)
        requires
            self.wf(),
        ensures
            f.hash_hex@ == hex_lower(sha256_of(self.received())),
            f.hash_hex@.len() == 64,
            f.storage_key@.len() == 70,
            f.dir1@ == f.hash_hex@.subrange(0, 2),
            f.dir2@ == f.hash_hex@.subrange(2, 4),
            f.storage_key@ == storage_key_of(f.hash_hex@),
            f.size_bytes == self.received().len(),
            f.sniff@ == self.received().take(sniff_len(self.received().len() as int)),
    {
        let digest = sha256_finalize(self.hasher);
        let hash_hex = hex_encode(digest.as_slice());
        proof {
            lemma_hex_lower_len(digest@);
        }
        let dir1 = hash_hex.as_str().substring_char(0, 2).to_string();
        let dir2 = hash_hex.as_str().substring_char(2, 4).to_string();
        let mut storage_key = dir1.clone();
        storage_key.append("/");
        storage_key.append(dir2.as_str());
        storage_key.append("/");
        storage_key.append(hash_hex.as_str());
        proof {
            reveal_strlit("/");
        }
        ReceivedFile { hash_hex, dir1, dir2, storage_key, size_bytes: self.size_bytes, sniff: self.sniff }
    }
}

/// `dd/ee/<digest>`: the storage key of a file whose digest's hex text is `hash_hex`.
pub open spec fn storage_key_of(hash_hex: Seq<char>) -> Seq<char> {
    hash_hex.subrange(0, 2) + "/"@ + hash_hex.subrange(2, 4) + "/"@ + hash_hex
}

/// A fully received upload.
pub struct ReceivedFile {
    pub hash_hex: String,
    pub dir1: String,
    pub dir2: String,
    pub storage_key: String,
    pub size_bytes: i64,
    pub sniff: Vec<u8>,
}

/// Name and media type recorded for an upload, each `unknown` where the form part
/// did not give one.
pub fn upload_labels(file_name: Option<&str>, content_type: Option<&str>) -> (r: (String, String))
    ensures
        r.0@ == (match file_name {
            Some(n) => n@,
            None => "unknown"@,
        }),
        r.1@ == (match content_type {
            Some(c) => c@,
            None => "unknown"@,
        }),
{
    let name = match file_name {
        Some(n) => n.to_string(),
        None => "unknown".to_string(),
    };
    let mime = match content_type {
        Some(c) => c.to_string(),
        None => "unknown".to_string(),
    };
    (name, mime)
}

/// What becomes of the temporary file once its row is recorded.
#[derive(Debug, Clone, Copy, PartialEq, Eq)]
pub enum Placement {
    /// No file with this content is stored yet: move the temporary file into place.
    MoveIntoPlace,
    /// The same content is already stored: drop the temporary copy.
    DiscardTemporary,
}

pub fn placement(stored_already: bool) -> (p: Placement)
    ensures
        p == (if stored_already { Placement::DiscardTemporary } else { Placement::MoveIntoPlace }),
{
    if stored_already {
        Placement::DiscardTemporary
    } else {
        Placement::MoveIntoPlace
    }
}

/// How a failed upload step is undone, and what the request is answered.
#[derive(Debug, Clone, PartialEq, Eq)]
pub struct UploadFailure {
    /// Delete the row recorded for the file.
    pub delete_row: bool,
    /// Remove the temporary file.
    pub remove_temporary: bool,
    /// The answer to the request.
    pub error: ApiError,
}

/// After the row insert: a failed insert recorded nothing, so only the temporary file
/// is removed, and the request is answered `Internal`.
pub fn after_insert(inserted: bool) -> (r: Result<(), UploadFailure>)
    ensures
        inserted ==> r is Ok,
        !inserted ==> r == Err::<(), UploadFailure>(
            (UploadFailure { delete_row: false, remove_temporary: true, error: ApiError::Internal }),
        ),
{
    if inserted {
        Ok(())
    } else {
        Err(UploadFailure { delete_row: false, remove_temporary: true, error: ApiError::Internal })
    }
}

/// After moving the temporary file into place: a failed move deletes the row just
/// recorded and removes the temporary file, and the request is answered `Internal`.
pub fn after_move(moved: bool) -> (r: Result<(), UploadFailure>)
    ensures
        moved ==> r is Ok,
        !moved ==> r == Err::<(), UploadFailure>(
            (UploadFailure { delete_row: true, remove_temporary: true, error: ApiError::Internal }),
        ),
{
    if moved {
        Ok(())
    } else {
        Err(UploadFailure { delete_row: true, remove_temporary: true, error: ApiError::Internal })
    }
}

/// Bytes that an HTTP header value may hold: visible ASCII, tab and bytes above 127.
pub open spec fn header_byte_ok(b: u8) -> bool {
    (b >= 32 && b != 127) || b == 9
}

/// `http::HeaderValue::from_str(s).is_ok()`: whether every byte may stand in a header.
#[verifier::external_body]
fn header_value_ok(s: &str) -> (r: bool)
    ensures
        r == (forall|i: int| 0 <= i < s.spec_bytes().len() ==> header_byte_ok(#[trigger] s.spec_bytes()[i])),
{
    http::HeaderValue::from_str(s).is_ok()
}

/// The `Content-Type` of a served file: its recorded media type where that is a valid
/// header value, else `application/octet-stream`.
pub fn content_type_value(mime: &str) -> (v: String)
    ensures
        v@ == (if (forall|i: int| 0 <= i < mime.spec_bytes().len() ==> header_byte_ok(#[trigger] mime.spec_bytes()[i])) {
            mime@
        } else {
            "application/octet-stream"@
        }),
{
    if header_value_ok(mime) {
        mime.to_string()
    } else {
        "application/octet-stream".to_string()
    }
}

/// The `Content-Disposition` of a served file: shown inline, under its original name.
pub fn content_disposition(filename: &str) -> (v: String)
    ensures
        v@ == "inline; filename=\""@ + filename@ + "\""@,
{
    let mut v = "inline; filename=\"".to_string();
    v.append(filename);
    v.append("\"");
    v
}

} // verus!
