//! Hashing and byte-to-text encodings used for tokens and stored files.
use vstd::prelude::*;

verus! {

/// A streaming SHA-256 hasher. `sha2::Sha256` is a generic alias that Verus
/// cannot declare, so it is held here in a field that Verus does not see.
#[verifier::external_body]
pub struct Sha256Stream {
    inner: sha2::Sha256,
}

/// The bytes absorbed so far by a streaming SHA-256 hasher.
pub uninterp spec fn sha256_absorbed(h: Sha256Stream) -> Seq<u8>;

/// The SHA-256 digest of a byte sequence.
pub uninterp spec fn sha256_of(data: Seq<u8>) -> Seq<u8>;

/// `sha2::Sha256::new` (via `Digest::new`): a hasher that has absorbed nothing.
#[verifier::external_body]
pub(crate) fn sha256_new() -> (h: Sha256Stream)
    ensures
        sha256_absorbed(h) == Seq::<u8>::empty(),
{
    Sha256Stream { inner: <sha2::Sha256 as sha2::Digest>::new() }
}

/// `Digest::update` on a SHA-256 hasher: appends `chunk` to what it has absorbed.
#[verifier::external_body]
pub(crate) fn sha256_update(h: &mut Sha256Stream, chunk: &[u8])
    ensures
        sha256_absorbed(*final(h)) == sha256_absorbed(*old(h)) + chunk@,
{
    sha2::Digest::update(&mut h.inner, chunk)
}

/// `Digest::finalize` on a SHA-256 hasher: the 32-byte digest of all absorbed bytes.
#[verifier::external_body]
pub(crate) fn sha256_finalize(h: Sha256Stream) -> (d: Vec<u8>)
    ensures
        d@ == sha256_of(sha256_absorbed(h)),
        d@.len() == 32,
{
    sha2::Digest::finalize(h.inner).to_vec()
}

} // verus!

verus! {

/// The lowercase hexadecimal digit for a value below sixteen.
pub open spec fn hex_digit(n: int) -> char {
    seq!['0', '1', '2', '3', '4', '5', '6', '7', '8', '9', 'a', 'b', 'c', 'd', 'e', 'f'][n]
}

/// Two lowercase hex digits per byte, high nibble first.
pub open spec fn hex_lower(bytes: Seq<u8>) -> Seq<char>
    decreases bytes.len(),
{
    if bytes.len() == 0 {
        Seq::<char>::empty()
    } else {
        seq![hex_digit(bytes[0] as int / 16), hex_digit(bytes[0] as int % 16)] + hex_lower(bytes.drop_first())
    }
}

/// `hex::encode`: every byte as two lowercase hexadecimal digits.
#[verifier::external_body]
pub(crate) fn hex_encode(bytes: &[u8]) -> (s: String)
    ensures
        s@ == hex_lower(bytes@),
{
    hex::encode(bytes)
}

/// The URL-safe, unpadded base64 text of a byte sequence.
pub uninterp spec fn base64_url_nopad(bytes: Seq<u8>) -> Seq<char>;

/// `base64::engine::general_purpose::URL_SAFE_NO_PAD.encode`.
#[verifier::external_body]
pub(crate) fn base64_url_encode(bytes: &[u8]) -> (s: String)
    ensures
        s@ == base64_url_nopad(bytes@),
{
    base64::Engine::encode(&base64::engine::general_purpose::URL_SAFE_NO_PAD, bytes)
}

/// `rand_core::OsRng::fill_bytes` on an `N`-byte buffer: bytes from the operating
/// system's generator. Nothing is stated of their values.
#[verifier::external_body]
pub(crate) fn os_random_bytes<const N: usize>() -> (b: [u8; N]) {
    let mut bytes = [0u8; N];
    password_hash::rand_core::RngCore::fill_bytes(&mut password_hash::rand_core::OsRng, &mut bytes);
    bytes
}

} // verus!

verus! {

/// Hex text has two digits per byte.
pub proof fn lemma_hex_lower_len(bytes: Seq<u8>)
    ensures
        hex_lower(bytes).len() == 2 * bytes.len(),
    decreases bytes.len(),
{
    if bytes.len() > 0 {
        lemma_hex_lower_len(bytes.drop_first());
    }
}

/// Every character of hex text is a lowercase hexadecimal digit.
pub proof fn lemma_hex_lower_digits(bytes: Seq<u8>)
    ensures
        forall|i: int|
            0 <= i < hex_lower(bytes).len() ==> (('0' <= #[trigger] hex_lower(bytes)[i] <= '9')
                || ('a' <= hex_lower(bytes)[i] <= 'f')),
    decreases bytes.len(),
{
    if bytes.len() > 0 {
        lemma_hex_lower_digits(bytes.drop_first());
        let head = seq![hex_digit(bytes[0] as int / 16), hex_digit(bytes[0] as int % 16)];
        let rest = hex_lower(bytes.drop_first());
        assert(hex_lower(bytes) =~= head + rest);
        assert forall|i: int| 0 <= i < hex_lower(bytes).len() implies (('0' <= #[trigger] hex_lower(
            bytes,
        )[i] <= '9') || ('a' <= hex_lower(bytes)[i] <= 'f')) by {
            if i >= 2 {
                assert(hex_lower(bytes)[i] == rest[i - 2]);
            } else {
                let n = if i == 0 { bytes[0] as int / 16 } else { bytes[0] as int % 16 };
                assert(0 <= n < 16);
                assert(hex_lower(bytes)[i] == hex_digit(n));
            }
        }
    }
}

} // verus!
