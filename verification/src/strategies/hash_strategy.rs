//! The SHA-256 strategy: a file is new when the store has no record of it,
//! unchanged when its digest equals the stored one, and changed otherwise.

use crate::db::file_repository::{File, FileView, record_view};
use crate::hexcodec::{decode_hex, encode_hex, hex_decoding, hex_encoding, is_hex_text, lemma_decode_encode};
use crate::strategies::{FileStatus, ScanStrategy, StatusView};
use sha2::Digest;
use vstd::prelude::*;

verus! {

/// The SHA-256 digest of `data`, as `sha2` computes it.
pub uninterp spec fn sha256_digest(data: Seq<u8>) -> Seq<u8>;

/// `sha2::Sha256::digest`: the SHA-256 digest of `data`. Claimed of it: the
/// same bytes give the same digest, and the digest is 32 bytes long (the
/// output size of `Sha256` is fixed at `U32`). What the bytes are is left
/// to the name `sha256_digest`.
#[verifier::external_body]
fn sha256(data: &[u8]) -> (digest: Vec<u8>)
    ensures
        digest@ == sha256_digest(data@),
        digest@.len() == 32,
{
    sha2::Sha256::digest(data).to_vec()
}

/// What a scan reports of `path`, given the digest of its contents and
/// what the store holds for it.
pub open spec fn scan_status(path: Seq<char>, digest: Seq<u8>, stored: Option<FileView>) -> StatusView {
    match stored {
        None => StatusView::NewFile(path),
        Some(f) => if digest == hex_decoding(f.hash) {
            StatusView::OK(f.filepath)
        } else {
            StatusView::FileChanged(f.filepath)
        },
    }
}

/// The record that an update writes for `path` with contents `data`.
pub open spec fn update_record(path: Seq<char>, data: Seq<u8>) -> FileView {
    FileView { filepath: path, hash: hex_encoding(sha256_digest(data)) }
}

/// Hashes files with SHA-256 and compares against the stored digest.
#[derive(Debug)]
pub struct SHA256FileScanStrategy;

fn bytes_equal(a: &[u8], b: &[u8]) -> (eq: bool)
    ensures
        eq == (a@ == b@),
{
    if a.len() != b.len() {
        return false;
    }
    let mut i: usize = 0;
    while i < a.len()
        invariant
            a@.len() == b@.len(),
            i <= a@.len(),
            forall|j: int| 0 <= j < i ==> a@[j] == b@[j],
        decreases a@.len() - i,
    {
        if a[i] != b[i] {
            return false;
        }
        i = i + 1;
    }
    assert(a@ =~= b@);
    true
}

/// Whether `text` is a hash that the store may hold: hex text that decodes.
pub fn is_valid_stored_hash(text: &str) -> (valid: bool)
    ensures
        valid == is_hex_text(text@),
{
    decode_hex(text).is_ok()
}

/// The status of `path` given the digest of its contents and the record
/// the store holds for it.
pub fn status_for_digest(path: &str, digest: &[u8], stored: &Option<File>) -> (status: FileStatus)
    requires
        stored matches Some(f) ==> is_hex_text(f.hash@),
    ensures
        status@ == scan_status(path@, digest@, record_view(*stored)),
{
    match stored {
        None => FileStatus::NewFile(path.to_owned()),
        Some(record) => {
            let decoded = decode_hex(record.hash.as_str());
            match decoded {
                Ok(bytes) => {
                    if bytes_equal(digest, bytes.as_slice()) {
                        FileStatus::OK(record.filepath.clone())
                    } else {
                        FileStatus::FileChanged(record.filepath.clone())
                    }
                },
                Err(_) => {
                    // The stored hash is hex text by the precondition.
                    proof {
                        assert(false);
                    }
                    FileStatus::FileChanged(record.filepath.clone())
                },
            }
        },
    }
}

impl SHA256FileScanStrategy {
    pub fn new() -> (strategy: SHA256FileScanStrategy) {
        SHA256FileScanStrategy {}
    }

    /// The SHA-256 digest of `file`.
    pub fn calculate_hash(&self, file: &[u8]) -> (hash: Vec<u8>)
        ensures
            hash@ == sha256_digest(file@),
            hash@.len() == 32,
    {
        sha256(file)
    }
}

impl ScanStrategy for SHA256FileScanStrategy {
    open spec fn name_spec(&self) -> Seq<char> {
        "SHA256FileScanStrategy"@
    }

    open spec fn status_spec(&self, path: Seq<char>, data: Seq<u8>, stored: Option<FileView>) -> StatusView {
        scan_status(path, sha256_digest(data), stored)
    }

    open spec fn record_spec(&self, path: Seq<char>, data: Seq<u8>) -> FileView {
        update_record(path, data)
    }

    fn get_name(&self) -> (name: &str) {
        "SHA256FileScanStrategy"
    }

    fn process(&self, path: &str, data: &[u8], stored: &Option<File>) -> (status: FileStatus) {
        let hash = self.calculate_hash(data);
        status_for_digest(path, hash.as_slice(), stored)
    }

    fn update(&self, path: &str, data: &[u8]) -> (record: File)
        ensures
            record.hash@.len() == 64,
            is_hex_text(record.hash@),
    {
        let hash = self.calculate_hash(data);
        proof {
            lemma_decode_encode(hash@);
        }
        File { filepath: path.to_owned(), hash: encode_hex(hash.as_slice()) }
    }
}

/// After an update of `path` with `old_data`, the stored record is one that a
/// scan accepts, and a scan of `path` with `new_data` reports it unchanged
/// when the two digests agree and changed when they differ.
pub proof fn lemma_scan_after_update(path: Seq<char>, old_data: Seq<u8>, new_data: Seq<u8>)
    ensures
        is_hex_text(update_record(path, old_data).hash),
        scan_status(path, sha256_digest(new_data), Some(update_record(path, old_data))) == if sha256_digest(new_data) == sha256_digest(old_data) {
            StatusView::OK(path)
        } else {
            StatusView::FileChanged(path)
        },
{
    lemma_decode_encode(sha256_digest(old_data));
}

/// A file scanned with the very contents it was last updated with is
/// reported unchanged.
pub proof fn lemma_unchanged_file_is_ok(path: Seq<char>, data: Seq<u8>)
    ensures
        scan_status(path, sha256_digest(data), Some(update_record(path, data))) == StatusView::OK(path),
{
    lemma_scan_after_update(path, data, data);
}

/// The SHA-256 strategy reports a file the store has no record of as new,
/// under the path it was asked about, whatever the file holds.
pub proof fn lemma_no_record_is_new(s: SHA256FileScanStrategy, path: Seq<char>, data: Seq<u8>)
    ensures
        s.status_spec(path, data, None) == StatusView::NewFile(path),
{
}

/// With a record, the SHA-256 strategy compares the digest of all of the
/// contents, whatever their length, with the bytes the stored hex stands
/// for: equal gives the stored path as unchanged, unequal as changed.
pub proof fn lemma_record_compares_whole_digest(
    s: SHA256FileScanStrategy,
    path: Seq<char>,
    data: Seq<u8>,
    record: FileView,
)
    ensures
        s.status_spec(path, data, Some(record)) == if sha256_digest(data) == hex_decoding(record.hash) {
            StatusView::OK(record.filepath)
        } else {
            StatusView::FileChanged(record.filepath)
        },
{
}

/// The record the SHA-256 strategy stores is the path with the lower-case
/// hex of the digest of all of the contents, whatever their length.
pub proof fn lemma_record_is_hex_of_whole_digest(s: SHA256FileScanStrategy, path: Seq<char>, data: Seq<u8>)
    ensures
        s.record_spec(path, data) == (FileView { filepath: path, hash: hex_encoding(sha256_digest(data)) }),
{
}

/// A scan after an update of the same path reports it unchanged exactly
/// when the digests of the old and the new contents agree, and changed
/// otherwise; the stored hash is always hex text a scan accepts.
pub proof fn lemma_strategy_scan_after_update(
    s: SHA256FileScanStrategy,
    path: Seq<char>,
    old_data: Seq<u8>,
    new_data: Seq<u8>,
)
    ensures
        is_hex_text(s.record_spec(path, old_data).hash),
        s.status_spec(path, new_data, Some(s.record_spec(path, old_data))) == if sha256_digest(new_data)
            == sha256_digest(old_data) {
            StatusView::OK(path)
        } else {
            StatusView::FileChanged(path)
        },
{
    lemma_decode_encode(sha256_digest(old_data));
}

} // verus!
