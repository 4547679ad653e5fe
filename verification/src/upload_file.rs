//! The identity of an upload's source file.
//!
//! A file is scanned once when its task is made. Later reads are checked block
//! by block against that scan, and before completion the whole content is
//! compared with it. Metadata is only a hint that something changed.

use vstd::prelude::*;
use vstd::slice::{slice_subrange, slice_to_vec};
use vstd::string::*;

use crate::digest;
use crate::digest::{
    md5_consume, md5_finalize, md5_new, same_digest, sha256_bytes, sha256_finalize, sha256_new,
    sha256_update, Sha256Hasher,
};
use crate::error;
use crate::error::{InnerErrorCode, IoErrorKind, IoFailure, MeowError};
use crate::part_window;
use crate::text;
use crate::text::push_decimal;

verus! {

/// The most bytes that are read and hashed at a time: 1 MiB.
pub const HASH_BUFFER_BYTES: usize = 1048576;

/// The most block digests that are kept of a file.
pub const MAX_UPLOAD_DIGEST_BLOCKS: u64 = 1000000;

/// How many blocks some content has.
pub open spec fn block_count(len: int, block: int) -> int {
    (len + block - 1) / block
}

/// Where a block ends.
pub open spec fn block_end(len: int, block: int, i: int) -> int {
    part_window::min_int((i + 1) * block, len)
}

/// The bytes of a block.
pub open spec fn block_of(content: Seq<u8>, block: int, i: int) -> Seq<u8> {
    content.subrange(i * block, block_end(content.len() as int, block, i))
}

/// The SHA-256 digests of all blocks of some content.
pub open spec fn block_digests(content: Seq<u8>, block: int) -> Seq<Seq<u8>> {
    Seq::new(
        block_count(content.len() as int, block) as nat,
        |i: int| digest::sha256_digest(block_of(content, block, i)),
    )
}

/// The values of a list of digests.
pub open spec fn digest_views(digests: Seq<[u8; 32]>) -> Seq<Seq<u8>> {
    Seq::new(digests.len(), |i: int| digests[i]@)
}

/// A local I/O failure with its text.
#[derive(Debug)]
pub struct ScanError {
    pub failure: IoFailure,
    pub text: String,
}

/// The digests of some content.
#[derive(Debug)]
pub struct ContentScan {
    pub protocol_md5: [u8; 16],
    pub sha256: [u8; 32],
    pub block_sha256: Vec<[u8; 32]>,
}

/// Whether a scan is the one of some content.
pub open spec fn is_scan_of(scan: ContentScan, content: Seq<u8>, block: int) -> bool {
    &&& scan.protocol_md5@ == digest::md5_digest(content)
    &&& scan.sha256@ == digest::sha256_digest(content)
    &&& digest_views(scan.block_sha256@) == block_digests(content, block)
}

/// Why a scan is refused before anything is read, if so.
pub open spec fn scan_refusal(len: u64, block: usize) -> Option<Seq<char>> {
    if block == 0 || block > HASH_BUFFER_BYTES {
        Some("upload verification block size is outside the supported range"@)
    } else if block_count(len as int, block as int) > MAX_UPLOAD_DIGEST_BLOCKS {
        Some(
            "upload requires "@ + text::decimal(block_count(len as int, block as int) as nat)
                + " digest blocks, exceeding limit "@ + text::decimal(
                MAX_UPLOAD_DIGEST_BLOCKS as nat,
            ),
        )
    } else {
        None
    }
}

/// Hashes content that is read piece by piece.
pub struct ContentScanner {
    len: u64,
    block: usize,
    md5: md5::Context,
    sha256: Sha256Hasher,
    block_hasher: Sha256Hasher,
    block_filled: usize,
    block_sha256: Vec<[u8; 32]>,
    read: u64,
    seen: Ghost<Seq<u8>>,
}

proof fn lemma_block_count(len: int, block: int)
    requires
        len >= 0,
        block >= 1,
    ensures
        block_count(len, block) >= 0,
        block_count(len, block) * block >= len,
        len > 0 ==> (block_count(len, block) - 1) * block < len,
        block_count(len, block) <= len,
{
    let n = len + block - 1;
    vstd::arithmetic::div_mod::lemma_fundamental_div_mod(n, block);
    vstd::arithmetic::div_mod::lemma_mod_bound(n, block);
    let q = n / block;
    assert(n == block * q + n % block);
    assert(q * block == block * q) by (nonlinear_arith);
    assert((q - 1) * block == q * block - block) by (nonlinear_arith);
    assert(q >= 0) by (nonlinear_arith)
        requires
            n >= 0,
            block >= 1,
            n == block * q + n % block,
            n % block < block,
    ;
    assert(q <= len) by (nonlinear_arith)
        requires
            len >= 0,
            block >= 1,
            block * q <= len + block - 1,
    ;
}

/// A number of whole blocks and a rest make this many blocks.
proof fn lemma_block_count_is(full: int, rest: int, block: int)
    requires
        full >= 0,
        block >= 1,
        0 <= rest < block,
    ensures
        block_count(full * block + rest, block) == if rest == 0 {
            full
        } else {
            full + 1
        },
{
    let n = full * block + rest + block - 1;
    if rest == 0 {
        vstd::arithmetic::div_mod::lemma_fundamental_div_mod_converse(n, block, full, block - 1);
    } else {
        assert((full + 1) * block == full * block + block) by (nonlinear_arith);
        vstd::arithmetic::div_mod::lemma_fundamental_div_mod_converse(
            n,
            block,
            full + 1,
            rest - 1,
        );
    }
}

impl ContentScanner {
    /// How many bytes the content has.
    pub closed spec fn spec_len(&self) -> u64 {
        self.len
    }

    pub closed spec fn spec_block(&self) -> int {
        self.block as int
    }

    /// The bytes hashed so far.
    pub closed spec fn spec_seen(&self) -> Seq<u8> {
        self.seen@
    }

    pub closed spec fn wf(&self) -> bool {
        let full = self.block_sha256@.len() as int;
        let block = self.block as int;
        &&& 1 <= self.block <= HASH_BUFFER_BYTES
        &&& self.read == self.seen@.len()
        &&& self.read <= self.len
        &&& self.block_filled < self.block
        &&& self.seen@.len() == full * block + self.block_filled
        &&& digest::md5_consumed(self.md5) == self.seen@
        &&& digest::sha256_consumed(self.sha256) == self.seen@
        &&& digest::sha256_consumed(self.block_hasher) == self.seen@.skip(full * block)
        &&& forall|i: int|
            0 <= i < full ==> (#[trigger] self.block_sha256@[i])@ == digest::sha256_digest(
                self.seen@.subrange(i * block, (i + 1) * block),
            )
    }

    /// Starts a scan of `len` bytes in blocks of `block` bytes.
    pub fn new(len: u64, block: usize) -> (result: Result<ContentScanner, ScanError>)
        ensures
            match scan_refusal(len, block) {
                Some(text) => {
                    &&& result is Err
                    &&& result->Err_0.failure == (IoFailure {
                        kind: IoErrorKind::InvalidInput,
                        raw_os_error: None,
                    })
                    &&& result->Err_0.text@ == text
                },
                None => {
                    &&& result is Ok
                    &&& result->Ok_0.wf()
                    &&& result->Ok_0.spec_len() == len
                    &&& result->Ok_0.spec_block() == block
                    &&& result->Ok_0.spec_seen() == Seq::<u8>::empty()
                },
            },
    {
        if block == 0 || block > HASH_BUFFER_BYTES {
            return Err(
                ScanError {
                    failure: IoFailure::new(IoErrorKind::InvalidInput),
                    text: "upload verification block size is outside the supported range".to_owned(),
                },
            );
        }
        let blocks: u128 = (len as u128 + block as u128 - 1) / block as u128;
        if blocks > MAX_UPLOAD_DIGEST_BLOCKS as u128 {
            let mut text = "upload requires ".to_owned();
            push_decimal(&mut text, blocks);
            text.append(" digest blocks, exceeding limit ");
            push_decimal(&mut text, MAX_UPLOAD_DIGEST_BLOCKS as u128);
            return Err(
                ScanError { failure: IoFailure::new(IoErrorKind::InvalidInput), text },
            );
        }
        let scanner = ContentScanner {
            len,
            block,
            md5: md5_new(),
            sha256: sha256_new(),
            block_hasher: sha256_new(),
            block_filled: 0,
            block_sha256: Vec::new(),
            read: 0,
            seen: Ghost(Seq::empty()),
        };
        proof {
            assert(digest::md5_consumed(scanner.md5) =~= Seq::empty());
            assert(digest::sha256_consumed(scanner.sha256) =~= Seq::empty());
            assert(digest::sha256_consumed(scanner.block_hasher) =~= Seq::empty());
            assert(0 * scanner.block as int == 0);
            assert(scanner.seen@.skip(0) =~= Seq::empty());
        }
        Ok(scanner)
    }

    /// How many bytes to read next; zero when all were read.
    pub fn want(&self) -> (bytes: usize)
        requires
            self.wf(),
        ensures
            bytes == part_window::min_int(
                self.spec_len() - self.spec_seen().len(),
                HASH_BUFFER_BYTES as int,
            ),
    {
        let remaining: u64 = self.len - self.read;
        if remaining <= HASH_BUFFER_BYTES as u64 {
            remaining as usize
        } else {
            HASH_BUFFER_BYTES
        }
    }

    /// Where to read next.
    pub fn offset(&self) -> (offset: u64)
        requires
            self.wf(),
        ensures
            offset == self.spec_seen().len(),
    {
        self.read
    }

    /// Takes in the next bytes of the content.
    pub fn update(&mut self, bytes: &[u8])
        requires
            old(self).wf(),
            old(self).spec_seen().len() + bytes@.len() <= old(self).spec_len(),
        ensures
            final(self).wf(),
            final(self).spec_len() == old(self).spec_len(),
            final(self).spec_block() == old(self).spec_block(),
            final(self).spec_seen() == old(self).spec_seen() + bytes@,
    {
        let ghost seen0 = self.seen@;
        md5_consume(&mut self.md5, bytes);
        sha256_update(&mut self.sha256, bytes);
        let mut cursor: usize = 0;
        assert(bytes@.take(0) =~= Seq::empty());
        assert(seen0 + bytes@.take(0) =~= seen0);
        while cursor < bytes.len()
            invariant
                cursor <= bytes@.len(),
                self.len == old(self).len,
                self.block == old(self).block,
                self.read == old(self).read,
                1 <= self.block <= HASH_BUFFER_BYTES,
                self.block_filled < self.block,
                self.seen@ == seen0 + bytes@.take(cursor as int),
                self.seen@.len() == self.block_sha256@.len() * self.block + self.block_filled,
                digest::md5_consumed(self.md5) == seen0 + bytes@,
                digest::sha256_consumed(self.sha256) == seen0 + bytes@,
                digest::sha256_consumed(self.block_hasher) == self.seen@.skip(
                    self.block_sha256@.len() * self.block as int,
                ),
                forall|i: int|
                    0 <= i < self.block_sha256@.len() ==> (#[trigger] self.block_sha256@[i])@
                        == digest::sha256_digest(
                        self.seen@.subrange(i * self.block as int, (i + 1) * self.block as int),
                    ),
            decreases bytes@.len() - cursor,
        {
            let room: usize = self.block - self.block_filled;
            let left: usize = bytes.len() - cursor;
            let take: usize = if room <= left {
                room
            } else {
                left
            };
            let piece = slice_subrange(bytes, cursor, cursor + take);
            let ghost seen1 = self.seen@;
            let ghost full = self.block_sha256@.len() as int;
            let ghost block = self.block as int;
            sha256_update(&mut self.block_hasher, piece);
            self.block_filled = self.block_filled + take;
            cursor = cursor + take;
            self.seen = Ghost(seen1 + piece@);
            proof {
                assert(self.seen@ =~= seen0 + bytes@.take(cursor as int));
                assert(full * block >= 0) by (nonlinear_arith)
                    requires
                        full >= 0,
                        block >= 1,
                ;
                assert(seen1.skip(full * block) + piece@ =~= self.seen@.skip(full * block));
                assert forall|i: int| 0 <= i < full implies (#[trigger] self.block_sha256@[i])@
                    == digest::sha256_digest(
                    self.seen@.subrange(i * block, (i + 1) * block),
                ) by {
                    assert((i + 1) * block <= full * block) by (nonlinear_arith)
                        requires
                            i + 1 <= full,
                            block >= 1,
                    ;
                    assert(0 <= i * block <= (i + 1) * block) by (nonlinear_arith)
                        requires
                            i >= 0,
                            block >= 1,
                    ;
                    assert(self.seen@.subrange(i * block, (i + 1) * block) =~= seen1.subrange(
                        i * block,
                        (i + 1) * block,
                    ));
                }
            }
            if self.block_filled == self.block {
                let mut hasher = sha256_new();
                std::mem::swap(&mut hasher, &mut self.block_hasher);
                let ghost list = self.block_sha256@;
                self.block_sha256.push(sha256_finalize(hasher));
                self.block_filled = 0;
                proof {
                    assert((full + 1) * block == full * block + block) by (nonlinear_arith);
                    assert(self.seen@.skip(full * block) =~= self.seen@.subrange(
                        full * block,
                        (full + 1) * block,
                    ));
                    assert(digest::sha256_consumed(self.block_hasher) =~= self.seen@.skip(
                        (full + 1) * block,
                    ));
                    assert forall|i: int| 0 <= i < full + 1 implies (
                    #[trigger] self.block_sha256@[i])@ == digest::sha256_digest(
                        self.seen@.subrange(i * block, (i + 1) * block),
                    ) by {
                        if i < full {
                            assert(self.block_sha256@[i] == list[i]);
                        }
                    }
                }
            }
        }
        self.read = self.read + bytes.len() as u64;
        assert(bytes@.take(bytes@.len() as int) =~= bytes@);
    }

    /// The digests, when everything was read.
    pub fn finish(self) -> (scan: ContentScan)
        requires
            self.wf(),
            self.spec_seen().len() == self.spec_len(),
        ensures
            is_scan_of(scan, self.spec_seen(), self.spec_block()),
    {
        let mut block_sha256 = self.block_sha256;
        let ghost list = block_sha256@;
        let ghost full = list.len() as int;
        let ghost block = self.block as int;
        let ghost content = self.seen@;
        proof {
            lemma_block_count_is(full, self.block_filled as int, block);
        }
        if self.block_filled != 0 {
            block_sha256.push(sha256_finalize(self.block_hasher));
        }
        let scan = ContentScan {
            protocol_md5: md5_finalize(self.md5),
            sha256: sha256_finalize(self.sha256),
            block_sha256,
        };
        proof {
            assert forall|i: int| 0 <= i < scan.block_sha256@.len() implies (
            #[trigger] scan.block_sha256@[i])@ == digest::sha256_digest(
                block_of(content, block, i),
            ) by {
                if i < full {
                    assert(scan.block_sha256@[i] == list[i]);
                    assert((i + 1) * block <= full * block) by (nonlinear_arith)
                        requires
                            i + 1 <= full,
                            block >= 1,
                    ;
                } else {
                    assert((full + 1) * block == full * block + block) by (nonlinear_arith);
                    assert(content.skip(full * block) =~= block_of(content, block, i));
                }
            }
            assert(digest_views(scan.block_sha256@) =~= block_digests(content, block));
        }
        scan
    }
}

// ---------------------------------------------------------------------------
// Identity
// ---------------------------------------------------------------------------

/// What metadata says of a file at one moment.
#[derive(Debug, Clone, Copy, PartialEq, Eq, Structural)]
pub struct FileGeneration {
    pub len: u64,
    pub readonly: bool,
    /// Modification time, in nanoseconds.
    pub modified: Option<i128>,
    /// Creation time, in nanoseconds.
    pub created: Option<i128>,
    pub dev: u64,
    pub ino: u64,
    pub mtime_nsec: i64,
    pub ctime: i64,
    pub ctime_nsec: i64,
}

/// Whether the visible path has to be opened and hashed: always before
/// completion; otherwise where its metadata is neither that of the open file
/// nor one that was accepted before.
pub fn visible_path_requires_hash(
    verify_content: bool,
    path_generation: &FileGeneration,
    handle_generation: &FileGeneration,
    accepted_path: Option<FileGeneration>,
) -> (requires_hash: bool)
    ensures
        requires_hash == (verify_content || (*path_generation != *handle_generation && accepted_path
            != Some(*path_generation))),
{
    verify_content || (!(*path_generation == *handle_generation) && match accepted_path {
        Some(accepted) => !(accepted == *path_generation),
        None => true,
    })
}

/// What makes two files the same: their SHA-256 digests, as a whole and block
/// by block.
#[derive(Debug)]
pub struct ContentIdentity {
    pub sha256: [u8; 32],
    pub verification_block_bytes: usize,
    pub block_sha256: Vec<[u8; 32]>,
}

fn same_digests(a: &Vec<[u8; 32]>, b: &Vec<[u8; 32]>) -> (same: bool)
    ensures
        same == (digest_views(a@) == digest_views(b@)),
{
    if a.len() != b.len() {
        assert(digest_views(a@).len() != digest_views(b@).len());
        return false;
    }
    let mut i: usize = 0;
    while i < a.len()
        invariant
            a@.len() == b@.len(),
            i <= a@.len(),
            forall|j: int| 0 <= j < i ==> (#[trigger] a@[j])@ == b@[j]@,
        decreases a@.len() - i,
    {
        if !same_digest(&a[i], &b[i]) {
            assert(digest_views(a@)[i as int] != digest_views(b@)[i as int]);
            return false;
        }
        i += 1;
    }
    assert(digest_views(a@) =~= digest_views(b@));
    true
}

impl ContentIdentity {
    /// Whether the identity was taken from this content.
    pub open spec fn identifies(self, content: Seq<u8>) -> bool {
        &&& self.verification_block_bytes >= 1
        &&& self.sha256@ == digest::sha256_digest(content)
        &&& digest_views(self.block_sha256@) == block_digests(
            content,
            self.verification_block_bytes as int,
        )
    }

    pub open spec fn spec_matches(self, scan: ContentScan) -> bool {
        self.sha256@ == scan.sha256@ && digest_views(self.block_sha256@) == digest_views(
            scan.block_sha256@,
        )
    }

    /// Whether a scan found the same content.
    pub fn matches(&self, scan: &ContentScan) -> (matches: bool)
        ensures
            matches == self.spec_matches(*scan),
    {
        same_digest(&self.sha256, &scan.sha256) && same_digests(
            &self.block_sha256,
            &scan.block_sha256,
        )
    }
}

/// A replacement with identical bytes passes every content check: the identity
/// of some content matches every scan of equal content.
pub proof fn law_identical_content_matches(
    identity: ContentIdentity,
    content: Seq<u8>,
    scan: ContentScan,
)
    requires
        identity.identifies(content),
        is_scan_of(scan, content, identity.verification_block_bytes as int),
    ensures
        identity.spec_matches(scan),
{
}

/// Content that matches an identity has the same SHA-256 digest, as a whole
/// and in every block, as the content that it was taken from.
pub proof fn law_match_means_equal_digests(
    identity: ContentIdentity,
    original: Seq<u8>,
    other: Seq<u8>,
    scan: ContentScan,
)
    requires
        identity.identifies(original),
        is_scan_of(scan, other, identity.verification_block_bytes as int),
        identity.spec_matches(scan),
    ensures
        digest::sha256_digest(other) == digest::sha256_digest(original),
        block_digests(other, identity.verification_block_bytes as int) == block_digests(
            original,
            identity.verification_block_bytes as int,
        ),
{
}

/// The text of the failure of a source that changed in length, type or place.
pub open spec fn source_changed_text(path: Seq<char>, detail: Seq<char>) -> Seq<char> {
    "upload source changed: path="@ + path + " ("@ + detail + ")"@
}

/// The text of the failure of a source that changed in content.
pub open spec fn content_changed_text(path: Seq<char>, detail: Seq<char>) -> Seq<char> {
    "upload source content changed: path="@ + path + " ("@ + detail + ")"@
}

pub fn source_changed_error(path: &str, detail: &str) -> (e: MeowError)
    ensures
        error::is_error(
            e,
            InnerErrorCode::LocalFileRemoved,
            source_changed_text(path@, detail@),
        ),
{
    let mut text = "upload source changed: path=".to_owned();
    text.append(path);
    text.append(" (");
    text.append(detail);
    text.append(")");
    MeowError::from_code(InnerErrorCode::LocalFileRemoved, text)
}

pub fn content_changed_error(path: &str, detail: &str) -> (e: MeowError)
    ensures
        error::is_error(
            e,
            InnerErrorCode::ChecksumMismatch,
            content_changed_text(path@, detail@),
        ),
{
    let mut text = "upload source content changed: path=".to_owned();
    text.append(path);
    text.append(" (");
    text.append(detail);
    text.append(")");
    MeowError::from_code(InnerErrorCode::ChecksumMismatch, text)
}

/// The error of a failed read of the source: an early end means that the file
/// was shortened.
pub open spec fn is_source_io_error(
    e: MeowError,
    path: Seq<char>,
    context: Seq<char>,
    failure: IoFailure,
) -> bool {
    if failure.kind == IoErrorKind::UnexpectedEof {
        error::is_error(
            e,
            InnerErrorCode::LocalFileRemoved,
            source_changed_text(path, "source truncated during I/O: "@ + context),
        )
    } else {
        error::is_error(e, failure.spec_code(), context)
    }
}

pub fn map_source_io_error(path: &str, context: String, failure: &IoFailure) -> (e: MeowError)
    ensures
        is_source_io_error(e, path@, context@, *failure),
{
    match failure.kind {
        IoErrorKind::UnexpectedEof => {
            let mut detail = "source truncated during I/O: ".to_owned();
            detail.append(context.as_str());
            source_changed_error(path, detail.as_str())
        },
        _ => MeowError::from_io(context, failure),
    }
}

// ---------------------------------------------------------------------------
// Verified reads
// ---------------------------------------------------------------------------

/// What a snapshot remembers while its file is open.
#[derive(Debug, Clone, Copy, PartialEq, Eq, Structural)]
pub struct UploadFileState {
    pub open: bool,
    /// Metadata of the open file with which its content was last checked.
    pub accepted_handle_generation: Option<FileGeneration>,
    /// Metadata of the visible path with which its content was last checked.
    pub accepted_path_generation: Option<FileGeneration>,
}

/// The scanned source of an upload.
#[derive(Debug)]
pub struct UploadFileSnapshot {
    /// The path as shown in messages.
    pub path: String,
    pub generation: FileGeneration,
    /// The upload signature of the content.
    pub sign: String,
    pub content: ContentIdentity,
    pub state: UploadFileState,
}

impl UploadFileSnapshot {
    pub open spec fn block(self) -> int {
        self.content.verification_block_bytes as int
    }

    pub open spec fn wf(self) -> bool {
        self.content.verification_block_bytes >= 1
    }

    pub fn sign(&self) -> (sign: &str)
        ensures
            sign@ == self.sign@,
    {
        self.sign.as_str()
    }

    /// The bytes that checking one part takes in addition to the part itself.
    pub fn verification_scratch_bytes(&self) -> (bytes: u64)
        ensures
            bytes == self.content.verification_block_bytes,
    {
        self.content.verification_block_bytes as u64
    }

    /// A source that grew since its task was made is refused: every read would
    /// succeed and only a prefix be sent. One that shrank fails at its first
    /// short read.
    pub fn validate_total_size(&self, expected_len: u64) -> (result: Result<(), MeowError>)
        ensures
            result is Ok <==> self.generation.len <= expected_len,
            result is Err ==> error::fails_with(
                result,
                InnerErrorCode::LocalFileRemoved,
                source_changed_text(
                    self.path@,
                    "source grew since task construction: expected="@ + text::decimal(
                        expected_len as nat,
                    ) + " actual="@ + text::decimal(self.generation.len as nat),
                ),
            ),
    {
        if self.generation.len > expected_len {
            let mut detail = "source grew since task construction: expected=".to_owned();
            push_decimal(&mut detail, expected_len as u128);
            detail.append(" actual=");
            push_decimal(&mut detail, self.generation.len as u128);
            return Err(source_changed_error(self.path.as_str(), detail.as_str()));
        }
        Ok(())
    }

    /// A chunk has to fit in the memory of this machine.
    pub fn validate_chunk_size(chunk_size: u64) -> (result: Result<usize, MeowError>)
        ensures
            result is Ok <==> chunk_size <= usize::MAX,
            result is Ok ==> result->Ok_0 == chunk_size,
            result is Err ==> error::fails_with(
                result,
                InnerErrorCode::IoError,
                "upload chunk size does not fit this target architecture"@,
            ),
    {
        if chunk_size > usize::MAX as u64 {
            return Err(
                MeowError::from_code_str(
                    InnerErrorCode::IoError,
                    "upload chunk size does not fit this target architecture",
                ),
            );
        }
        Ok(chunk_size as usize)
    }

    /// How many bytes of the source are read to hand out a range: the blocks
    /// that it touches.
    pub fn verification_read_bytes(&self, offset: u64, len: u64) -> (result: Result<
        u64,
        MeowError,
    >)
        requires
            self.wf(),
        ensures
            offset + len > u64::MAX ==> error::fails_with(
                result,
                InnerErrorCode::InvalidRange,
                "upload read range overflow"@,
            ),
            self.generation.len < offset + len <= u64::MAX ==> error::fails_with(
                result,
                InnerErrorCode::InvalidRange,
                "upload read exceeds source snapshot"@,
            ),
            offset + len <= self.generation.len ==> result is Ok && result->Ok_0 == if len == 0 {
                0
            } else {
                part_window::min_int(
                    ((offset + len - 1) / self.block() + 1) * self.block(),
                    self.generation.len as int,
                ) - (offset as int / self.block()) * self.block()
            },
    {
        let end: u64 = match offset.checked_add(len) {
            Some(end) => end,
            None => {
                return Err(
                    MeowError::from_code_str(
                        InnerErrorCode::InvalidRange,
                        "upload read range overflow",
                    ),
                );
            },
        };
        if end > self.generation.len {
            return Err(
                MeowError::from_code_str(
                    InnerErrorCode::InvalidRange,
                    "upload read exceeds source snapshot",
                ),
            );
        }
        if len == 0 {
            return Ok(0);
        }
        let block: u128 = self.content.verification_block_bytes as u128;
        proof {
            let b = block as int;
            vstd::arithmetic::div_mod::lemma_fundamental_div_mod(offset as int, b);
            vstd::arithmetic::div_mod::lemma_fundamental_div_mod(end - 1, b);
            vstd::arithmetic::div_mod::lemma_mod_bound(offset as int, b);
            vstd::arithmetic::div_mod::lemma_mod_bound(end - 1, b);
            let p = offset as int / b;
            let q = (end - 1) / b;
            assert(b * p == p * b) by (nonlinear_arith);
            assert(b * q == q * b) by (nonlinear_arith);
            assert((q + 1) * b == q * b + b) by (nonlinear_arith);
            assert(p >= 0 && q >= 0) by (nonlinear_arith)
                requires
                    b >= 1,
                    offset as int == b * p + (offset as int) % b,
                    end - 1 == b * q + (end - 1) % b,
                    (offset as int) % b < b,
                    (end - 1) % b < b,
                    offset >= 0,
                    end >= 1,
            ;
        }
        let first: u128 = (offset as u128 / block) * block;
        let last: u128 = ((end as u128 - 1) / block + 1) * block;
        let covered: u128 = if last <= self.generation.len as u128 {
            last
        } else {
            self.generation.len as u128
        };
        Ok((covered - first) as u64)
    }

    /// Starts to read a range of the source; see [`VerifiedRead`]. A range
    /// beyond the scanned content is refused, and so is one that does not fit
    /// in memory.
    pub fn begin_read(&self, offset: u64, len: u64) -> (result: Result<VerifiedRead<'_>, MeowError>)
        requires
            self.wf(),
        ensures
            offset + len > u64::MAX ==> error::fails_with(
                result,
                InnerErrorCode::InvalidRange,
                "upload read range overflow"@,
            ),
            self.generation.len < offset + len <= u64::MAX ==> error::fails_with(
                result,
                InnerErrorCode::LocalFileRemoved,
                source_changed_text(
                    self.path@,
                    "upload read exceeds hashed source generation: offset="@ + text::decimal(
                        offset as nat,
                    ) + " len="@ + text::decimal(len as nat) + " total="@ + text::decimal(
                        self.generation.len as nat,
                    ),
                ),
            ),
            offset + len <= self.generation.len && len > usize::MAX ==> error::fails_with(
                result,
                InnerErrorCode::IoError,
                "upload read length does not fit this target architecture"@,
            ),
            offset + len <= self.generation.len && len <= usize::MAX ==> {
                &&& result is Ok
                &&& result->Ok_0.wf()
                &&& result->Ok_0.source() == *self
                &&& result->Ok_0.range() == (offset, (offset + len) as u64)
                &&& result->Ok_0.supplied() == Seq::<u8>::empty()
            },
    {
        let end: u64 = match offset.checked_add(len) {
            Some(end) => end,
            None => {
                return Err(
                    MeowError::from_code_str(
                        InnerErrorCode::InvalidRange,
                        "upload read range overflow",
                    ),
                );
            },
        };
        if end > self.generation.len {
            let mut detail = "upload read exceeds hashed source generation: offset=".to_owned();
            push_decimal(&mut detail, offset as u128);
            detail.append(" len=");
            push_decimal(&mut detail, len as u128);
            detail.append(" total=");
            push_decimal(&mut detail, self.generation.len as u128);
            return Err(source_changed_error(self.path.as_str(), detail.as_str()));
        }
        if len > usize::MAX as u64 {
            return Err(
                MeowError::from_code_str(
                    InnerErrorCode::IoError,
                    "upload read length does not fit this target architecture",
                ),
            );
        }
        let block: u64 = self.content.verification_block_bytes as u64;
        let read = VerifiedRead {
            snapshot: self,
            offset,
            end,
            next_block: offset / block,
            output: Vec::new(),
            supplied: Ghost(Seq::empty()),
        };
        proof {
            lemma_block_of_offset(offset as int, block as int);
            assert(read.output@ =~= Seq::empty());
        }
        Ok(read)
    }
}

/// The block in which an offset lies.
proof fn lemma_block_of_offset(offset: int, block: int)
    requires
        offset >= 0,
        block >= 1,
    ensures
        offset / block >= 0,
        (offset / block) * block <= offset < (offset / block + 1) * block,
        (offset / block + 1) * block == (offset / block) * block + block,
{
    vstd::arithmetic::div_mod::lemma_fundamental_div_mod(offset, block);
    vstd::arithmetic::div_mod::lemma_mod_bound(offset, block);
    let q = offset / block;
    assert(block * q == q * block) by (nonlinear_arith);
    assert((q + 1) * block == q * block + block) by (nonlinear_arith);
    assert(q >= 0) by (nonlinear_arith)
        requires
            offset >= 0,
            block >= 1,
            offset == block * q + offset % block,
            offset % block < block,
    ;
}

/// A read of a range that is checked against the scanned content: whole blocks
/// come in, each is compared with its digest, and the range is cut out.
pub struct VerifiedRead<'a> {
    snapshot: &'a UploadFileSnapshot,
    offset: u64,
    end: u64,
    next_block: u64,
    output: Vec<u8>,
    supplied: Ghost<Seq<u8>>,
}

/// Whether the digest of a block that came in is the one of the scan.
pub open spec fn block_verified(
    identity: ContentIdentity,
    i: int,
    bytes: Seq<u8>,
) -> bool {
    0 <= i < identity.block_sha256@.len() && identity.block_sha256@[i]@ == digest::sha256_digest(
        bytes,
    )
}

impl<'a> VerifiedRead<'a> {
    /// The source that is read.
    pub closed spec fn source(self) -> UploadFileSnapshot {
        *self.snapshot
    }

    /// The range that is read: its first byte and the one behind its last.
    pub closed spec fn range(self) -> (u64, u64) {
        (self.offset, self.end)
    }

    /// The bytes that came in so far, from the start of the first block on.
    pub closed spec fn supplied(self) -> Seq<u8> {
        self.supplied@
    }

    /// The index of the next block to read.
    pub closed spec fn at_block(self) -> int {
        self.next_block as int
    }

    /// The index of the first block of the range.
    pub open spec fn first_block(self) -> int {
        self.range().0 as int / self.source().block()
    }

    /// Where the first block of the range starts.
    pub open spec fn base(self) -> int {
        self.first_block() * self.source().block()
    }

    pub closed spec fn wf(self) -> bool {
        let b = self.source().block();
        let total = self.source().generation.len as int;
        let base = self.base();
        let covered = part_window::min_int(self.next_block * b, total);
        &&& b >= 1
        &&& self.offset <= self.end <= total
        &&& self.end - self.offset <= usize::MAX
        &&& self.first_block() <= self.next_block
        &&& self.offset == self.end ==> self.next_block == self.first_block()
        &&& self.next_block == self.first_block() ==> self.supplied@.len() == 0
        &&& self.next_block > self.first_block() ==> self.supplied@.len() == covered - base
            && self.next_block * b < self.end + b
        &&& self.output@ == if self.supplied@.len() == 0 {
            Seq::empty()
        } else {
            self.supplied@.subrange(
                self.offset - base,
                part_window::min_int(self.end as int, covered) - base,
            )
        }
        &&& forall|i: int|
            self.first_block() <= i < self.next_block ==> #[trigger] block_verified(
                self.source().content,
                i,
                self.supplied@.subrange(
                    i * b - base,
                    part_window::min_int((i + 1) * b, total) - base,
                ),
            )
    }

    /// Whether another block is needed.
    pub open spec fn needs_block(self) -> bool {
        self.range().0 < self.range().1 && self.at_block() * self.source().block() < self.range().1
    }

    /// The next block to read, by its offset and length; `None` when the range
    /// is complete.
    pub fn next_block(&self) -> (block: Option<(u64, usize)>)
        requires
            self.wf(),
        ensures
            block is Some == self.needs_block(),
            block matches Some((start, len)) ==> start == self.at_block() * self.source().block()
                && len == part_window::min_int(
                self.source().block(),
                self.source().generation.len - start,
            ) && len > 0,
    {
        let b: u128 = self.snapshot.content.verification_block_bytes as u128;
        assert(self.next_block as int * b as int <= u64::MAX * u64::MAX) by (nonlinear_arith)
            requires
                self.next_block <= u64::MAX,
                0 <= b <= u64::MAX,
        ;
        assert(self.next_block as int * b as int >= 0) by (nonlinear_arith)
            requires
                self.next_block >= 0,
                b >= 0,
        ;
        let start: u128 = self.next_block as u128 * b;
        if self.offset >= self.end || start >= self.end as u128 {
            return None;
        }
        let left: u128 = self.snapshot.generation.len as u128 - start;
        let len: u128 = if b <= left {
            b
        } else {
            left
        };
        Some((start as u64, len as usize))
    }

    /// Takes in the next block: it is compared with its digest, and what lies
    /// in the range is kept.
    pub fn on_block(&mut self, bytes: &[u8]) -> (result: Result<(), MeowError>)
        requires
            old(self).wf(),
            old(self).needs_block(),
            bytes@.len() == part_window::min_int(
                old(self).source().block(),
                old(self).source().generation.len - old(self).at_block()
                    * old(self).source().block(),
            ),
        ensures
            final(self).wf(),
            final(self).source() == old(self).source(),
            final(self).range() == old(self).range(),
            result is Ok <==> block_verified(
                old(self).source().content,
                old(self).at_block(),
                bytes@,
            ),
            result is Ok ==> final(self).supplied() == old(self).supplied() + bytes@
                && final(self).at_block() == old(self).at_block() + 1,
            result is Err ==> final(self).supplied() == old(self).supplied()
                && final(self).at_block() == old(self).at_block(),
            result is Err ==> if old(self).at_block()
                >= old(self).source().content.block_sha256@.len() {
                error::fails_with(
                    result,
                    InnerErrorCode::InvalidTaskState,
                    "upload content identity is missing a digest block"@,
                )
            } else {
                error::fails_with(
                    result,
                    InnerErrorCode::ChecksumMismatch,
                    content_changed_text(
                        old(self).source().path@,
                        "positioned read no longer matches digest block "@ + text::decimal(
                            old(self).at_block() as nat,
                        ),
                    ),
                )
            },
    {
        let ghost before = *self;
        let ghost b = self.source().block();
        let ghost total = self.source().generation.len as int;
        let ghost i = self.next_block as int;
        let ghost base = self.base();
        proof {
            lemma_block_of_offset(self.offset as int, b);
            assert((i + 1) * b == i * b + b) by (nonlinear_arith);
            assert(i * b >= self.first_block() * b) by (nonlinear_arith)
                requires
                    i >= self.first_block(),
                    b >= 1,
            ;
        }
        let actual = sha256_bytes(bytes);
        if self.next_block >= self.snapshot.content.block_sha256.len() as u64 {
            return Err(
                MeowError::from_code_str(
                    InnerErrorCode::InvalidTaskState,
                    "upload content identity is missing a digest block",
                ),
            );
        }
        if !same_digest(
            &self.snapshot.content.block_sha256[self.next_block as usize],
            &actual,
        ) {
            let mut detail = "positioned read no longer matches digest block ".to_owned();
            push_decimal(&mut detail, self.next_block as u128);
            return Err(content_changed_error(self.snapshot.path.as_str(), detail.as_str()));
        }
        assert(0 <= i * b < self.end);
        assert(self.snapshot.content.verification_block_bytes == b);
        let block_start: u64 = self.next_block * self.snapshot.content.verification_block_bytes as u64;
        let block_end: u64 = block_start + bytes.len() as u64;
        let copy_start: usize = if self.offset > block_start {
            proof {
                if i > self.first_block() {
                    assert(i * b >= (self.first_block() + 1) * b) by (nonlinear_arith)
                        requires
                            i >= self.first_block() + 1,
                            b >= 1,
                    ;
                }
            }
            (self.offset - block_start) as usize
        } else {
            0
        };
        let copy_end: usize = if self.end < block_end {
            (self.end - block_start) as usize
        } else {
            bytes.len()
        };
        let mut part = slice_to_vec(slice_subrange(bytes, copy_start, copy_end));
        let ghost kept = self.output@;
        self.output.append(&mut part);
        self.next_block = self.next_block + 1;
        self.supplied = Ghost(before.supplied@ + bytes@);
        proof {
            if i > before.first_block() {
                assert(i * b >= (before.first_block() + 1) * b) by (nonlinear_arith)
                    requires
                        i >= before.first_block() + 1,
                        b >= 1,
                ;
                assert(before.supplied@.len() == i * b - base);
            }
            let covered = part_window::min_int((i + 1) * b, total);
            assert(self.supplied@.len() == covered - base);
            assert(self.output@ =~= self.supplied@.subrange(
                self.offset - base,
                part_window::min_int(self.end as int, covered) - base,
            ));
            assert forall|j: int|
                self.first_block() <= j < self.next_block implies #[trigger] block_verified(
                self.source().content,
                j,
                self.supplied@.subrange(
                    j * b - base,
                    part_window::min_int((j + 1) * b, total) - base,
                ),
            ) by {
                let piece = self.supplied@.subrange(
                    j * b - base,
                    part_window::min_int((j + 1) * b, total) - base,
                );
                if j < i {
                    assert((j + 1) * b <= i * b) by (nonlinear_arith)
                        requires
                            j + 1 <= i,
                            b >= 1,
                    ;
                    assert(j * b >= before.first_block() * b) by (nonlinear_arith)
                        requires
                            j >= before.first_block(),
                            b >= 1,
                    ;
                    assert((j + 1) * b == j * b + b) by (nonlinear_arith);
                    let earlier = before.supplied@.subrange(
                        j * b - base,
                        part_window::min_int((j + 1) * b, total) - base,
                    );
                    assert(block_verified(before.source().content, j, earlier));
                    assert(piece =~= earlier);
                } else {
                    assert(piece =~= bytes@);
                }
            }
        }
        Ok(())
    }

    /// The error of a block that could not be read.
    pub fn read_failed(&self, failure: &IoFailure) -> (e: MeowError)
        requires
            self.wf(),
        ensures
            is_source_io_error(
                e,
                self.source().path@,
                "positioned upload read failed: path="@ + self.source().path@ + " offset="@
                    + text::decimal(self.range().0 as nat) + " len="@ + text::decimal(
                    (self.range().1 - self.range().0) as nat,
                ),
                *failure,
            ),
    {
        let mut context = "positioned upload read failed: path=".to_owned();
        context.append(self.snapshot.path.as_str());
        context.append(" offset=");
        push_decimal(&mut context, self.offset as u128);
        context.append(" len=");
        push_decimal(&mut context, (self.end - self.offset) as u128);
        map_source_io_error(self.snapshot.path.as_str(), context, failure)
    }

    /// The bytes of the range, when no further block is needed. Every block
    /// that they were cut from had the digest of the scan.
    pub fn finish(self) -> (bytes: Vec<u8>)
        requires
            self.wf(),
            !self.needs_block(),
        ensures
            bytes@.len() == self.range().1 - self.range().0,
            bytes@.len() > 0 ==> bytes@ == self.supplied().subrange(
                self.range().0 - self.base(),
                self.range().1 - self.base(),
            ),
            forall|i: int|
                self.first_block() <= i < self.at_block() ==> #[trigger] block_verified(
                    self.source().content,
                    i,
                    self.supplied().subrange(
                        i * self.source().block() - self.base(),
                        block_end(
                            self.source().generation.len as int,
                            self.source().block(),
                            i,
                        ) - self.base(),
                    ),
                ),
    {
        proof {
            lemma_block_of_offset(self.offset as int, self.source().block());
        }
        self.output
    }
}

/// A read hands out what the source holds: where the blocks that came in are
/// those of some content, the bytes of the range are those of that content.
pub proof fn law_verified_read_returns_the_range(read: VerifiedRead<'_>, content: Seq<u8>)
    requires
        read.range().0 < read.range().1 <= content.len(),
        read.base() + read.supplied().len() <= content.len(),
        read.range().1 <= read.base() + read.supplied().len(),
        read.source().wf(),
        read.supplied() == content.subrange(
            read.base(),
            read.base() + read.supplied().len(),
        ),
    ensures
        read.supplied().subrange(read.range().0 - read.base(), read.range().1 - read.base())
            == content.subrange(read.range().0 as int, read.range().1 as int),
{
    lemma_block_of_offset(read.range().0 as int, read.source().block());
    assert(read.supplied().subrange(
        read.range().0 - read.base(),
        read.range().1 - read.base(),
    ) =~= content.subrange(read.range().0 as int, read.range().1 as int));
}

/// Every block of unchanged content passes the check of a read.
pub proof fn law_unchanged_blocks_are_accepted(
    identity: ContentIdentity,
    content: Seq<u8>,
    i: int,
)
    requires
        identity.identifies(content),
        0 <= i,
        i * identity.verification_block_bytes < content.len(),
    ensures
        block_verified(
            identity,
            i,
            block_of(content, identity.verification_block_bytes as int, i),
        ),
{
    let b = identity.verification_block_bytes as int;
    let n = block_count(content.len() as int, b);
    lemma_block_count(content.len() as int, b);
    assert(i < n) by (nonlinear_arith)
        requires
            i * b < content.len(),
            n * b >= content.len(),
            b >= 1,
    ;
    assert(digest_views(identity.block_sha256@).len() == n);
    assert(digest_views(identity.block_sha256@)[i] == block_digests(content, b)[i]);
}

/// A read of a given number of bytes at a given place, which may take several
/// reads of the file.
#[derive(Debug)]
pub struct PositionedRead {
    offset: u64,
    len: usize,
    filled: usize,
}

impl PositionedRead {
    /// Where the read starts.
    pub closed spec fn spec_offset(self) -> int {
        self.offset as int
    }

    /// How many bytes it takes in all.
    pub closed spec fn spec_len(self) -> int {
        self.len as int
    }

    /// How many bytes came so far.
    pub closed spec fn spec_filled(self) -> int {
        self.filled as int
    }

    pub open spec fn wf(self) -> bool {
        0 <= self.spec_filled() <= self.spec_len()
    }

    pub fn new(offset: u64, len: usize) -> (read: PositionedRead)
        ensures
            read.wf(),
            read.spec_offset() == offset,
            read.spec_len() == len,
            read.spec_filled() == 0,
    {
        PositionedRead { offset, len, filled: 0 }
    }

    /// Where to read next, and how many bytes came already; `None` when all
    /// came. An offset beyond what a file can have is an invalid input.
    pub fn next(&self) -> (next: Result<Option<(u64, usize)>, IoFailure>)
        requires
            self.wf(),
        ensures
            self.spec_filled() == self.spec_len() ==> next is Ok && next->Ok_0 is None,
            self.spec_filled() < self.spec_len() && self.spec_offset() + self.spec_filled()
                > u64::MAX ==> next is Err && next->Err_0 == (IoFailure {
                kind: IoErrorKind::InvalidInput,
                raw_os_error: None,
            }),
            self.spec_filled() < self.spec_len() && self.spec_offset() + self.spec_filled()
                <= u64::MAX ==> next is Ok && (next->Ok_0 matches Some((at, filled)) && at
                == self.spec_offset() + self.spec_filled() && filled == self.spec_filled()),
    {
        if self.filled >= self.len {
            return Ok(None);
        }
        match self.offset.checked_add(self.filled as u64) {
            Some(at) => Ok(Some((at, self.filled))),
            None => Err(IoFailure::new(IoErrorKind::InvalidInput)),
        }
    }

    /// One read of the file ended. Nothing read means that the file is shorter
    /// than it was; an interrupted read is tried again.
    pub fn on_read(&mut self, read: Result<usize, IoFailure>) -> (result: Result<(), IoFailure>)
        requires
            old(self).wf(),
            read is Ok ==> read->Ok_0 <= old(self).spec_len() - old(self).spec_filled(),
        ensures
            final(self).wf(),
            final(self).spec_offset() == old(self).spec_offset(),
            final(self).spec_len() == old(self).spec_len(),
            match read {
                Ok(count) => final(self).spec_filled() == old(self).spec_filled() + count && if count
                    == 0 {
                    result is Err && result->Err_0 == (IoFailure {
                        kind: IoErrorKind::UnexpectedEof,
                        raw_os_error: None,
                    })
                } else {
                    result is Ok
                },
                Err(failure) => final(self).spec_filled() == old(self).spec_filled()
                    && if failure.kind == IoErrorKind::Interrupted {
                    result is Ok
                } else {
                    result is Err && result->Err_0 == failure
                },
            },
    {
        match read {
            Ok(count) => {
                if count == 0 {
                    return Err(IoFailure::new(IoErrorKind::UnexpectedEof));
                }
                self.filled = self.filled + count;
                Ok(())
            },
            Err(failure) => match failure.kind {
                IoErrorKind::Interrupted => Ok(()),
                _ => Err(failure),
            },
        }
    }
}

} // verus!
