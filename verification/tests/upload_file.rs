use rusty_cat::digest::{calculate_sign_bytes, sha256_bytes, SignCalculator};
use rusty_cat::error::{InnerErrorCode, IoErrorKind, IoFailure, MeowError};
use rusty_cat::source_check::{
    verification_block_bytes, FileStat, SourceCheck, SourceRole, SourceStep,
};
use rusty_cat::upload_file::{
    map_source_io_error, visible_path_requires_hash, ContentScan, ContentScanner, FileGeneration,
    PositionedRead, UploadFileSnapshot, HASH_BUFFER_BYTES, MAX_UPLOAD_DIGEST_BLOCKS,
};
use sha2::Digest as _;

const PATH: &str = "/data/source.bin";

/// One file: its bytes, its type and its metadata.
struct Node {
    bytes: Vec<u8>,
    regular: bool,
    generation: FileGeneration,
}

/// A disk with one path. Files that are replaced live on while they are open.
struct Disk {
    nodes: Vec<Node>,
    visible: Option<usize>,
    clock: i64,
}

impl Disk {
    fn with(bytes: &[u8]) -> Disk {
        let mut disk = Disk {
            nodes: Vec::new(),
            visible: None,
            clock: 0,
        };
        disk.replace(bytes, true);
        disk
    }

    fn stamp(&mut self, at: usize) {
        self.clock += 1;
        let node = &mut self.nodes[at];
        node.generation = FileGeneration {
            len: node.bytes.len() as u64,
            readonly: false,
            modified: Some(self.clock as i128),
            created: Some(1),
            dev: 7,
            ino: at as u64 + 1,
            mtime_nsec: self.clock,
            ctime: self.clock,
            ctime_nsec: self.clock,
        };
    }

    /// Puts another file at the path.
    fn replace(&mut self, bytes: &[u8], regular: bool) {
        self.nodes.push(Node {
            bytes: bytes.to_vec(),
            regular,
            generation: FileGeneration {
                len: 0,
                readonly: false,
                modified: None,
                created: None,
                dev: 0,
                ino: 0,
                mtime_nsec: 0,
                ctime: 0,
                ctime_nsec: 0,
            },
        });
        let at = self.nodes.len() - 1;
        self.stamp(at);
        self.visible = Some(at);
    }

    /// Writes the file at the path anew.
    fn rewrite(&mut self, bytes: &[u8]) {
        let at = self.visible.expect("a visible file");
        self.nodes[at].bytes = bytes.to_vec();
        self.stamp(at);
    }

    fn remove(&mut self) {
        self.visible = None;
    }

    fn open(&self) -> Result<usize, IoFailure> {
        self.visible.ok_or(IoFailure::new(IoErrorKind::NotFound))
    }

    fn stat(&self, node: usize) -> FileStat {
        FileStat {
            regular: self.nodes[node].regular,
            generation: self.nodes[node].generation,
        }
    }

    fn path_generation(&self) -> Result<FileGeneration, IoFailure> {
        Ok(self.stat(self.open()?).generation)
    }

    /// One read, of no more than a few kilobytes.
    fn read_at(&self, node: usize, offset: u64, out: &mut [u8]) -> usize {
        let bytes = &self.nodes[node].bytes;
        let from = (offset as usize).min(bytes.len());
        let count = out.len().min(bytes.len() - from).min(5000);
        out[..count].copy_from_slice(&bytes[from..from + count]);
        count
    }

    fn read_exact(&self, node: usize, offset: u64, out: &mut [u8]) -> Result<(), IoFailure> {
        let mut read = PositionedRead::new(offset, out.len());
        while let Some((at, filled)) = read.next()? {
            let count = self.read_at(node, at, &mut out[filled..]);
            read.on_read(Ok(count))?;
        }
        Ok(())
    }

    fn scan(&self, node: usize, len: u64, block: usize) -> Result<ContentScan, IoFailure> {
        let mut scanner = ContentScanner::new(len, block).map_err(|e| e.failure)?;
        while scanner.want() > 0 {
            let mut buffer = vec![0; scanner.want()];
            self.read_exact(node, scanner.offset(), &mut buffer)?;
            scanner.update(&buffer);
        }
        Ok(scanner.finish())
    }
}

/// Runs a check to the point where content is compared.
fn inspect(
    disk: &Disk,
    mut check: SourceCheck,
    node: Option<usize>,
    block: usize,
) -> Result<(SourceCheck, usize), MeowError> {
    let node = match node {
        Some(node) => node,
        None => {
            let opened = disk.open();
            check.on_open(opened.map(|_| ()))?;
            opened.expect("opened")
        }
    };
    while matches!(check.step, SourceStep::Stat | SourceStep::StatAgain) {
        check.on_stat(Ok(disk.stat(node)))?;
    }
    let scan = disk.scan(node, check.scan_len(), block);
    check.on_scan(scan)?;
    check.on_restat(Ok(disk.stat(node).generation))?;
    assert_eq!(check.step, SourceStep::Compare);
    Ok((check, node))
}

/// A source with the handle that is held on it.
struct Source {
    snapshot: UploadFileSnapshot,
    handle: Option<usize>,
}

impl Source {
    fn open_and_hash(disk: &Disk, expected_len: u64) -> Result<Source, MeowError> {
        Source::with_blocks(disk, expected_len, HASH_BUFFER_BYTES as u64)
    }

    fn with_blocks(disk: &Disk, expected_len: u64, chunk: u64) -> Result<Source, MeowError> {
        let block = verification_block_bytes(chunk);
        let check = SourceCheck::begin(SourceRole::Initial, PATH, expected_len);
        let (check, _) = inspect(disk, check, None, block)?;
        let len = check.scan_len();
        let snapshot = check.into_snapshot(block);
        if snapshot.initial_path_differs(disk.path_generation())? {
            let check = SourceCheck::begin(SourceRole::Visible { initial: true }, PATH, len);
            let (check, _) = inspect(disk, check, None, block)?;
            check.compare(&snapshot.content)?;
        }
        Ok(Source {
            snapshot,
            handle: None,
        })
    }

    fn opened(&mut self, disk: &Disk) -> Result<usize, MeowError> {
        if self.snapshot.state.open {
            return Ok(self.handle.expect("handle"));
        }
        let check = SourceCheck::begin(
            SourceRole::Reopened,
            PATH,
            self.snapshot.generation.len,
        );
        let block = self.snapshot.content.verification_block_bytes;
        let (check, node) = inspect(disk, check, None, block)?;
        let generation = check.compare(&self.snapshot.content)?;
        self.snapshot.accept_reopened(generation);
        self.handle = Some(node);
        Ok(node)
    }

    fn validate(&mut self, disk: &Disk, verify_content: bool) -> Result<(), MeowError> {
        let node = self.opened(disk)?;
        let block = self.snapshot.content.verification_block_bytes;
        let len = self.snapshot.generation.len;
        let plan = self.snapshot.plan_validation(
            verify_content,
            Ok(disk.stat(node).generation),
            disk.path_generation(),
        )?;
        if plan.scan_handle {
            let check = SourceCheck::begin(SourceRole::Opened { verify_content }, PATH, len);
            let (check, _) = inspect(disk, check, Some(node), block)?;
            check.compare(&self.snapshot.content)?;
        }
        self.snapshot.accept_handle(&plan);
        if plan.scan_path {
            let check = SourceCheck::begin(SourceRole::Visible { initial: false }, PATH, len);
            let (check, _) = inspect(disk, check, None, block)?;
            check.compare(&self.snapshot.content)?;
        }
        self.snapshot.accept_path(&plan);
        Ok(())
    }

    fn read(&mut self, disk: &Disk, offset: u64, len: u64) -> Result<Vec<u8>, MeowError> {
        let mut read = self.snapshot.begin_read(offset, len)?;
        let node = if self.snapshot.state.open {
            self.handle.expect("handle")
        } else {
            drop(read);
            let node = self.opened(disk)?;
            read = self.snapshot.begin_read(offset, len)?;
            node
        };
        while let Some((at, size)) = read.next_block() {
            let mut block = vec![0; size];
            if let Err(failure) = disk.read_exact(node, at, &mut block) {
                return Err(read.read_failed(&failure));
            }
            read.on_block(&block)?;
        }
        Ok(read.finish())
    }

    fn release(&mut self) {
        self.snapshot.release_handle();
        self.handle = None;
    }
}

fn cycle(len: usize) -> Vec<u8> {
    (0..=255).cycle().take(len).collect()
}

fn code_of<T>(result: Result<T, MeowError>) -> InnerErrorCode {
    match result {
        Ok(_) => panic!("expected a refusal"),
        Err(e) => e.code(),
    }
}

#[test]
fn completion_never_treats_equal_metadata_as_visible_content_proof() {
    let disk = Disk::with(b"fixture");
    let generation = disk.path_generation().expect("metadata");

    assert!(!visible_path_requires_hash(
        false,
        &generation,
        &generation,
        Some(generation),
    ));
    assert!(visible_path_requires_hash(
        true,
        &generation,
        &generation,
        Some(generation),
    ));
    let mut other = generation;
    other.ino += 1;
    assert!(visible_path_requires_hash(false, &other, &generation, None));
    assert!(!visible_path_requires_hash(
        false,
        &other,
        &generation,
        Some(other)
    ));
}

#[test]
fn upload_digest_table_has_an_explicit_part_count_limit() {
    let error = match ContentScanner::new(MAX_UPLOAD_DIGEST_BLOCKS + 1, 1) {
        Ok(_) => panic!("pathological digest grids must fail before allocation or file I/O"),
        Err(error) => error,
    };
    assert_eq!(error.failure.kind, IoErrorKind::InvalidInput);
    assert!(error.text.contains("exceeding limit"));
    assert_eq!(
        error.text,
        "upload requires 1000001 digest blocks, exceeding limit 1000000"
    );
    assert!(ContentScanner::new(MAX_UPLOAD_DIGEST_BLOCKS, 1).is_ok());
}

#[test]
fn scan_blocks_have_a_size_of_their_own() {
    for block in [0, HASH_BUFFER_BYTES + 1] {
        let error = match ContentScanner::new(1, block) {
            Ok(_) => panic!("block size out of range"),
            Err(error) => error,
        };
        assert_eq!(error.failure.kind, IoErrorKind::InvalidInput);
        assert_eq!(
            error.text,
            "upload verification block size is outside the supported range"
        );
    }
    assert_eq!(verification_block_bytes(0), 1);
    assert_eq!(verification_block_bytes(1024), 1024);
    assert_eq!(verification_block_bytes(u64::MAX), HASH_BUFFER_BYTES);
}

fn scan_fixture(payload: &[u8], block: usize) -> ContentScan {
    let disk = Disk::with(payload);
    disk.scan(0, payload.len() as u64, block).expect("scan fixture")
}

fn hex(bytes: &[u8]) -> String {
    bytes.iter().map(|byte| format!("{byte:02x}")).collect()
}

fn assert_full_digests(scan: &ContentScan, payload: &[u8]) {
    assert_eq!(
        hex(&scan.protocol_md5),
        format!("{:x}", md5::compute(payload))
    );
    assert_eq!(scan.sha256, <[u8; 32]>::from(sha2::Sha256::digest(payload)));
}

#[test]
fn empty_upload_scan_has_canonical_digests_and_no_blocks() {
    let scan = scan_fixture(b"", 1);

    assert_full_digests(&scan, b"");
    assert!(scan.block_sha256.is_empty());
}

#[test]
fn single_byte_upload_scan_has_one_exact_block() {
    let payload = b"x";
    let scan = scan_fixture(payload, 1);

    assert_full_digests(&scan, payload);
    assert_eq!(scan.block_sha256.as_slice(), &[scan.sha256]);
}

#[test]
fn exact_hash_buffer_upload_scan_has_no_spurious_tail_block() {
    let payload = cycle(HASH_BUFFER_BYTES);
    let scan = scan_fixture(&payload, HASH_BUFFER_BYTES);

    assert_full_digests(&scan, &payload);
    assert_eq!(scan.block_sha256.as_slice(), &[scan.sha256]);
}

#[test]
fn upload_scan_hashes_the_final_partial_block() {
    let payload = cycle(HASH_BUFFER_BYTES + 17);
    let scan = scan_fixture(&payload, HASH_BUFFER_BYTES);

    assert_full_digests(&scan, &payload);
    assert_eq!(scan.block_sha256.len(), 2);
    assert_eq!(
        scan.block_sha256[1],
        <[u8; 32]>::from(sha2::Sha256::digest(&payload[HASH_BUFFER_BYTES..]))
    );
}

#[test]
fn initial_scan_preserves_protocol_md5_full_sha256_and_block_digest() {
    let disk = Disk::with(b"abc");
    let source = Source::open_and_hash(&disk, 3).expect("snapshot");
    let snapshot = source.snapshot;

    assert_eq!(snapshot.sign(), "900150983cd24fb0d6963f7d28e17f72");
    assert_eq!(
        snapshot.content.sha256,
        [
            0xba, 0x78, 0x16, 0xbf, 0x8f, 0x01, 0xcf, 0xea, 0x41, 0x41, 0x40, 0xde, 0x5d, 0xae,
            0x22, 0x23, 0xb0, 0x03, 0x61, 0xa3, 0x96, 0x17, 0x7a, 0x9c, 0xb4, 0x10, 0xff, 0x61,
            0xf2, 0x00, 0x15, 0xad,
        ]
    );
    assert_eq!(snapshot.content.block_sha256.len(), 1);
    assert_eq!(snapshot.content.block_sha256[0], snapshot.content.sha256);
}

#[test]
fn small_upload_chunks_bound_digest_verification_read_amplification() {
    let original = cycle(4097);
    let disk = Disk::with(&original);
    let mut source =
        Source::with_blocks(&disk, original.len() as u64, 1024).expect("snapshot");

    assert_eq!(source.snapshot.content.verification_block_bytes, 1024);
    assert_eq!(source.snapshot.verification_scratch_bytes(), 1024);
    assert_eq!(source.snapshot.content.block_sha256.len(), 5);
    assert_eq!(
        source
            .snapshot
            .verification_read_bytes(1, 1024)
            .expect("verification span"),
        2048
    );
    assert_eq!(
        &source.read(&disk, 1, 1024).expect("unaligned verified read")[..],
        &original[1..1025]
    );
}

#[test]
fn reads_beyond_the_snapshot_are_refused() {
    let disk = Disk::with(&cycle(100));
    let mut source = Source::open_and_hash(&disk, 100).expect("snapshot");
    assert_eq!(
        code_of(source.read(&disk, u64::MAX, 1)),
        InnerErrorCode::InvalidRange
    );
    assert_eq!(
        code_of(source.read(&disk, 99, 2)),
        InnerErrorCode::LocalFileRemoved
    );
    assert_eq!(
        code_of(source.snapshot.verification_read_bytes(99, 2)),
        InnerErrorCode::InvalidRange
    );
    assert_eq!(source.snapshot.verification_read_bytes(99, 0).unwrap(), 0);
    assert_eq!(source.read(&disk, 50, 0).unwrap(), Vec::<u8>::new());
}

#[test]
fn positioned_reads_are_offset_independent_and_byte_exact() {
    let payload = cycle(4096);
    let disk = Disk::with(&payload);
    let mut source = Source::open_and_hash(&disk, payload.len() as u64).expect("snapshot");
    assert!(
        !source.snapshot.state.open,
        "enqueue hashing must not retain one descriptor per queued task"
    );

    for offset in [3072_u64, 0, 2048, 1024] {
        let bytes = source.read(&disk, offset, 1024).expect("read");
        assert_eq!(
            &bytes[..],
            &payload[offset as usize..offset as usize + 1024]
        );
    }
    assert!(source.snapshot.state.open);
    source.release();
    assert!(!source.snapshot.state.open);
    assert_eq!(&source.read(&disk, 0, 16).unwrap()[..], &payload[..16]);
    assert!(source.snapshot.state.open, "a resumed run reopens lazily");
}

#[test]
fn same_length_different_content_replacement_is_checksum_mismatch_but_handle_stays_original() {
    let original = vec![b'A'; 4096];
    let mut disk = Disk::with(&original);
    let mut source = Source::open_and_hash(&disk, original.len() as u64).expect("snapshot");
    assert_eq!(
        &source.read(&disk, 0, 32).expect("open generation")[..],
        &original[..32]
    );
    disk.replace(&vec![b'B'; original.len()], true);

    let err = source
        .validate(&disk, false)
        .expect_err("replacement must fail validation");
    assert_eq!(err.code(), InnerErrorCode::ChecksumMismatch);
    assert_eq!(
        &source.read(&disk, 0, 32).expect("stable handle")[..],
        &original[..32]
    );
}

#[test]
fn resume_reopen_maps_same_length_content_mismatch_to_checksum_mismatch() {
    let original = vec![b'A'; 4096];
    let mut disk = Disk::with(&original);
    let mut source = Source::open_and_hash(&disk, original.len() as u64).expect("snapshot");
    assert!(!source.snapshot.state.open);

    disk.replace(&vec![b'B'; original.len()], true);

    let error = source
        .read(&disk, 0, 32)
        .expect_err("a reopened generation with different SHA-256 must be rejected");
    assert_eq!(error.code(), InnerErrorCode::ChecksumMismatch);
}

#[test]
fn missing_visible_path_remains_local_file_removed() {
    let original = vec![b'A'; 4096];
    let mut disk = Disk::with(&original);
    let mut source = Source::open_and_hash(&disk, original.len() as u64).expect("snapshot");
    source.read(&disk, 0, 32).expect("open stable handle");
    disk.remove();

    let error = source
        .validate(&disk, true)
        .expect_err("missing visible path must fail completion");
    assert_eq!(error.code(), InnerErrorCode::LocalFileRemoved);
}

#[test]
fn visible_path_type_and_length_changes_remain_local_file_removed() {
    for case in ["type", "length"] {
        let original = vec![b'A'; 4096];
        let mut disk = Disk::with(&original);
        let mut source = Source::open_and_hash(&disk, original.len() as u64).expect("snapshot");
        source.read(&disk, 0, 32).expect("open stable handle");

        if case == "type" {
            disk.replace(b"", false);
        } else {
            disk.replace(&vec![b'B'; original.len() + 1], true);
        }

        let error = source
            .validate(&disk, true)
            .expect_err("path metadata change must fail completion");
        assert_eq!(error.code(), InnerErrorCode::LocalFileRemoved, "{case}");
    }
}

#[test]
fn same_content_path_replacement_is_allowed_by_content_identity() {
    let original = cycle(4096);
    let mut disk = Disk::with(&original);
    let mut source = Source::open_and_hash(&disk, original.len() as u64).expect("snapshot");
    assert_eq!(
        &source.read(&disk, 0, 32).expect("open generation")[..],
        &original[..32]
    );

    disk.replace(&original, true);

    source
        .validate(&disk, false)
        .expect("identical bytes preserve the upload content identity");
    source
        .validate(&disk, true)
        .expect("completion accepts an identical visible replacement");
    assert_eq!(
        &source.read(&disk, 0, 32).expect("stable handle")[..],
        &original[..32]
    );
}

#[test]
fn same_content_replacement_is_accepted_when_resume_reopens_the_path() {
    let original: Vec<u8> = (0..=255).rev().cycle().take(4096).collect();
    let mut disk = Disk::with(&original);
    let mut source = Source::open_and_hash(&disk, original.len() as u64).expect("snapshot");
    assert!(!source.snapshot.state.open);

    disk.replace(&original, true);

    assert_eq!(
        &source
            .read(&disk, 100, 257)
            .expect("content-equivalent generation may be reopened")[..],
        &original[100..357]
    );
    source
        .validate(&disk, true)
        .expect("reopened stable handle still has the initial content identity");
}

#[test]
fn positioned_read_rejects_transient_change_even_if_bytes_are_restored_before_complete() {
    let original = vec![b'A'; 4096];
    let mut disk = Disk::with(&original);
    let mut source = Source::open_and_hash(&disk, original.len() as u64).expect("snapshot");
    source.validate(&disk, false).expect("open stable handle");

    disk.rewrite(&vec![b'B'; original.len()]);
    let error = source
        .read(&disk, 0, original.len() as u64)
        .expect_err("bytes captured for sending must be checked against the initial scan");
    assert_eq!(error.code(), InnerErrorCode::ChecksumMismatch);

    disk.rewrite(&original);
    source
        .validate(&disk, true)
        .expect("a final-only hash would miss the transient bad read");
}

#[test]
fn positioned_read_verifies_unaligned_and_final_partial_digest_boundaries() {
    let len = HASH_BUFFER_BYTES * 2 + 37;
    let original: Vec<u8> = (0..=250).cycle().take(len).collect();
    let mut disk = Disk::with(&original);
    let mut source = Source::open_and_hash(&disk, original.len() as u64).expect("snapshot");
    source.validate(&disk, false).expect("open stable handle");

    for (case, offset, read_len, changed_at) in [
        (
            "cross_block",
            HASH_BUFFER_BYTES as u64 - 7,
            19_u64,
            HASH_BUFFER_BYTES as u64,
        ),
        ("final_partial", (len - 19) as u64, 19_u64, (len - 1) as u64),
    ] {
        let mut changed = original.clone();
        changed[changed_at as usize] ^= 0xff;
        disk.rewrite(&changed);
        let error = source.read(&disk, offset, read_len).expect_err(case);
        assert_eq!(error.code(), InnerErrorCode::ChecksumMismatch, "{case}");
        disk.rewrite(&original);
        assert_eq!(
            source.read(&disk, offset, read_len).expect("restored"),
            original[offset as usize..(offset + read_len) as usize].to_vec()
        );
    }
}

#[test]
fn complete_validation_detects_in_place_content_change() {
    let original = vec![b'A'; 4096];
    let mut disk = Disk::with(&original);
    let mut source = Source::open_and_hash(&disk, original.len() as u64).expect("snapshot");
    source.validate(&disk, false).expect("open active generation");
    disk.rewrite(&vec![b'B'; original.len()]);

    source
        .validate(&disk, false)
        .expect_err("metadata change must be detected");
    let err = source
        .validate(&disk, true)
        .expect_err("content change must be detected before complete");
    assert_eq!(err.code(), InnerErrorCode::ChecksumMismatch);
}

#[test]
fn reopen_rehash_rejects_content_even_if_metadata_snapshot_matches() {
    let original = vec![b'A'; 4096];
    let mut disk = Disk::with(&original);
    let mut source = Source::open_and_hash(&disk, original.len() as u64).expect("snapshot");

    disk.rewrite(&vec![b'B'; original.len()]);
    // Simulate a reused/restored metadata tuple: content, not metadata,
    // remains the decisive proof when the active handle is opened.
    source.snapshot.generation = disk.path_generation().expect("metadata");
    let error = source
        .validate(&disk, false)
        .expect_err("different bytes must not become the active generation");
    assert_eq!(error.code(), InnerErrorCode::ChecksumMismatch);
}

#[test]
fn builder_length_mismatch_is_rejected_before_upload_prepare() {
    let disk = Disk::with(&vec![b'A'; 4097]);
    let source = Source::open_and_hash(&disk, 4096)
        .expect("snapshot creation preserves legacy enqueue timing");

    let err = source
        .snapshot
        .validate_total_size(4096)
        .expect_err("a stale builder length must not upload only a prefix");
    assert_eq!(err.code(), InnerErrorCode::LocalFileRemoved);
    assert!(source.snapshot.validate_total_size(4097).is_ok());
}

#[test]
fn source_shortened_before_enqueue_reports_local_file_removed_on_first_short_range() {
    let disk = Disk::with(&vec![b'A'; 1024]);
    let mut source = Source::open_and_hash(&disk, 2048)
        .expect("snapshot keeps legacy worker-stage length failure timing");

    let error = source
        .read(&disk, 1024, 1024)
        .expect_err("range beyond the hashed generation must fail");
    assert_eq!(error.code(), InnerErrorCode::LocalFileRemoved);
}

#[test]
fn source_truncated_after_validation_reports_local_file_removed_during_read() {
    let mut disk = Disk::with(&vec![b'A'; 4096]);
    let mut source = Source::open_and_hash(&disk, 4096).expect("snapshot");
    source
        .validate(&disk, false)
        .expect("open and validate active generation");

    disk.rewrite(b"");
    let error = source
        .read(&disk, 0, 4096)
        .expect_err("short positioned read must fail");
    assert_eq!(error.code(), InnerErrorCode::LocalFileRemoved);
}

#[test]
fn chunk_allocation_check_has_no_arbitrary_parallel_window_cap() {
    assert!(UploadFileSnapshot::validate_chunk_size(1024 * 1024).is_ok());
    if usize::BITS < 64 {
        assert!(UploadFileSnapshot::validate_chunk_size(u64::MAX).is_err());
    }
    assert_eq!(
        UploadFileSnapshot::validate_chunk_size(1024).unwrap(),
        1024
    );
}

#[test]
fn a_missing_file_is_not_found_when_new_and_removed_later() {
    let mut disk = Disk::with(b"abc");
    let mut source = Source::open_and_hash(&disk, 3).expect("snapshot");
    disk.remove();
    let missing = match Source::open_and_hash(&disk, 3) {
        Ok(_) => panic!("nothing to open"),
        Err(error) => error,
    };
    assert_eq!(missing.code(), InnerErrorCode::FileNotFound);
    assert_eq!(missing.msg(), "open upload source failed: /data/source.bin");
    let removed = source.validate(&disk, false).unwrap_err();
    assert_eq!(removed.code(), InnerErrorCode::LocalFileRemoved);
    assert_eq!(removed.msg(), "reopen upload source failed: /data/source.bin");
}

#[test]
fn a_directory_is_no_source() {
    let mut disk = Disk::with(b"abc");
    disk.replace(b"", false);
    let refused = match Source::open_and_hash(&disk, 3) {
        Ok(_) => panic!("not a regular file"),
        Err(error) => error,
    };
    assert_eq!(refused.code(), InnerErrorCode::IoError);
    assert_eq!(
        refused.msg(),
        "upload source is not a regular file: /data/source.bin"
    );
}

#[test]
fn metadata_may_not_change_during_a_scan() {
    let disk = Disk::with(b"abc");
    let mut check = SourceCheck::begin(SourceRole::Initial, PATH, 3);
    check.on_open(Ok(())).unwrap();
    check.on_stat(Ok(disk.stat(0))).unwrap();
    check.on_scan(disk.scan(0, 3, 1)).unwrap();
    let mut later = disk.stat(0).generation;
    later.ctime += 1;
    let error = check.on_restat(Ok(later)).unwrap_err();
    assert_eq!(error.code(), InnerErrorCode::LocalFileRemoved);
    assert_eq!(
        error.msg(),
        "upload source changed: path=/data/source.bin (metadata changed while calculating signature)"
    );
}

#[test]
fn a_validation_is_remembered() {
    let disk = Disk::with(b"abc");
    let mut source = Source::open_and_hash(&disk, 3).expect("snapshot");
    source.validate(&disk, false).expect("first");
    let generation = disk.path_generation();
    let plan = source
        .snapshot
        .plan_validation(false, generation, generation)
        .unwrap();
    assert!(!plan.scan_handle && !plan.scan_path);
    let final_plan = source
        .snapshot
        .plan_validation(true, generation, generation)
        .unwrap();
    assert!(final_plan.scan_handle && final_plan.scan_path);
}

#[test]
fn a_source_that_ends_early_was_changed() {
    let eof = map_source_io_error(
        PATH,
        "reading".to_string(),
        &IoFailure::new(IoErrorKind::UnexpectedEof),
    );
    assert_eq!(eof.code(), InnerErrorCode::LocalFileRemoved);
    assert_eq!(
        eof.msg(),
        "upload source changed: path=/data/source.bin (source truncated during I/O: reading)"
    );
    let other = map_source_io_error(
        PATH,
        "reading".to_string(),
        &IoFailure::new(IoErrorKind::PermissionDenied),
    );
    assert_eq!(other.code(), InnerErrorCode::IoError);
}

#[test]
fn interrupted_reads_are_tried_again() {
    let mut read = PositionedRead::new(10, 4);
    assert_eq!(read.next().unwrap(), Some((10, 0)));
    read.on_read(Err(IoFailure::new(IoErrorKind::Interrupted))).unwrap();
    assert_eq!(read.next().unwrap(), Some((10, 0)));
    read.on_read(Ok(3)).unwrap();
    assert_eq!(read.next().unwrap(), Some((13, 3)));
    read.on_read(Ok(1)).unwrap();
    assert_eq!(read.next().unwrap(), None);
    let far = PositionedRead::new(u64::MAX, 2);
    assert_eq!(far.next().unwrap(), Some((u64::MAX, 0)));
    let mut far = PositionedRead::new(u64::MAX, 2);
    far.on_read(Ok(1)).unwrap();
    assert_eq!(far.next().unwrap_err().kind, IoErrorKind::InvalidInput);
}

#[test]
fn calculate_sign_matches_known_md5_for_non_empty_file() {
    let payload = b"sign-module-non-empty".repeat(1024);
    let expected = format!("{:x}", md5::compute(&payload));
    let mut calculator = SignCalculator::new();
    for piece in payload.chunks(1000) {
        calculator.update(piece);
    }
    assert_eq!(calculator.finish(), expected, "sign should equal known MD5");
    assert_eq!(
        calculate_sign_bytes(b"abc"),
        "900150983cd24fb0d6963f7d28e17f72"
    );
}

#[test]
fn calculate_sign_for_empty_file_returns_empty_md5() {
    let calculator = SignCalculator::new();
    assert_eq!(calculator.finish(), "d41d8cd98f00b204e9800998ecf8427e");
    assert_eq!(calculate_sign_bytes(b""), "d41d8cd98f00b204e9800998ecf8427e");
}

#[test]
fn sha256_is_the_standard_one() {
    assert_eq!(
        hex(&sha256_bytes(b"abc")),
        "ba7816bf8f01cfea414140de5dae2223b00361a396177a9cb410ff61f20015ad"
    );
}
