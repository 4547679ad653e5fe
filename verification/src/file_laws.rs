//! What holds of the files that transfers read and write, told by what is found
//! on disk and what is made of it.

use vstd::prelude::*;

use crate::digest;
use crate::error::{InnerErrorCode, IoFailure, MeowError};
use crate::headers;
use crate::inner_task::InnerTask;
use crate::source_check;
use crate::source_check::{FileStat, SourceRole, SourceStep, ValidationPlan};
use crate::target_lease;
use crate::text;
use crate::transfer_task;
use crate::transfer_task::{CheckpointCause, CheckpointFailure, Finalization, FinalizeStep, RecordedProgress, TargetStage};
use crate::upload_file;
use crate::upload_file::{ContentIdentity, ContentScan, FileGeneration, UploadFileSnapshot, UploadFileState};

verus! {

// ---------------------------------------------------------------------------
// Numbers
// ---------------------------------------------------------------------------

/// The number that a text in decimal notation stands for.
pub open spec fn number_of(text: Seq<char>) -> nat
    decreases text.len(),
{
    if text.len() == 0 {
        0
    } else {
        10 * number_of(text.drop_last()) + (text.last() as nat - 48) as nat
    }
}

/// Decimal notation stands for the number, holds digits alone, and starts with
/// a zero only where it is one.
pub proof fn law_decimal_notation_is_faithful(n: nat, i: int)
    ensures
        number_of(text::decimal(n)) == n,
        text::decimal(n).len() > 0,
        0 <= i < text::decimal(n).len() ==> '0' <= text::decimal(n)[i] <= '9',
        text::decimal(n)[0] == '0' ==> text::decimal(n).len() == 1,
    decreases n,
{
    if n < 10 {
        let d = text::decimal(n);
        assert(d.drop_last() =~= Seq::empty());
        assert(number_of(d.drop_last()) == 0);
        assert(d.last() as nat == 48 + n);
    } else {
        let d = text::decimal(n);
        law_decimal_notation_is_faithful(n / 10, i);
        law_decimal_notation_is_faithful(n / 10, 0);
        assert(d.drop_last() =~= text::decimal(n / 10));
        assert(d.last() as nat == 48 + n % 10);
        assert(d[0] == text::decimal(n / 10)[0]);
        if text::decimal(n / 10)[0] == '0' {
            assert(text::decimal(n / 10).drop_last() =~= Seq::empty());
            assert(number_of(text::decimal(n / 10).drop_last()) == 0);
            assert(text::decimal(n / 10).last() == text::decimal(n / 10)[0]);
            assert(n / 10 == 0);
        }
    }
}

// ---------------------------------------------------------------------------
// Downloads
// ---------------------------------------------------------------------------

/// A completed download that cannot be validated is gone where it vanished or
/// shrank, fails its checksum where it holds other content, and is an ordinary
/// local failure otherwise.
pub proof fn law_validation_failures_are_told_apart(failure: IoFailure)
    ensures
        ({
            let code = transfer_task::validation_failure_code(failure);
            &&& failure.kind is NotFound || failure.kind is UnexpectedEof ==> code
                is LocalFileRemoved
            &&& failure.kind is InvalidData ==> code is ChecksumMismatch
            &&& code is ChecksumMismatch ==> failure.kind is InvalidData
            &&& !(failure.kind is NotFound) && !(failure.kind is UnexpectedEof) && !(failure.kind
                is InvalidData) && (failure.kind is StorageFull || failure.raw_os_error == Some(
                28i32,
            )) ==> code is DiskFull
            &&& !(failure.kind is NotFound) && !(failure.kind is UnexpectedEof) && !(failure.kind
                is InvalidData) && !(failure.kind is StorageFull || failure.raw_os_error == Some(
                28i32,
            )) ==> code is IoError
        }),
{
}

/// A completed download is refused for its length with what it has in place of
/// what was expected, and for its record where that is missing, is of another
/// size, or has a part missing; in that order.
pub proof fn law_refused_completions_say_why(
    path: Seq<char>,
    expected_total: u64,
    len: u64,
    progress: RecordedProgress,
)
    ensures
        len != expected_total ==> transfer_task::length_refusal(path, expected_total, Ok(len))
            == Some(
            (
                InnerErrorCode::LocalFileRemoved,
                "download length changed before complete: expected="@ + text::decimal(
                    expected_total as nat,
                ) + " actual="@ + text::decimal(len as nat),
            ),
        ),
        transfer_task::progress_refusal(expected_total, Ok(None)) is Some,
        progress.total != expected_total ==> (transfer_task::progress_refusal(
            expected_total,
            Ok(Some(progress)),
        ) matches Some((code, _)) && code == InnerErrorCode::InvalidRange),
        progress.total == expected_total && !progress.all_done ==> transfer_task::progress_refusal(
            expected_total,
            Ok(Some(progress)),
        ) == Some(
            (
                InnerErrorCode::InvalidRange,
                "download complete called before all parts recorded done"@,
            ),
        ),
        progress.total == expected_total && progress.all_done ==> transfer_task::progress_refusal(
            expected_total,
            Ok(Some(progress)),
        ) is None,
{
}

/// A step of a completion either goes on without a failure or releases the
/// target with the failure that it met.
pub proof fn law_completions_stop_at_the_first_failure(
    before: Finalization,
    after: Finalization,
    refusal: Option<(InnerErrorCode, Seq<char>)>,
    next: FinalizeStep,
)
    requires
        transfer_task::steps_to(before, after, refusal, next),
    ensures
        after.expected_total == before.expected_total,
        refusal is None ==> after.step == next && after.failure is None,
        refusal matches Some((code, text)) ==> after.step is Release && after.failure is Some
            && after.failure->Some_0.code == code && after.failure->Some_0.msg@ == text
            && after.failure->Some_0.http_status is None,
{
}

/// A checkpoint that the transfer waits for fails the transfer, with what was
/// tried; one that a timer made only hands on what went wrong.
pub proof fn law_checkpoint_failures_reach_who_waits(
    cause: CheckpointCause,
    text: Seq<char>,
    failure: IoFailure,
    result: Result<(), CheckpointFailure>,
)
    ensures
        transfer_task::fails_by_io(cause, text, failure, result) ==> {
            &&& result is Err
            &&& cause is Timer ==> result->Err_0 == CheckpointFailure::Io(failure)
            &&& cause is Batch ==> (result->Err_0 matches CheckpointFailure::Error(e) && e.msg@
                == text && e.code == failure.spec_code())
        },
        transfer_task::fails_by_target(cause, result) ==> {
            &&& result is Err
            &&& cause is Timer ==> result->Err_0 is TargetGone
            &&& cause is Batch ==> (result->Err_0 matches CheckpointFailure::Error(e) && e.code
                == InnerErrorCode::InvalidTaskState)
        },
{
}

/// The text of a target that cannot be owned or given up names what was tried
/// and, up to its unlocking, the path.
pub proof fn law_target_failures_name_the_path(stage: TargetStage, path: Seq<char>)
    ensures
        ({
            let text = transfer_task::target_failure_text(stage, path);
            &&& stage is AcquireLease ==> text == "acquire download target lease failed: "@ + path
            &&& stage is Lock ==> text == "lock actual download target failed: "@ + path
            &&& stage is StatNewlyLocked ==> text == "stat newly locked download target failed: "@
                + path
            &&& stage is StatLocked ==> text == "stat locked download target failed: "@ + path
            &&& stage is Sync ==> text == "sync locked download target failed: "@ + path
            &&& stage is Unlock ==> text == "unlock download target failed"@
        }),
{
}

/// What a protocol sees of a task is the task.
pub proof fn law_protocols_see_the_task(task: InnerTask)
    ensures
        ({
            let seen = transfer_task::shown(task);
            &&& seen.file_sign == task.file_sign@
            &&& seen.file_name == task.file_name@
            &&& seen.file_path == task.file_path.bytes@
            &&& seen.direction == task.direction
            &&& seen.total_size == task.total_size
            &&& seen.chunk_size == task.chunk_size
            &&& seen.url == task.url@
            &&& seen.method == task.method@
            &&& seen.headers == headers::header_contents(task.headers)
            &&& seen.range_accept == task.breakpoint_download_http.range_accept@
            &&& seen.max_parts_in_flight == task.max_parts_in_flight
            &&& seen.max_upload_prepare_retries == task.max_upload_prepare_retries
        }),
{
}

// ---------------------------------------------------------------------------
// Owning a target
// ---------------------------------------------------------------------------

/// ASCII text keeps its characters and its length as bytes.
pub proof fn law_ascii_keeps_the_characters(text: Seq<char>, i: int)
    ensures
        target_lease::ascii(text).len() == text.len(),
        0 <= i < text.len() ==> target_lease::ascii(text)[i] == text[i] as u8,
{
}

/// A target is locked by its path always, by its lower-case path where case is
/// not told apart, and by its inode where it has one, and by nothing else.
/// Different paths have different keys, and so do different lower-case paths.
pub proof fn law_targets_are_locked_by_all_their_names(
    canonical: Seq<u8>,
    folded: Option<Seq<u8>>,
    inode: Option<(u64, u64)>,
    other: Seq<u8>,
)
    ensures
        ({
            let keys = target_lease::spec_lease_keys(canonical, folded, inode);
            &&& keys.len() == 1 + (if folded is Some {
                1int
            } else {
                0int
            }) + (if inode is Some {
                1int
            } else {
                0int
            })
            &&& keys[0] == target_lease::ascii("path:"@) + canonical
            &&& folded matches Some(f) ==> keys[1] == target_lease::ascii("path-casefold:"@) + f
            &&& inode matches Some((dev, ino)) ==> keys.last() == target_lease::ascii(
                "inode:"@ + text::decimal(dev as nat) + ":"@ + text::decimal(ino as nat),
            )
        }),
        target_lease::spec_path_key(canonical) == target_lease::spec_path_key(other) ==> canonical
            == other,
        target_lease::spec_casefold_key(canonical) == target_lease::spec_casefold_key(other)
            ==> canonical == other,
{
    let mark = target_lease::ascii("path:"@);
    let n = mark.len() as int;
    assert((mark + canonical).skip(n) =~= canonical);
    assert((mark + other).skip(n) =~= other);
    let mark = target_lease::ascii("path-casefold:"@);
    let n = mark.len() as int;
    assert((mark + canonical).skip(n) =~= canonical);
    assert((mark + other).skip(n) =~= other);
}

/// A lock is taken for someone else's where the failure says that it would
/// block, or carries the system's number for a lock that is held.
pub proof fn law_held_locks_are_recognized(failure: IoFailure, held: Option<i32>)
    ensures
        target_lease::contended(failure, held) <==> failure.kind is WouldBlock
            || failure.raw_os_error == held,
{
}

/// A path leads through the reserved directory exactly where one of its names
/// is that directory's; a record lies there, under the digest of the name of
/// its target, beside that target.
pub proof fn law_records_lie_in_the_reserved_directory(
    parent: Seq<Seq<u8>>,
    file_name: Seq<u8>,
    names: Seq<Seq<u8>>,
)
    ensures
        target_lease::passes_reserved(names) <==> exists|i: int|
            0 <= i < names.len() && #[trigger] names[i] == target_lease::ascii(".rusty-cat"@),
        ({
            let record = target_lease::spec_sidecar_names(parent, file_name);
            &&& record.len() == parent.len() + 2
            &&& record.take(parent.len() as int) == parent
            &&& record[parent.len() as int] == target_lease::ascii(".rusty-cat"@)
            &&& record[parent.len() as int + 1] == target_lease::ascii(
                digest::hex(digest::sha256_digest(file_name)) + ".rcdl"@,
            )
        }),
{
    let record = target_lease::spec_sidecar_names(parent, file_name);
    assert(record.take(parent.len() as int) =~= parent);
    if target_lease::passes_reserved(names) {
        let i = choose|i: int| 0 <= i < names.len() && names[i] == target_lease::ascii(
            ".rusty-cat"@,
        );
        assert(names[i] == target_lease::ascii(".rusty-cat"@));
    }
}

/// A path without a directory part lies in the current directory; any other in
/// the directory that it names.
pub proof fn law_bare_names_lie_here(parent: Option<Seq<u8>>)
    ensures
        parent is None ==> target_lease::parent_or_here(parent) == target_lease::ascii("."@),
        parent matches Some(p) ==> target_lease::parent_or_here(parent) == if p.len() == 0 {
            target_lease::ascii("."@)
        } else {
            p
        },
{
}

// ---------------------------------------------------------------------------
// The content of a source
// ---------------------------------------------------------------------------

/// The blocks of some content follow each other without a gap: the first starts
/// at its first byte, each next one where the one before it ends, every block
/// but the last is of full size, and the last ends where the content does.
pub proof fn law_blocks_tile_the_content(content: Seq<u8>, block: int, i: int)
    requires
        block >= 1,
        0 <= i < upload_file::block_count(content.len() as int, block),
    ensures
        ({
            let len = content.len() as int;
            let count = upload_file::block_count(len, block);
            &&& upload_file::block_digests(content, block).len() == count
            &&& upload_file::block_of(content, block, i) == content.subrange(
                i * block,
                upload_file::block_end(len, block, i),
            )
            &&& upload_file::block_digests(content, block)[i] == digest::sha256_digest(
                upload_file::block_of(content, block, i),
            )
            &&& 0 < upload_file::block_end(len, block, i) - i * block <= block
            &&& i + 1 < count ==> upload_file::block_end(len, block, i) == (i + 1) * block
            &&& i + 1 == count ==> upload_file::block_end(len, block, i) == len
        }),
{
    let len = content.len() as int;
    let n = len + block - 1;
    vstd::arithmetic::div_mod::lemma_fundamental_div_mod(n, block);
    vstd::arithmetic::div_mod::lemma_mod_bound(n, block);
    let q = n / block;
    assert(q * block == block * q) by (nonlinear_arith);
    assert((q - 1) * block == q * block - block) by (nonlinear_arith);
    assert((i + 1) * block == i * block + block) by (nonlinear_arith);
    assert(i * block <= (q - 1) * block) by (nonlinear_arith)
        requires
            i <= q - 1,
            block >= 1,
    ;
    if i + 1 < q {
        assert((i + 1) * block <= (q - 1) * block) by (nonlinear_arith)
            requires
                i + 1 <= q - 1,
                block >= 1,
        ;
    }
}

/// A scan holds the MD5 digest of the whole content, its SHA-256 digest, and
/// the SHA-256 digest of each of its blocks; an identity holds the latter two.
pub proof fn law_scans_hold_the_digests(
    scan: ContentScan,
    identity: ContentIdentity,
    content: Seq<u8>,
    block: int,
    i: int,
)
    ensures
        upload_file::is_scan_of(scan, content, block) ==> {
            &&& scan.protocol_md5@ == digest::md5_digest(content)
            &&& scan.sha256@ == digest::sha256_digest(content)
            &&& scan.block_sha256@.len() == upload_file::block_digests(content, block).len()
            &&& 0 <= i < scan.block_sha256@.len() ==> scan.block_sha256@[i]@
                == digest::sha256_digest(upload_file::block_of(content, block, i))
        },
        identity.spec_matches(scan) ==> {
            &&& identity.sha256@ == scan.sha256@
            &&& identity.block_sha256@.len() == scan.block_sha256@.len()
            &&& 0 <= i < scan.block_sha256@.len() ==> identity.block_sha256@[i]@
                == scan.block_sha256@[i]@
        },
{
    if upload_file::is_scan_of(scan, content, block) && 0 <= i < scan.block_sha256@.len() {
        assert(upload_file::digest_views(scan.block_sha256@)[i] == scan.block_sha256@[i]@);
    }
    if identity.spec_matches(scan) {
        let a = upload_file::digest_views(identity.block_sha256@);
        let b = upload_file::digest_views(scan.block_sha256@);
        assert(a.len() == b.len());
        if 0 <= i < scan.block_sha256@.len() {
            assert(a[i] == b[i]);
        }
    }
}

/// A scan takes blocks of one byte up to one mebibyte, and at most a million of
/// them.
pub proof fn law_scans_are_bounded(len: u64, block: usize)
    ensures
        block == 0 || block > 1024 * 1024 ==> upload_file::scan_refusal(len, block) is Some,
        1 <= block <= 1024 * 1024 ==> (upload_file::scan_refusal(len, block) is None <==> len
            <= 1000000 * block),
{
    if 1 <= block <= 1024 * 1024 {
        let n = len + block - 1;
        let b = block as int;
        vstd::arithmetic::div_mod::lemma_fundamental_div_mod(n, b);
        vstd::arithmetic::div_mod::lemma_mod_bound(n, b);
        let q = n / b;
        assert(q <= 1000000 <==> len <= 1000000 * b) by (nonlinear_arith)
            requires
                b >= 1,
                n == b * q + n % b,
                0 <= n % b < b,
                n == len + b - 1,
        ;
    }
}

/// A block that is read counts as unchanged exactly where the scan has a digest
/// for it and it is the block's own.
pub proof fn law_blocks_are_verified_by_digest(identity: ContentIdentity, i: int, bytes: Seq<u8>)
    ensures
        upload_file::block_verified(identity, i, bytes) <==> 0 <= i
            < identity.block_sha256@.len() && identity.block_sha256@[i]@ == digest::sha256_digest(
            bytes,
        ),
{
}

/// A failed read of a source says that the source was shortened where it ended
/// early, and otherwise is the local failure that it is.
pub proof fn law_short_reads_mean_a_shortened_source(
    e: MeowError,
    path: Seq<char>,
    context: Seq<char>,
    failure: IoFailure,
)
    requires
        upload_file::is_source_io_error(e, path, context, failure),
    ensures
        e.http_status is None,
        failure.kind is UnexpectedEof ==> e.code == InnerErrorCode::LocalFileRemoved && e.msg@
            == "upload source changed: path="@ + path + " ("@ + (
        "source truncated during I/O: "@ + context) + ")"@,
        !(failure.kind is UnexpectedEof) ==> e.code == failure.spec_code() && e.msg@ == context,
{
}

// ---------------------------------------------------------------------------
// Checking a source
// ---------------------------------------------------------------------------

/// A source that is missing was never there when its task is made, and was
/// removed later on; any other failure to open it is a local one.
pub proof fn law_missing_sources_are_told_apart(role: SourceRole, failure: IoFailure)
    ensures
        ({
            let code = source_check::open_failure_code(role, failure);
            let making = role is Initial || (role is Visible && role->initial);
            &&& !(failure.kind is NotFound) ==> code is IoError
            &&& failure.kind is NotFound && making ==> code is FileNotFound
            &&& failure.kind is NotFound && !making ==> code is LocalFileRemoved
        }),
{
}

/// Before its content is looked at, a new source has to be a regular file; one
/// that is known has to have the length that is known, and be a regular file
/// where it was just opened. A refusal of a known source says that it changed.
pub proof fn law_sources_keep_their_length(
    role: SourceRole,
    step: SourceStep,
    path: Seq<char>,
    expected_len: u64,
    stat: FileStat,
)
    ensures
        ({
            let refusal = source_check::stat_refusal(role, step, path, expected_len, stat);
            let same_len = stat.generation.len == expected_len;
            &&& role is Initial ==> (refusal is None <==> stat.regular)
            &&& role is Reopened ==> (refusal is None <==> stat.regular && same_len)
            &&& role is Opened ==> (refusal is None <==> same_len)
            &&& role is Visible && !(step is StatAgain) ==> (refusal is None <==> stat.regular
                && same_len)
            &&& role is Visible && step is StatAgain ==> (refusal is None <==> same_len)
            &&& refusal matches Some((code, _)) ==> code == if role is Initial {
                InnerErrorCode::IoError
            } else {
                InnerErrorCode::LocalFileRemoved
            }
        }),
{
}

/// The metadata of a file that a path names is looked at twice before its scan;
/// of any other once.
pub proof fn law_visible_files_are_looked_at_twice(role: SourceRole, step: SourceStep)
    ensures
        source_check::after_stat(role, step) is StatAgain <==> role is Visible && step is Stat,
        !(source_check::after_stat(role, step) is StatAgain) ==> source_check::after_stat(
            role,
            step,
        ) is Scan,
{
}

/// What a validation scans: before completion the open file and the path; at
/// any other time the open file unless it was accepted with this metadata, and
/// the path unless it has the metadata of the open file or was accepted with
/// its own.
pub proof fn law_validations_scan_what_is_not_known(
    snapshot: UploadFileSnapshot,
    verify_content: bool,
    handle: FileGeneration,
    path: FileGeneration,
)
    ensures
        ({
            let plan = snapshot.spec_plan(verify_content, handle, path);
            &&& plan.handle_generation == handle
            &&& plan.path_generation == path
            &&& !plan.scan_handle <==> !verify_content
                && snapshot.state.accepted_handle_generation == Some(handle)
            &&& !plan.scan_path <==> !verify_content && (path == handle
                || snapshot.state.accepted_path_generation == Some(path))
        }),
{
}

/// What a validation that went well accepts: of the open file its metadata
/// where it was scanned, of the path its metadata where it was scanned or is
/// that of the open file; anything else stays as it was.
pub proof fn law_validations_accept_what_they_scanned(state: UploadFileState, plan: ValidationPlan)
    ensures
        ({
            let after = source_check::validated_state(state, plan);
            &&& after.open == state.open
            &&& plan.scan_handle ==> after.accepted_handle_generation == Some(
                plan.handle_generation,
            )
            &&& !plan.scan_handle ==> after.accepted_handle_generation
                == state.accepted_handle_generation
            &&& plan.scan_path || plan.path_generation == plan.handle_generation
                ==> after.accepted_path_generation == Some(plan.path_generation)
            &&& !plan.scan_path && plan.path_generation != plan.handle_generation
                ==> after.accepted_path_generation == state.accepted_path_generation
        }),
        !source_check::closed_state().open,
        source_check::closed_state().accepted_handle_generation is None,
        source_check::closed_state().accepted_path_generation is None,
{
}

/// The signature of a source is its MD5 digest in lower-case hexadecimal
/// notation: two digits per byte, the higher half first.
pub proof fn law_signatures_are_hexadecimal_digests(content: Seq<u8>, i: int)
    ensures
        ({
            let sign = digest::content_sign(content);
            let digest = digest::md5_digest(content);
            let high = sign[2 * i];
            let low = sign[2 * i + 1];
            &&& sign.len() == 2 * digest.len()
            &&& 0 <= i < digest.len() ==> {
                &&& '0' <= high <= '9' || 'a' <= high <= 'f'
                &&& '0' <= low <= '9' || 'a' <= low <= 'f'
                &&& digest[i] == 16 * hex_value(high) + hex_value(low)
            }
        }),
{
}

/// What a hexadecimal digit stands for.
pub open spec fn hex_value(c: char) -> int {
    if c <= '9' {
        c as int - 48
    } else {
        c as int - 87
    }
}

} // verus!
