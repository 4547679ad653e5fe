//! What holds of the sources that uploads read, of the targets that downloads
//! own, and of the headers that both send, told by the calls that work on them.

use vstd::prelude::*;

use reqwest::header::{HeaderMap, HeaderValue};

use crate::digest;
use crate::digest::SignCalculator;
use crate::error::{InnerErrorCode, IoFailure, MeowError};
use crate::headers;
use crate::log;
use crate::order;
use crate::source_check;
use crate::source_check::{FileStat, SourceCheck, SourceRole, ValidationPlan};
use crate::target_lease;
use crate::target_lease::LeasePathWalk;
use crate::text;
use crate::upload_file;
use crate::upload_file::{ContentIdentity, ContentScan, ContentScanner, FileGeneration, PositionedRead, ScanError, UploadFileSnapshot, VerifiedRead};

verus! {

// ---------------------------------------------------------------------------
// Checking a source
// ---------------------------------------------------------------------------

/// A source is opened, looked at, read, and looked at again, in that order; it
/// is compared only where it is the same file after reading as before, of the
/// length that was expected, and fails at the first step that says otherwise.
pub proof fn law_sources_are_checked_in_order(
    path: &str,
    expected_len: u64,
    made: SourceCheck,
    opened: &mut SourceCheck,
    open: Result<(), IoFailure>,
    after_open: Result<(), MeowError>,
    looked: &mut SourceCheck,
    stat: Result<FileStat, IoFailure>,
    after_stat: Result<(), MeowError>,
    scanned: &mut SourceCheck,
    scan: Result<ContentScan, IoFailure>,
    after_scan: Result<(), MeowError>,
    again: &mut SourceCheck,
    restat: Result<FileGeneration, IoFailure>,
    after_restat: Result<(), MeowError>,
)
    requires
        call_ensures(SourceCheck::begin, (SourceRole::Reopened, path, expected_len), made),
        *old(opened) == made,
        call_ensures(SourceCheck::on_open, (opened, open), after_open),
        *old(looked) == *final(opened),
        call_ensures(SourceCheck::on_stat, (looked, stat), after_stat),
        *old(scanned) == *final(looked),
        call_ensures(SourceCheck::on_scan, (scanned, scan), after_scan),
        *old(again) == *final(scanned),
        call_ensures(SourceCheck::on_restat, (again, restat), after_restat),
    ensures
        made.step is Open,
        made.expected_len == expected_len,
        after_open is Ok <==> open is Ok,
        open is Ok ==> final(opened).step is Stat,
        open matches Err(failure) ==> after_open->Err_0.code == if failure.kind is NotFound {
            InnerErrorCode::LocalFileRemoved
        } else {
            InnerErrorCode::IoError
        },
        open matches Err(failure) ==> after_open->Err_0.msg@ == "reopen upload source failed: "@
            + path@,
        after_stat is Ok <==> (stat matches Ok(found) && found.regular && found.generation.len
            == expected_len),
        after_stat is Ok ==> final(looked).step is Scan && final(looked).generation == Some(
            stat->Ok_0.generation,
        ),
        stat matches Ok(found) ==> (after_stat matches Err(e) ==> e.code
            == InnerErrorCode::LocalFileRemoved && e.msg@ == "upload source changed: path="@ + path@
            + " ("@ + "reopened source length or type changed"@ + ")"@),
        stat matches Err(failure) ==> after_stat->Err_0.code == failure.spec_code(),
        after_scan is Ok <==> scan is Ok,
        scan matches Ok(found) ==> final(scanned).step is Restat && final(scanned).scan == Some(
            found,
        ),
        scan matches Err(failure) ==> failure.kind is UnexpectedEof ==> after_scan->Err_0.code
            == InnerErrorCode::LocalFileRemoved,
        after_restat is Ok <==> (restat matches Ok(now) && Some(now) == final(scanned).generation),
        after_restat is Ok ==> final(again).step is Compare && final(again).scan == final(scanned).scan,
        restat is Ok ==> (after_restat matches Err(e) ==> e.code
            == InnerErrorCode::LocalFileRemoved),
{
}

/// A source is the one it was exactly where its content is, whole and block by
/// block; then it is known by the state it was found in.
pub proof fn law_sources_are_compared_by_content(
    check: SourceCheck,
    identity: &ContentIdentity,
    result: Result<FileGeneration, MeowError>,
)
    requires
        check.scan is Some,
        check.generation is Some,
        call_ensures(SourceCheck::compare, (check, identity), result),
    ensures
        ({
            let scan = check.scan->Some_0;
            let same = identity.sha256@ == scan.sha256@ && identity.block_sha256@.len()
                == scan.block_sha256@.len() && (forall|i: int|
                0 <= i < scan.block_sha256@.len() ==> (#[trigger] identity.block_sha256@[i])@
                    == scan.block_sha256@[i]@);
            &&& result is Ok ==> identity.sha256@ == scan.sha256@ && identity.block_sha256@.len()
                == scan.block_sha256@.len()
            &&& same ==> result is Ok
            &&& result is Ok ==> result->Ok_0 == check.generation->Some_0
            &&& result matches Err(e) ==> e.code == InnerErrorCode::ChecksumMismatch
        }),
{
    let scan = check.scan->Some_0;
    let a = upload_file::digest_views(identity.block_sha256@);
    let b = upload_file::digest_views(scan.block_sha256@);
    if a == b {
        assert(a.len() == b.len());
    }
    if identity.block_sha256@.len() == scan.block_sha256@.len() && (forall|i: int|
        0 <= i < scan.block_sha256@.len() ==> (#[trigger] identity.block_sha256@[i])@
            == scan.block_sha256@[i]@) {
        assert(a =~= b);
    }
}

/// What is said of a source that fails a step names the step, by whom the
/// source was opened, and the path; one that is not there is told apart.
pub proof fn law_source_failures_say_what_was_tried(
    opened: &mut SourceCheck,
    failure: IoFailure,
    after_open: Result<(), MeowError>,
    looked: &mut SourceCheck,
    after_stat: Result<(), MeowError>,
    scanned: &mut SourceCheck,
    after_scan: Result<(), MeowError>,
    again: &mut SourceCheck,
    after_restat: Result<(), MeowError>,
)
    requires
        call_ensures(SourceCheck::on_open, (opened, Err::<(), IoFailure>(failure)), after_open),
        call_ensures(
            SourceCheck::on_stat,
            (looked, Err::<FileStat, IoFailure>(failure)),
            after_stat,
        ),
        !(old(looked).step is Restat),
        call_ensures(
            SourceCheck::on_scan,
            (scanned, Err::<ContentScan, IoFailure>(failure)),
            after_scan,
        ),
        call_ensures(
            SourceCheck::on_restat,
            (again, Err::<FileGeneration, IoFailure>(failure)),
            after_restat,
        ),
    ensures
        after_open is Err,
        after_stat is Err,
        after_scan is Err,
        after_restat is Err,
        !(failure.kind is NotFound) ==> after_open->Err_0.code == InnerErrorCode::IoError,
        failure.kind is NotFound && old(opened).role is Initial ==> after_open->Err_0.code
            == InnerErrorCode::FileNotFound,
        failure.kind is NotFound && old(opened).role is Reopened ==> after_open->Err_0.code
            == InnerErrorCode::LocalFileRemoved,
        after_open->Err_0.msg@ == match old(opened).role {
            SourceRole::Initial => "open upload source failed: "@,
            SourceRole::Reopened => "reopen upload source failed: "@,
            _ => "open visible upload source failed: "@,
        } + old(opened).path@,
        after_stat->Err_0.code == failure.spec_code(),
        after_stat->Err_0.msg@ == "stat "@ + match old(looked).role {
            SourceRole::Initial => ""@,
            SourceRole::Reopened => "reopened "@,
            SourceRole::Opened { .. } => "opened "@,
            SourceRole::Visible { .. } => "visible "@,
        } + "upload source failed: "@ + old(looked).path@,
        after_restat->Err_0.code == failure.spec_code(),
        after_restat->Err_0.msg@ == "re-stat "@ + match old(again).role {
            SourceRole::Initial => ""@,
            SourceRole::Reopened => "reopened "@,
            SourceRole::Opened { .. } => "opened "@,
            SourceRole::Visible { .. } => "visible "@,
        } + "upload source failed: "@ + old(again).path@,
        !(failure.kind is UnexpectedEof) ==> after_scan->Err_0.code == failure.spec_code()
            && after_scan->Err_0.msg@ == (match old(scanned).role {
            SourceRole::Initial => "calculate upload source signature failed: "@,
            SourceRole::Reopened => "re-hash reopened upload source failed: "@,
            SourceRole::Opened { .. } => "hash "@ + "opened "@ + "upload source failed: "@,
            SourceRole::Visible { .. } => "hash "@ + "visible "@ + "upload source failed: "@,
        } + old(scanned).path@),
        *final(opened) == *old(opened),
        *final(looked) == *old(looked),
        *final(scanned) == *old(scanned),
        *final(again) == *old(again),
{
}

/// What is said of a source that is not what it was: in what it changed, and
/// when that was found.
pub proof fn law_changed_sources_say_what_changed(
    again: &mut SourceCheck,
    generation: FileGeneration,
    after_restat: Result<(), MeowError>,
    check: SourceCheck,
    identity: &ContentIdentity,
    compared: Result<FileGeneration, MeowError>,
)
    requires
        call_ensures(
            SourceCheck::on_restat,
            (again, Ok::<FileGeneration, IoFailure>(generation)),
            after_restat,
        ),
        call_ensures(SourceCheck::compare, (check, identity), compared),
    ensures
        after_restat is Ok <==> old(again).generation == Some(generation),
        after_restat matches Err(e) ==> e.code == InnerErrorCode::LocalFileRemoved && e.msg@
            == "upload source changed: path="@ + old(again).path@ + " ("@ + (
        match old(again).role {
            SourceRole::Initial => "metadata changed while calculating signature"@,
            SourceRole::Reopened => "metadata changed while re-hashing the reopened source"@,
            SourceRole::Opened { .. } => "opened "@
                + "source metadata changed while validating content"@,
            SourceRole::Visible { .. } => "visible "@
                + "source metadata changed while validating content"@,
        }) + ")"@,
        compared matches Err(e) ==> e.code == InnerErrorCode::ChecksumMismatch && e.msg@
            == "upload source content changed: path="@ + check.path@ + " ("@ + (match check.role {
            SourceRole::Opened { verify_content: true } =>
                "upload source content changed before completion"@,
            SourceRole::Opened { verify_content: false } =>
                "opened source content changed after its metadata changed"@,
            SourceRole::Visible { .. } => "visible upload source has different content"@,
            _ => "reopened source content no longer matches its SHA-256 identity"@,
        }) + ")"@,
{
}

/// A source that is looked at has to be a regular file the first time, and of
/// the length that was expected every time after.
pub proof fn law_sources_are_of_the_expected_kind(
    looked: &mut SourceCheck,
    stat: FileStat,
    result: Result<(), MeowError>,
)
    requires
        call_ensures(SourceCheck::on_stat, (looked, Ok::<FileStat, IoFailure>(stat)), result),
    ensures
        ({
            let role = old(looked).role;
            let same = stat.generation.len == old(looked).expected_len;
            let changed = "upload source changed: path="@ + old(looked).path@ + " ("@;
            &&& role is Initial ==> (result is Ok <==> stat.regular)
            &&& role is Initial && !stat.regular ==> result->Err_0.code == InnerErrorCode::IoError
                && result->Err_0.msg@ == "upload source is not a regular file: "@
                + old(looked).path@
            &&& role is Reopened ==> (result is Ok <==> stat.regular && same)
            &&& role is Opened ==> (result is Ok <==> same)
            &&& role is Opened && !same ==> result->Err_0.msg@ == changed
                + "opened source length changed before content validation"@ + ")"@
            &&& role is Visible && old(looked).step is Stat ==> (result is Ok <==> stat.regular
                && same)
            &&& role is Visible && old(looked).step is StatAgain ==> (result is Ok <==> same)
            &&& role is Visible && old(looked).step is Stat && !stat.regular ==> result->Err_0.msg@
                == changed + "visible upload source is not a regular file"@ + ")"@
            &&& role is Visible && old(looked).step is Stat && stat.regular && !same
                ==> result->Err_0.msg@ == changed + (
            "visible upload source length changed: expected="@ + text::decimal(
                old(looked).expected_len as nat,
            ) + " actual="@ + text::decimal(stat.generation.len as nat)) + ")"@
            &&& role is Visible && old(looked).step is StatAgain && !same ==> result->Err_0.msg@
                == changed + "visible source length changed before content validation"@ + ")"@
            &&& result is Ok ==> (final(looked).step is StatAgain <==> role is Visible
                && old(looked).step is Stat)
            &&& result is Ok && !(final(looked).step is StatAgain) ==> final(looked).step is Scan
                && final(looked).generation == Some(stat.generation)
        }),
{
}

/// What is kept of a source that was read first is what was read of it.
pub proof fn law_read_sources_are_kept(
    check: SourceCheck,
    block: usize,
    snapshot: UploadFileSnapshot,
)
    requires
        check.scan is Some,
        check.generation is Some,
        call_ensures(SourceCheck::into_snapshot, (check, block), snapshot),
    ensures
        snapshot.path@ == check.path@,
        snapshot.generation == check.generation->Some_0,
        snapshot.sign@ == digest::hex(check.scan->Some_0.protocol_md5@),
        snapshot.content.sha256 == check.scan->Some_0.sha256,
        snapshot.content.block_sha256 == check.scan->Some_0.block_sha256,
        snapshot.content.verification_block_bytes == block,
        !snapshot.state.open,
        snapshot.state.accepted_handle_generation is None,
        snapshot.state.accepted_path_generation is None,
{
}

/// A source that is validated without a reason to read it is read again exactly
/// where it is in a state in which it was not found yet; what was read so is
/// not read the next time, until the handle is given up.
pub proof fn law_validated_sources_are_not_read_twice(
    handled: &mut UploadFileSnapshot,
    handle: FileGeneration,
    path: FileGeneration,
    planned: Result<ValidationPlan, MeowError>,
    pathed: &mut UploadFileSnapshot,
    again: Result<ValidationPlan, MeowError>,
    released: &mut UploadFileSnapshot,
    later: Result<ValidationPlan, MeowError>,
)
    requires
        call_ensures(
            UploadFileSnapshot::plan_validation,
            (
                old(handled),
                false,
                Ok::<FileGeneration, IoFailure>(handle),
                Ok::<FileGeneration, IoFailure>(path),
            ),
            planned,
        ),
        planned is Ok ==> call_ensures(
            UploadFileSnapshot::accept_handle,
            (handled, &planned->Ok_0),
            (),
        ),
        *old(pathed) == *final(handled),
        planned is Ok ==> call_ensures(
            UploadFileSnapshot::accept_path,
            (pathed, &planned->Ok_0),
            (),
        ),
        call_ensures(
            UploadFileSnapshot::plan_validation,
            (
                final(pathed),
                false,
                Ok::<FileGeneration, IoFailure>(handle),
                Ok::<FileGeneration, IoFailure>(path),
            ),
            again,
        ),
        *old(released) == *final(pathed),
        call_ensures(UploadFileSnapshot::release_handle, (released,), ()),
        call_ensures(
            UploadFileSnapshot::plan_validation,
            (
                final(released),
                false,
                Ok::<FileGeneration, IoFailure>(handle),
                Ok::<FileGeneration, IoFailure>(path),
            ),
            later,
        ),
    ensures
        planned is Ok,
        planned->Ok_0.scan_handle <==> old(handled).state.accepted_handle_generation != Some(
            handle,
        ),
        planned->Ok_0.scan_path <==> path != handle && old(handled).state.accepted_path_generation
            != Some(path),
        again is Ok,
        !again->Ok_0.scan_handle,
        !again->Ok_0.scan_path,
        later is Ok,
        later->Ok_0.scan_handle,
        !final(released).state.open,
        final(pathed).content == old(handled).content,
        final(pathed).sign == old(handled).sign,
{
}

/// Where the content is to be verified it is read, whatever is known of it; a
/// source that cannot be looked at is an error.
pub proof fn law_verifications_read_everything(
    snapshot: &UploadFileSnapshot,
    handle: Result<FileGeneration, IoFailure>,
    path: Result<FileGeneration, IoFailure>,
    planned: Result<ValidationPlan, MeowError>,
)
    requires
        call_ensures(UploadFileSnapshot::plan_validation, (snapshot, true, handle, path), planned),
    ensures
        planned is Ok <==> handle is Ok && path is Ok,
        planned matches Ok(plan) ==> plan.scan_handle && plan.scan_path && plan.handle_generation
            == handle->Ok_0 && plan.path_generation == path->Ok_0,
        handle matches Err(failure) ==> planned->Err_0.code == failure.spec_code(),
        handle is Ok && path is Err ==> planned->Err_0.code == InnerErrorCode::LocalFileRemoved
            && planned->Err_0.msg@ == "upload source path disappeared: "@ + snapshot.path@,
{
}

/// A source that was reopened is open and known, by handle and by path, in the
/// state it was found in.
pub proof fn law_reopened_sources_are_known(
    snapshot: &mut UploadFileSnapshot,
    generation: FileGeneration,
    planned: Result<ValidationPlan, MeowError>,
)
    requires
        call_ensures(UploadFileSnapshot::accept_reopened, (snapshot, generation), ()),
        call_ensures(
            UploadFileSnapshot::plan_validation,
            (
                final(snapshot),
                false,
                Ok::<FileGeneration, IoFailure>(generation),
                Ok::<FileGeneration, IoFailure>(generation),
            ),
            planned,
        ),
    ensures
        final(snapshot).state.open,
        planned is Ok,
        !planned->Ok_0.scan_handle,
        !planned->Ok_0.scan_path,
        final(snapshot).content == old(snapshot).content,
        final(snapshot).generation == old(snapshot).generation,
        final(snapshot).sign == old(snapshot).sign,
        final(snapshot).path == old(snapshot).path,
{
}

/// A source may not have grown since its task was made; blocks are as large as
/// chunks, within bounds.
pub proof fn law_sources_keep_to_their_task(
    snapshot: &UploadFileSnapshot,
    expected_len: u64,
    fits: Result<(), MeowError>,
    chunk_size: u64,
    block: usize,
)
    requires
        call_ensures(UploadFileSnapshot::validate_total_size, (snapshot, expected_len), fits),
        call_ensures(source_check::verification_block_bytes, (chunk_size,), block),
    ensures
        fits is Ok <==> snapshot.generation.len <= expected_len,
        fits matches Err(e) ==> e.code == InnerErrorCode::LocalFileRemoved && e.msg@
            == "upload source changed: path="@ + snapshot.path@ + " ("@ + (
        "source grew since task construction: expected="@ + text::decimal(expected_len as nat)
            + " actual="@ + text::decimal(snapshot.generation.len as nat)) + ")"@,
        1 <= block <= 1024 * 1024,
        1 <= chunk_size <= 1024 * 1024 ==> block == chunk_size,
        chunk_size > 1024 * 1024 ==> block == 1024 * 1024,
{
}

// ---------------------------------------------------------------------------
// Reading a source
// ---------------------------------------------------------------------------

/// A scan of a file that is fed in two pieces is the scan of the whole: its
/// digests are those of everything that was fed, in order.
pub proof fn law_scans_are_of_everything_fed(
    len: u64,
    block: usize,
    made: Result<ContentScanner, ScanError>,
    one: &mut ContentScanner,
    first: &[u8],
    two: &mut ContentScanner,
    second: &[u8],
    scan: ContentScan,
)
    requires
        call_ensures(ContentScanner::new, (len, block), made),
        made is Ok,
        *old(one) == made->Ok_0,
        first@.len() + second@.len() == len,
        call_ensures(ContentScanner::update, (one, first), ()),
        *old(two) == *final(one),
        call_ensures(ContentScanner::update, (two, second), ()),
        call_ensures(ContentScanner::finish, (*final(two),), scan),
    ensures
        1 <= block <= 1024 * 1024,
        scan.protocol_md5@ == digest::md5_digest(first@ + second@),
        scan.sha256@ == digest::sha256_digest(first@ + second@),
        scan.block_sha256@.len() == (len + block - 1) / block as int,
        len > 0 && len <= block ==> scan.block_sha256@.len() == 1 && scan.block_sha256@[0]@
            == digest::sha256_digest(first@ + second@),
{
    let content = final(two).spec_seen();
    assert(content =~= first@ + second@);
    let views = upload_file::digest_views(scan.block_sha256@);
    let digests = upload_file::block_digests(content, block as int);
    assert(views.len() == digests.len());
    assert((len + block - 1) / block as int >= 0) by (nonlinear_arith)
        requires
            block >= 1,
            len >= 0,
    ;
    if 0 < len <= block {
        assert((len + block - 1) / block as int == 1) by (nonlinear_arith)
            requires
                1 <= len <= block,
        ;
        assert(views[0] == scan.block_sha256@[0]@);
        assert(digests[0] == digest::sha256_digest(
            upload_file::block_of(content, block as int, 0),
        ));
        assert(upload_file::block_of(content, block as int, 0) =~= content);
    }
}

/// The signature of content does not depend on how it was fed, and is that of
/// the content in one piece.
pub proof fn law_signatures_do_not_depend_on_pieces(
    made: SignCalculator,
    one: &mut SignCalculator,
    first: &[u8],
    two: &mut SignCalculator,
    second: &[u8],
    sign: String,
    whole: &[u8],
    at_once: String,
)
    requires
        call_ensures(SignCalculator::new, (), made),
        *old(one) == made,
        call_ensures(SignCalculator::update, (one, first), ()),
        *old(two) == *final(one),
        call_ensures(SignCalculator::update, (two, second), ()),
        call_ensures(SignCalculator::finish, (*final(two),), sign),
        whole@ == first@ + second@,
        call_ensures(digest::calculate_sign_bytes, (whole,), at_once),
    ensures
        sign@ == at_once@,
        sign@ == digest::hex(digest::md5_digest(first@ + second@)),
{
    assert(final(two)@ =~= first@ + second@);
}

/// A read of a source is refused where it reaches beyond what was hashed, and
/// otherwise begins at the block that its first byte lies in.
pub proof fn law_reads_begin_within_what_was_hashed(
    snapshot: &UploadFileSnapshot,
    offset: u64,
    len: u64,
    result: Result<VerifiedRead<'_>, MeowError>,
    bytes: Result<u64, MeowError>,
)
    requires
        snapshot.content.verification_block_bytes >= 1,
        len <= u32::MAX,
        call_ensures(UploadFileSnapshot::begin_read, (snapshot, offset, len), result),
        call_ensures(UploadFileSnapshot::verification_read_bytes, (snapshot, offset, len), bytes),
    ensures
        result is Ok <==> offset + len <= snapshot.generation.len,
        bytes is Ok <==> offset + len <= snapshot.generation.len,
        result matches Ok(read) ==> read.range().0 == offset && read.range().1 == offset + len
            && read.supplied().len() == 0,
        bytes matches Ok(bytes) ==> bytes >= len,
        len == 0 && bytes is Ok ==> bytes->Ok_0 == 0,
        result is Err && offset + len <= u64::MAX ==> result->Err_0.code
            == InnerErrorCode::LocalFileRemoved,
        result is Err && offset + len > u64::MAX ==> result->Err_0.code
            == InnerErrorCode::InvalidRange,
{
    let b = snapshot.block();
    if bytes is Ok && len > 0 {
        let last = offset + len - 1;
        assert((last / b + 1) * b > last) by (nonlinear_arith)
            requires
                b >= 1,
                last >= 0,
        ;
        assert((offset as int / b) * b <= offset) by (nonlinear_arith)
            requires
                b >= 1,
        ;
    }
}

/// A block is taken exactly where it has the digest that was recorded of it;
/// one that has another says that the source changed.
pub proof fn law_blocks_are_taken_by_their_digest(
    read: &mut VerifiedRead<'_>,
    bytes: &[u8],
    result: Result<(), MeowError>,
)
    requires
        0 <= old(read).at_block(),
        call_ensures(VerifiedRead::<'_>::on_block, (read, bytes), result),
    ensures
        ({
            let i = old(read).at_block();
            let digests = old(read).source().content.block_sha256@;
            &&& result is Ok <==> i < digests.len() && digests[i]@ == digest::sha256_digest(bytes@)
            &&& result is Ok ==> final(read).supplied() == old(read).supplied() + bytes@
                && final(read).at_block() == i + 1
            &&& result is Err ==> final(read).supplied() == old(read).supplied()
                && final(read).at_block() == i
            &&& i < digests.len() ==> (result matches Err(e) ==> e.code
                == InnerErrorCode::ChecksumMismatch)
            &&& i >= digests.len() ==> (result matches Err(e) ==> e.code
                == InnerErrorCode::InvalidTaskState)
        }),
{
}

/// A read at a place goes on behind what it has got, after an interruption at
/// the same place, and fails where nothing more comes.
pub proof fn law_positioned_reads_go_on(
    offset: u64,
    len: usize,
    made: PositionedRead,
    read: &mut PositionedRead,
    got: Result<usize, IoFailure>,
    result: Result<(), IoFailure>,
    next: Result<Option<(u64, usize)>, IoFailure>,
)
    requires
        call_ensures(PositionedRead::new, (offset, len), made),
        *old(read) == made,
        offset + len <= u64::MAX,
        got matches Ok(count) ==> count <= len,
        call_ensures(PositionedRead::on_read, (read, got), result),
        call_ensures(PositionedRead::next, (final(read),), next),
    ensures
        result is Ok <==> (got matches Ok(count) && count > 0) || (got matches Err(failure)
            && failure.kind is Interrupted),
        got matches Ok(count) ==> count == len ==> next is Ok && next->Ok_0 is None,
        got matches Ok(count) ==> count < len ==> next is Ok && next->Ok_0 == Some(
            ((offset + count) as u64, count),
        ),
        got is Err && len > 0 ==> next is Ok && next->Ok_0 == Some((offset, 0usize)),
        got matches Ok(count) ==> count == 0 ==> result is Err && result->Err_0.kind
            is UnexpectedEof,
        got matches Err(failure) ==> result is Err ==> result->Err_0 == failure,
{
}

// ---------------------------------------------------------------------------
// Targets
// ---------------------------------------------------------------------------

/// A target and its record are owned together by all of their keys, each once
/// and in one order, whichever comes first.
pub proof fn law_ownership_does_not_depend_on_order(
    target: Vec<Vec<u8>>,
    sidecar: Vec<Vec<u8>>,
    keys: Vec<Vec<u8>>,
    other: Vec<Vec<u8>>,
    k: Seq<u8>,
)
    requires
        call_ensures(target_lease::ownership_keys, (target, sidecar), keys),
        call_ensures(target_lease::ownership_keys, (sidecar, target), other),
    ensures
        target_lease::key_bytes(keys@).contains(k) <==> target_lease::key_bytes(target@).contains(k)
            || target_lease::key_bytes(sidecar@).contains(k),
        target_lease::key_bytes(other@).contains(k) <==> target_lease::key_bytes(keys@).contains(k),
        order::in_order(order::byte_less(), target_lease::key_bytes(keys@)),
{
}

/// Two spellings of a target share a key where they are one path or one file,
/// and different paths and files have different keys.
pub proof fn law_targets_share_keys(
    path: &[u8],
    other: &[u8],
    a: Vec<u8>,
    b: Vec<u8>,
    dev: u64,
    ino: u64,
    file: Vec<u8>,
)
    requires
        call_ensures(target_lease::path_key, (path,), a),
        call_ensures(target_lease::path_key, (other,), b),
        call_ensures(target_lease::inode_key, (dev, ino), file),
    ensures
        a@ == b@ <==> path@ == other@,
        a@ != file@,
        a@.len() == path@.len() + 5,
{
    reveal_strlit("path:");
    reveal_strlit("inode:");
    reveal_strlit(":");
    let head = target_lease::ascii("path:"@);
    assert(head.len() == 5);
    if a@ == b@ {
        assert(path@ =~= a@.skip(5));
        assert(other@ =~= b@.skip(5));
    }
    let shown = "inode:"@ + text::decimal(dev as nat) + ":"@ + text::decimal(ino as nat);
    assert(shown[0] == 'i');
    assert(file@[0] == 'i' as u8);
    assert(a@[0] == head[0]);
    assert(head[0] == 'p' as u8);
}

/// A lock that another holds is said to be held, however the system says it;
/// any other failure stays what it is.
pub proof fn law_held_locks_are_said_to_be_held(
    failure: IoFailure,
    held: Option<i32>,
    classified: IoFailure,
)
    requires
        call_ensures(target_lease::lock_failure_given, (failure, held), classified),
    ensures
        failure.kind is WouldBlock || failure.raw_os_error == held ==> classified.kind
            is WouldBlock && classified.raw_os_error is None,
        !(failure.kind is WouldBlock) && failure.raw_os_error != held ==> classified == failure,
{
}

/// A path that does not exist yet is resolved by its nearest directory that
/// does: each missing name is kept, the outermost comes out first, and a
/// failure of another kind ends the walk.
pub proof fn law_missing_directories_are_walked_up(
    made: LeasePathWalk,
    one: &mut LeasePathWalk,
    inner: Vec<u8>,
    inner_parent: Option<Vec<u8>>,
    up: Result<Vec<u8>, IoFailure>,
    two: &mut LeasePathWalk,
    outer: Vec<u8>,
    outer_parent: Option<Vec<u8>>,
    further: Result<Vec<u8>, IoFailure>,
    names: Vec<Vec<u8>>,
    missing: IoFailure,
    failed: &mut LeasePathWalk,
    failure: IoFailure,
    stopped: Result<Vec<u8>, IoFailure>,
)
    requires
        missing.kind is NotFound,
        !(failure.kind is NotFound),
        call_ensures(LeasePathWalk::new, (), made),
        *old(one) == made,
        call_ensures(LeasePathWalk::on_failure, (one, missing, Some(inner), inner_parent), up),
        *old(two) == *final(one),
        call_ensures(LeasePathWalk::on_failure, (two, missing, Some(outer), outer_parent), further),
        call_ensures(LeasePathWalk::into_components, (*final(two),), names),
        call_ensures(
            LeasePathWalk::on_failure,
            (failed, failure, Some(inner), inner_parent),
            stopped,
        ),
    ensures
        up is Ok,
        inner_parent matches Some(parent) ==> parent@.len() > 0 ==> up->Ok_0@ == parent@,
        inner_parent is None ==> up->Ok_0@ == target_lease::ascii("."@),
        names@.len() == 2,
        names@[0]@ == outer@,
        names@[1]@ == inner@,
        stopped is Err,
        stopped->Err_0 == failure,
        final(failed)@ == old(failed)@,
{
    let kept = final(two)@;
    assert(kept =~= seq![inner@, outer@]);
    let shown = target_lease::key_bytes(names@);
    assert(shown.len() == names@.len());
    assert(shown == kept.reverse());
    assert(shown[0] == names@[0]@);
    assert(shown[1] == names@[1]@);
}

/// A target may lie anywhere but in the directory that holds the records; the
/// record of a target lies in that directory, beside it, under a name of its
/// own.
pub proof fn law_records_have_a_directory_of_their_own(
    names: &Vec<Vec<u8>>,
    result: Result<(), IoFailure>,
    parent: Vec<Vec<u8>>,
    file_name: &[u8],
    record: Vec<Vec<u8>>,
)
    requires
        call_ensures(target_lease::ensure_target_outside_sidecar_namespace, (names,), result),
        call_ensures(target_lease::sidecar_names, (parent, file_name), record),
    ensures
        result is Ok <==> !target_lease::key_bytes(names@).contains(
            target_lease::ascii(".rusty-cat"@),
        ),
        result matches Err(failure) ==> failure.kind is InvalidInput,
        record@.len() == parent@.len() + 2,
        record@[parent@.len() as int]@ == target_lease::ascii(".rusty-cat"@),
        record@[parent@.len() as int + 1]@ == target_lease::ascii(
            digest::hex(digest::sha256_digest(file_name@)) + ".rcdl"@,
        ),
{
    let shown = target_lease::key_bytes(record@);
    let before = target_lease::key_bytes(parent@);
    assert(shown.len() == record@.len());
    assert(before.len() == parent@.len());
    assert(shown[parent@.len() as int] == record@[parent@.len() as int]@);
    assert(shown[parent@.len() as int + 1] == record@[parent@.len() as int + 1]@);
}

/// The lock of a key is named by the digest of the key.
pub proof fn law_locks_are_named_by_digest(key: &[u8], name: String)
    requires
        call_ensures(target_lease::lock_name, (key,), name),
    ensures
        name@ == digest::hex(digest::sha256_digest(key@)) + ".lock"@,
        name@.len() == 2 * digest::sha256_digest(key@).len() + 5,
{
    reveal_strlit(".lock");
}

// ---------------------------------------------------------------------------
// Headers
// ---------------------------------------------------------------------------

/// Of pairs that name a header more than once the last one counts; names are
/// taken without regard to case, and no others are there.
pub proof fn law_the_last_value_of_a_header_counts(
    pairs: Seq<(Seq<char>, Seq<char>)>,
    i: int,
    name: Seq<char>,
)
    ensures
        0 <= i < pairs.len() && (forall|j: int|
            i < j < pairs.len() ==> log::lower_text((#[trigger] pairs[j]).0) != log::lower_text(
                pairs[i].0,
            )) ==> {
            let built = headers::headers_of(pairs);
            let key = log::lower_text(pairs[i].0);
            built.contains_key(key) && built[key] == seq![vstd::utf8::encode_utf8(pairs[i].1)]
        },
        headers::headers_of(pairs).contains_key(name) ==> exists|j: int|
            0 <= j < pairs.len() && log::lower_text((#[trigger] pairs[j]).0) == name,
    decreases pairs.len(),
{
    if pairs.len() > 0 {
        let front = pairs.drop_last();
        law_the_last_value_of_a_header_counts(front, i, name);
        if 0 <= i < front.len() {
            assert(front[i] == pairs[i]);
            assert(pairs[pairs.len() - 1] == pairs.last());
            if forall|j: int|
                i < j < pairs.len() ==> log::lower_text((#[trigger] pairs[j]).0)
                    != log::lower_text(pairs[i].0) {
                assert forall|j: int| i < j < front.len() implies log::lower_text(
                    (#[trigger] front[j]).0,
                ) != log::lower_text(front[i].0) by {
                    assert(front[j] == pairs[j]);
                }
            }
        }
        if headers::headers_of(pairs).contains_key(name) {
            if log::lower_text(pairs.last().0) == name {
                assert(pairs[pairs.len() - 1] == pairs.last());
            } else {
                let j = choose|j: int|
                    0 <= j < front.len() && log::lower_text((#[trigger] front[j]).0) == name;
                assert(pairs[j] == front[j]);
            }
        }
    }
}

/// Headers are built exactly of pairs that can be headers, and hold the last
/// value of each name; the first pair that cannot is named with what is wrong.
pub proof fn law_headers_are_built_of_valid_pairs(
    pairs: Vec<(String, String)>,
    result: Result<HeaderMap<HeaderValue>, MeowError>,
    i: int,
)
    requires
        call_ensures(headers::headers_from_iter, (pairs,), result),
        0 <= i < pairs@.len(),
    ensures
        result is Ok ==> headers::is_header_name(pairs@[i].0@) && headers::is_header_text(
            pairs@[i].1@,
        ),
        result is Ok && (forall|j: int|
            i < j < pairs@.len() ==> log::lower_text((#[trigger] pairs@[j]).0@) != log::lower_text(
                pairs@[i].0@,
            )) ==> {
            let built = headers::header_contents(result->Ok_0);
            let key = log::lower_text(pairs@[i].0@);
            built.contains_key(key) && built[key] == seq![vstd::utf8::encode_utf8(pairs@[i].1@)]
        },
        result matches Err(e) ==> e.code == InnerErrorCode::ParameterEmpty,
        result matches Err(e) ==> (forall|j: int|
            0 <= j < pairs@.len() ==> headers::is_header_name((#[trigger] pairs@[j]).0@)
                && headers::is_header_text(pairs@[j].1@)) ==> e.msg@
            == "header map cannot hold more names"@,
        i == 0 && !headers::is_header_name(pairs@[0].0@) ==> result is Err && result->Err_0.msg@
            == "invalid header name '"@ + pairs@[0].0@ + "': "@ + "invalid HTTP header name"@,
        i == 0 && headers::is_header_name(pairs@[0].0@) && !headers::is_header_text(pairs@[0].1@)
            ==> result is Err && result->Err_0.msg@ == "invalid header value for '"@ + pairs@[0].0@
            + "': "@ + "failed to parse header value"@,
{
    let texts = headers::pair_texts(pairs@);
    assert(texts[i] == (pairs@[i].0@, pairs@[i].1@));
    law_the_last_value_of_a_header_counts(texts, i, texts[i].0);
    if forall|j: int|
        i < j < pairs@.len() ==> log::lower_text((#[trigger] pairs@[j]).0@) != log::lower_text(
            pairs@[i].0@,
        ) {
        assert forall|j: int| i < j < texts.len() implies log::lower_text((#[trigger] texts[j]).0)
            != log::lower_text(texts[i].0) by {
            assert(texts[j].0 == pairs@[j].0@);
        }
    }
    if result is Ok {
        assert(headers::is_header_pair(texts[i]));
    }
    if forall|j: int|
        0 <= j < pairs@.len() ==> headers::is_header_name((#[trigger] pairs@[j]).0@)
            && headers::is_header_text(pairs@[j].1@) {
        assert forall|j: int| 0 <= j < texts.len() implies headers::is_header_pair(
            #[trigger] texts[j],
        ) by {
            assert(texts[j] == (pairs@[j].0@, pairs@[j].1@));
        }
    }
    if !headers::is_header_name(pairs@[0].0@) || !headers::is_header_text(pairs@[0].1@) {
        assert(texts[0] == (pairs@[0].0@, pairs@[0].1@));
        assert(!headers::is_header_pair(texts[0]));
    }
}

/// What can be a header: names are of letters, digits and a few signs, and not
/// empty; values have no control characters but tabs.
pub proof fn law_header_characters(name: Seq<char>, value: Seq<char>, i: int)
    ensures
        headers::is_header_name(name) ==> name.len() > 0,
        headers::is_header_name(name) && 0 <= i < name.len() ==> name[i] != ' ' && name[i] != ':'
            && name[i] != '\n' && name[i] != '\r' && name[i] != '"' && (name[i] as u32) < 128,
        headers::is_header_text(value) && 0 <= i < value.len() ==> value[i] != '\n' && value[i]
            != '\r' && value[i] as u32 != 0 && value[i] as u32 != 127,
        headers::is_header_text(Seq::empty()),
        0 < name.len() <= 65535 && (forall|j: int|
            0 <= j < name.len() ==> (('a' <= #[trigger] name[j] && name[j] <= 'z') || ('A'
                <= name[j] && name[j] <= 'Z') || ('0' <= name[j] && name[j] <= '9') || name[j]
                == '-')) ==> headers::is_header_name(name),
{
}

/// Headers that are merged into others replace those of their names, each by
/// its last value, and leave the others.
pub proof fn law_merged_headers_replace(
    target: &mut HeaderMap<HeaderValue>,
    extra: &HeaderMap<HeaderValue>,
    merged: bool,
    name: Seq<char>,
)
    requires
        call_ensures(headers::merge_headers, (target, extra), merged),
    ensures
        ({
            let before = headers::header_contents(*old(target));
            let after = headers::header_contents(*final(target));
            let more = headers::header_contents(*extra);
            &&& !merged ==> after == before
            &&& before.dom().len() + more.dom().len() <= 6553 ==> merged
            &&& merged && more.contains_key(name) ==> after.contains_key(name) && after[name]
                == seq![more[name].last()]
            &&& merged && !more.contains_key(name) ==> after.contains_key(name)
                == before.contains_key(name)
            &&& merged && !more.contains_key(name) && before.contains_key(name) ==> after[name]
                == before[name]
        }),
{
}

/// A scanner asks for what it has not seen yet, up to a buffer at a time.
pub proof fn law_scanners_ask_for_the_rest(scanner: &ContentScanner, bytes: usize, offset: u64)
    requires
        scanner.spec_seen().len() <= scanner.spec_len(),
        call_ensures(ContentScanner::want, (scanner,), bytes),
        call_ensures(ContentScanner::offset, (scanner,), offset),
    ensures
        offset == scanner.spec_seen().len(),
        offset + bytes <= scanner.spec_len(),
        bytes == 0 <==> offset == scanner.spec_len(),
        bytes <= 1024 * 1024,
        bytes < 1024 * 1024 ==> offset + bytes == scanner.spec_len(),
{
}

/// A read asks for its blocks in order, each whole, up to the end of the
/// source; a failed one says which bytes were to be read.
pub proof fn law_reads_ask_for_whole_blocks(
    read: &VerifiedRead<'_>,
    block: Option<(u64, usize)>,
    failure: &IoFailure,
    e: MeowError,
)
    requires
        read.source().block() >= 1,
        call_ensures(VerifiedRead::<'_>::next_block, (read,), block),
        call_ensures(VerifiedRead::<'_>::read_failed, (read, failure), e),
    ensures
        block is Some <==> read.range().0 < read.range().1 && read.at_block()
            * read.source().block() < read.range().1,
        block matches Some((start, len)) ==> {
            &&& start == read.at_block() * read.source().block()
            &&& 0 < len <= read.source().block()
            &&& start + len <= read.source().generation.len
            &&& len < read.source().block() ==> start + len == read.source().generation.len
        },
        failure.kind is UnexpectedEof ==> e.code == InnerErrorCode::LocalFileRemoved,
        !(failure.kind is UnexpectedEof) ==> e.code == failure.spec_code() && e.msg@
            == "positioned upload read failed: path="@ + read.source().path@ + " offset="@
            + text::decimal(read.range().0 as nat) + " len="@ + text::decimal(
            (read.range().1 - read.range().0) as nat,
        ),
{
}

/// What a source tells is what is kept of it.
pub proof fn law_sources_tell_what_is_kept(
    snapshot: &UploadFileSnapshot,
    sign: &str,
    scratch: u64,
    found: FileGeneration,
    differs: Result<bool, MeowError>,
    failure: IoFailure,
    failed: Result<bool, MeowError>,
    check: &SourceCheck,
    len: u64,
)
    requires
        call_ensures(UploadFileSnapshot::sign, (snapshot,), sign),
        call_ensures(UploadFileSnapshot::verification_scratch_bytes, (snapshot,), scratch),
        call_ensures(
            UploadFileSnapshot::initial_path_differs,
            (snapshot, Ok::<FileGeneration, IoFailure>(found)),
            differs,
        ),
        call_ensures(
            UploadFileSnapshot::initial_path_differs,
            (snapshot, Err::<FileGeneration, IoFailure>(failure)),
            failed,
        ),
        call_ensures(SourceCheck::scan_len, (check,), len),
    ensures
        sign@ == snapshot.sign@,
        scratch == snapshot.content.verification_block_bytes,
        differs is Ok,
        differs->Ok_0 <==> found != snapshot.generation,
        failed is Err,
        failed->Err_0.code == failure.spec_code(),
        failed->Err_0.msg@ == "stat upload source path failed: "@ + snapshot.path@,
        len == check.expected_len,
{
}

/// A target is leased by its path, by its path without regard to case where the
/// system has none, and by its file where that is there.
pub proof fn law_targets_are_leased_by_their_names(
    canonical: &[u8],
    folded: Option<Vec<u8>>,
    inode: Option<(u64, u64)>,
    keys: Vec<Vec<u8>>,
)
    requires
        call_ensures(target_lease::lease_keys, (canonical, folded, inode), keys),
    ensures
        keys@.len() == 1 + (if folded is Some {
            1int
        } else {
            0
        }) + (if inode is Some {
            1int
        } else {
            0
        }),
        keys@[0]@ == target_lease::ascii("path:"@) + canonical@,
        folded matches Some(folded) ==> keys@[1]@ == target_lease::ascii("path-casefold:"@)
            + folded@,
        inode matches Some((dev, ino)) ==> keys@.last()@ == target_lease::ascii(
            "inode:"@ + text::decimal(dev as nat) + ":"@ + text::decimal(ino as nat),
        ),
{
    let shown = target_lease::key_bytes(keys@);
    assert(shown.len() == keys@.len());
    assert(shown[0] == keys@[0]@);
    if keys@.len() > 1 {
        assert(shown[1] == keys@[1]@);
    }
    assert(shown[keys@.len() - 1] == keys@[keys@.len() - 1]@);
}

/// A lock is said to be held where the failure says so, and a failure that says
/// nothing of the system stays what it is.
pub proof fn law_failed_locks_are_classified(failure: IoFailure, classified: IoFailure)
    requires
        call_ensures(target_lease::lock_failure, (failure,), classified),
    ensures
        failure.kind is WouldBlock ==> classified.kind is WouldBlock,
        !(failure.kind is WouldBlock) && failure.raw_os_error is None ==> classified == failure,
        classified.kind is WouldBlock || classified == failure,
{
}

/// Headers are built in the same way of borrowed pairs.
pub proof fn law_headers_are_built_of_borrowed_pairs(
    pairs: &[(&str, &str)],
    result: Result<HeaderMap<HeaderValue>, MeowError>,
    i: int,
)
    requires
        call_ensures(headers::headers_from_pairs, (pairs,), result),
        0 <= i < pairs@.len(),
    ensures
        result is Ok ==> headers::is_header_name(pairs@[i].0@) && headers::is_header_text(
            pairs@[i].1@,
        ),
        result is Ok && (forall|j: int|
            i < j < pairs@.len() ==> log::lower_text((#[trigger] pairs@[j]).0@) != log::lower_text(
                pairs@[i].0@,
            )) ==> {
            let built = headers::header_contents(result->Ok_0);
            let key = log::lower_text(pairs@[i].0@);
            built.contains_key(key) && built[key] == seq![vstd::utf8::encode_utf8(pairs@[i].1@)]
        },
        result matches Err(e) ==> e.code == InnerErrorCode::ParameterEmpty,
{
    let texts = headers::str_pair_texts(pairs@);
    assert(texts[i] == (pairs@[i].0@, pairs@[i].1@));
    law_the_last_value_of_a_header_counts(texts, i, texts[i].0);
    if forall|j: int|
        i < j < pairs@.len() ==> log::lower_text((#[trigger] pairs@[j]).0@) != log::lower_text(
            pairs@[i].0@,
        ) {
        assert forall|j: int| i < j < texts.len() implies log::lower_text((#[trigger] texts[j]).0)
            != log::lower_text(texts[i].0) by {
            assert(texts[j].0 == pairs@[j].0@);
        }
    }
    if result is Ok {
        assert(headers::is_header_pair(texts[i]));
    }
}

/// What a read hands out is the range that was asked for, out of blocks that
/// each had the digest that was recorded of it.
pub proof fn law_reads_hand_out_verified_bytes(read: VerifiedRead<'_>, bytes: Vec<u8>, i: int)
    requires
        read.first_block() <= i < read.at_block(),
        call_ensures(VerifiedRead::<'_>::finish, (read,), bytes),
    ensures
        bytes@.len() == read.range().1 - read.range().0,
        bytes@.len() > 0 ==> bytes@ == read.supplied().subrange(
            read.range().0 - read.base(),
            read.range().1 - read.base(),
        ),
        ({
            let block = read.source().block();
            let end = if (i + 1) * block <= read.source().generation.len {
                (i + 1) * block
            } else {
                read.source().generation.len as int
            };
            let digests = read.source().content.block_sha256@;
            0 <= i < digests.len() && digests[i]@ == digest::sha256_digest(
                read.supplied().subrange(i * block - read.base(), end - read.base()),
            )
        }),
{
    assert(upload_file::block_verified(
        read.source().content,
        i,
        read.supplied().subrange(
            i * read.source().block() - read.base(),
            upload_file::block_end(
                read.source().generation.len as int,
                read.source().block(),
                i,
            ) - read.base(),
        ),
    ));
}

/// Digests are the same exactly where their bytes are, hexadecimal text has two
/// characters for a byte, and a chunk size fits exactly where the machine can
/// hold it.
pub proof fn law_digests_and_sizes(
    a: &[u8; 32],
    b: &[u8; 32],
    same: bool,
    bytes: &[u8],
    hex: String,
    chunk_size: u64,
    fits: Result<usize, MeowError>,
)
    requires
        call_ensures(digest::same_digest, (a, b), same),
        call_ensures(digest::to_hex, (bytes,), hex),
        call_ensures(UploadFileSnapshot::validate_chunk_size, (chunk_size,), fits),
    ensures
        same <==> a@ == b@,
        hex@.len() == 2 * bytes@.len(),
        fits is Ok <==> chunk_size <= usize::MAX,
        fits is Ok ==> fits->Ok_0 == chunk_size,
        fits matches Err(e) ==> e.code == InnerErrorCode::IoError,
{
}

/// The keys of an owned target ascend: of two, the first is a part of the other
/// or has the smaller byte where they first differ.
pub proof fn law_owned_keys_ascend(
    target: Vec<Vec<u8>>,
    sidecar: Vec<Vec<u8>>,
    keys: Vec<Vec<u8>>,
    i: int,
    j: int,
)
    requires
        call_ensures(target_lease::ownership_keys, (target, sidecar), keys),
        0 <= i < j < keys@.len(),
    ensures
        exists|p: int|
            0 <= p <= keys@[i]@.len() && p < keys@[j]@.len() && (p == keys@[i]@.len()
                || #[trigger] keys@[i]@[p] < keys@[j]@[p]) && (forall|q: int|
                0 <= q < p ==> keys@[i]@[q] == keys@[j]@[q]),
        keys@[i]@ != keys@[j]@,
{
    let shown = target_lease::key_bytes(keys@);
    assert(shown[i] == keys@[i]@);
    assert(shown[j] == keys@[j]@);
    assert(order::before(order::byte_less(), shown[i], shown[j]));
    let p = choose|p: int| order::before_at(order::byte_less(), shown[i], shown[j], p);
    assert(0 <= p <= keys@[i]@.len() && p < keys@[j]@.len());
    if p < keys@[i]@.len() {
        assert(keys@[i]@[p] < keys@[j]@[p]);
    }
    if keys@[i]@ == keys@[j]@ {
        assert(p < keys@[i]@.len());
    }
}

} // verus!
