//! Inspecting an upload's source file, step by step.
//!
//! A check opens a file, looks at its metadata, scans its content, looks at the
//! metadata again and compares the content with what is known of it. The steps
//! that touch the disk are done elsewhere; their outcomes come in here, and
//! each is accepted or refused.

use vstd::prelude::*;
use vstd::string::*;

use crate::digest;
use crate::digest::to_hex;
use crate::error;
use crate::error::{InnerErrorCode, IoErrorKind, IoFailure, MeowError};
use crate::text;
use crate::text::push_decimal;
use crate::upload_file;
use crate::upload_file::{content_changed_error, map_source_io_error, source_changed_error, visible_path_requires_hash, ContentIdentity, ContentScan, FileGeneration, UploadFileSnapshot, UploadFileState, HASH_BUFFER_BYTES};

verus! {

/// Which file is inspected, and why.
#[derive(Debug, Clone, Copy, PartialEq, Eq, Structural)]
pub enum SourceRole {
    /// The source of a new task.
    Initial,
    /// The source of a task that runs again.
    Reopened,
    /// The file that a running task holds open.
    Opened { verify_content: bool },
    /// The file that the path names now.
    Visible { initial: bool },
}

/// What the check waits for.
#[derive(Debug, Clone, Copy, PartialEq, Eq, Structural)]
pub enum SourceStep {
    Open,
    Stat,
    /// A second look at the metadata, right before the scan.
    StatAgain,
    Scan,
    /// The look at the metadata after the scan.
    Restat,
    Compare,
}

/// What metadata says of an open file.
#[derive(Debug, Clone, Copy, PartialEq, Eq, Structural)]
pub struct FileStat {
    pub regular: bool,
    pub generation: FileGeneration,
}

/// The word by which messages name the file.
pub open spec fn source_word(role: SourceRole) -> Seq<char> {
    match role {
        SourceRole::Initial => ""@,
        SourceRole::Reopened => "reopened "@,
        SourceRole::Opened { .. } => "opened "@,
        SourceRole::Visible { .. } => "visible "@,
    }
}

fn source_word_of(role: SourceRole) -> (word: &'static str)
    ensures
        word@ == source_word(role),
{
    match role {
        SourceRole::Initial => "",
        SourceRole::Reopened => "reopened ",
        SourceRole::Opened { .. } => "opened ",
        SourceRole::Visible { .. } => "visible ",
    }
}

/// The code of a file that cannot be opened. A missing file was never there
/// when the task is made, and was removed later on.
pub open spec fn open_failure_code(role: SourceRole, failure: IoFailure) -> InnerErrorCode {
    if failure.kind != IoErrorKind::NotFound {
        InnerErrorCode::IoError
    } else if role is Initial || role == (SourceRole::Visible { initial: true }) {
        InnerErrorCode::FileNotFound
    } else {
        InnerErrorCode::LocalFileRemoved
    }
}

/// The text of a file that cannot be opened.
pub open spec fn open_failure_text(role: SourceRole, path: Seq<char>) -> Seq<char> {
    match role {
        SourceRole::Initial => "open upload source failed: "@ + path,
        SourceRole::Reopened => "reopen upload source failed: "@ + path,
        _ => "open visible upload source failed: "@ + path,
    }
}

/// The text of metadata that cannot be read.
pub open spec fn stat_failure_text(
    role: SourceRole,
    step: SourceStep,
    path: Seq<char>,
) -> Seq<char> {
    (if step is Restat {
        "re-stat "@
    } else {
        "stat "@
    }) + source_word(role) + "upload source failed: "@ + path
}

/// The text of content that cannot be read.
pub open spec fn scan_failure_text(role: SourceRole, path: Seq<char>) -> Seq<char> {
    match role {
        SourceRole::Initial => "calculate upload source signature failed: "@ + path,
        SourceRole::Reopened => "re-hash reopened upload source failed: "@ + path,
        _ => "hash "@ + source_word(role) + "upload source failed: "@ + path,
    }
}

/// How the metadata of a file is refused before its scan, if it is.
pub open spec fn stat_refusal(
    role: SourceRole,
    step: SourceStep,
    path: Seq<char>,
    expected_len: u64,
    stat: FileStat,
) -> Option<(InnerErrorCode, Seq<char>)> {
    let changed = |detail: Seq<char>|
        Some((InnerErrorCode::LocalFileRemoved, upload_file::source_changed_text(path, detail)));
    let same_len = stat.generation.len == expected_len;
    match role {
        SourceRole::Initial => if stat.regular {
            None
        } else {
            Some((InnerErrorCode::IoError, "upload source is not a regular file: "@ + path))
        },
        SourceRole::Reopened => if stat.regular && same_len {
            None
        } else {
            changed("reopened source length or type changed"@)
        },
        SourceRole::Opened { .. } => if same_len {
            None
        } else {
            changed("opened source length changed before content validation"@)
        },
        SourceRole::Visible { .. } => if step is StatAgain {
            if same_len {
                None
            } else {
                changed("visible source length changed before content validation"@)
            }
        } else if !stat.regular {
            changed("visible upload source is not a regular file"@)
        } else if !same_len {
            changed(
                "visible upload source length changed: expected="@ + text::decimal(
                    expected_len as nat,
                ) + " actual="@ + text::decimal(stat.generation.len as nat),
            )
        } else {
            None
        },
    }
}

/// What is said of metadata that changed during the scan.
pub open spec fn restat_detail(role: SourceRole) -> Seq<char> {
    match role {
        SourceRole::Initial => "metadata changed while calculating signature"@,
        SourceRole::Reopened => "metadata changed while re-hashing the reopened source"@,
        _ => source_word(role) + "source metadata changed while validating content"@,
    }
}

/// What is said of content that differs.
pub open spec fn mismatch_detail(role: SourceRole) -> Seq<char> {
    match role {
        SourceRole::Opened { verify_content: true } =>
            "upload source content changed before completion"@,
        SourceRole::Opened { verify_content: false } =>
            "opened source content changed after its metadata changed"@,
        SourceRole::Visible { .. } => "visible upload source has different content"@,
        _ => "reopened source content no longer matches its SHA-256 identity"@,
    }
}

/// The step after the first look at the metadata.
pub open spec fn after_stat(role: SourceRole, step: SourceStep) -> SourceStep {
    if role is Visible && step is Stat {
        SourceStep::StatAgain
    } else {
        SourceStep::Scan
    }
}

/// A check in progress.
#[derive(Debug)]
pub struct SourceCheck {
    pub role: SourceRole,
    /// The path as shown in messages.
    pub path: String,
    /// The length that the file has to have; for a new source the one it has.
    pub expected_len: u64,
    pub step: SourceStep,
    /// The metadata right before the scan.
    pub generation: Option<FileGeneration>,
    pub scan: Option<ContentScan>,
}

impl SourceCheck {
    pub open spec fn wf(self) -> bool {
        &&& self.step is Scan ==> self.generation is Some
        &&& self.step is Restat ==> self.generation is Some && self.scan is Some
        &&& self.step is Compare ==> self.generation is Some && self.scan is Some
        &&& self.step is Open ==> !(self.role is Opened)
        &&& self.step is StatAgain ==> self.role is Visible
    }

    /// Starts to inspect a file. One that is held open needs no opening.
    pub fn begin(role: SourceRole, path: &str, expected_len: u64) -> (check: SourceCheck)
        ensures
            check.wf(),
            check.role == role,
            check.path@ == path@,
            check.expected_len == expected_len,
            check.step == if role is Opened {
                SourceStep::Stat
            } else {
                SourceStep::Open
            },
            check.generation is None,
            check.scan is None,
    {
        SourceCheck {
            role,
            path: path.to_owned(),
            expected_len,
            step: match role {
                SourceRole::Opened { .. } => SourceStep::Stat,
                _ => SourceStep::Open,
            },
            generation: None,
            scan: None,
        }
    }

    /// The file was opened, or could not be.
    pub fn on_open(&mut self, opened: Result<(), IoFailure>) -> (result: Result<(), MeowError>)
        requires
            old(self).wf(),
            old(self).step is Open,
        ensures
            final(self).wf(),
            opened is Ok ==> result is Ok && *final(self) == (SourceCheck {
                step: SourceStep::Stat,
                ..*old(self)
            }),
            opened is Err ==> *final(self) == *old(self) && error::fails_with(
                result,
                open_failure_code(old(self).role, opened->Err_0),
                open_failure_text(old(self).role, old(self).path@),
            ),
    {
        match opened {
            Ok(()) => {
                self.step = SourceStep::Stat;
                Ok(())
            },
            Err(failure) => {
                let code = match failure.kind {
                    IoErrorKind::NotFound => match self.role {
                        SourceRole::Initial => InnerErrorCode::FileNotFound,
                        SourceRole::Visible { initial: true } => InnerErrorCode::FileNotFound,
                        _ => InnerErrorCode::LocalFileRemoved,
                    },
                    _ => InnerErrorCode::IoError,
                };
                let mut text = match self.role {
                    SourceRole::Initial => "open upload source failed: ".to_owned(),
                    SourceRole::Reopened => "reopen upload source failed: ".to_owned(),
                    _ => "open visible upload source failed: ".to_owned(),
                };
                text.append(self.path.as_str());
                Err(MeowError::from_code(code, text))
            },
        }
    }

    fn stat_failed(&self, failure: &IoFailure) -> (e: MeowError)
        ensures
            error::is_error(
                e,
                failure.spec_code(),
                stat_failure_text(self.role, self.step, self.path@),
            ),
    {
        let mut text = match self.step {
            SourceStep::Restat => "re-stat ".to_owned(),
            _ => "stat ".to_owned(),
        };
        text.append(source_word_of(self.role));
        text.append("upload source failed: ");
        text.append(self.path.as_str());
        MeowError::from_io(text, failure)
    }

    fn check_stat(&self, stat: &FileStat) -> (result: Result<(), MeowError>)
        ensures
            match stat_refusal(self.role, self.step, self.path@, self.expected_len, *stat) {
                None => result is Ok,
                Some((code, text)) => error::fails_with(result, code, text),
            },
    {
        let path = self.path.as_str();
        let same_len = stat.generation.len == self.expected_len;
        match self.role {
            SourceRole::Initial => {
                if !stat.regular {
                    let mut text = "upload source is not a regular file: ".to_owned();
                    text.append(path);
                    return Err(MeowError::from_code(InnerErrorCode::IoError, text));
                }
            },
            SourceRole::Reopened => {
                if !stat.regular || !same_len {
                    return Err(
                        source_changed_error(path, "reopened source length or type changed"),
                    );
                }
            },
            SourceRole::Opened { .. } => {
                if !same_len {
                    return Err(
                        source_changed_error(
                            path,
                            "opened source length changed before content validation",
                        ),
                    );
                }
            },
            SourceRole::Visible { .. } => {
                match self.step {
                    SourceStep::StatAgain => {
                        if !same_len {
                            return Err(
                                source_changed_error(
                                    path,
                                    "visible source length changed before content validation",
                                ),
                            );
                        }
                    },
                    _ => {
                        if !stat.regular {
                            return Err(
                                source_changed_error(
                                    path,
                                    "visible upload source is not a regular file",
                                ),
                            );
                        }
                        if !same_len {
                            let mut detail =
                                "visible upload source length changed: expected=".to_owned();
                            push_decimal(&mut detail, self.expected_len as u128);
                            detail.append(" actual=");
                            push_decimal(&mut detail, stat.generation.len as u128);
                            return Err(source_changed_error(path, detail.as_str()));
                        }
                    },
                }
            },
        }
        Ok(())
    }

    /// The metadata before the scan came in.
    pub fn on_stat(&mut self, stat: Result<FileStat, IoFailure>) -> (result: Result<(), MeowError>)
        requires
            old(self).wf(),
            old(self).step is Stat || old(self).step is StatAgain,
        ensures
            final(self).wf(),
            match stat {
                Err(failure) => *final(self) == *old(self) && error::fails_with(
                    result,
                    failure.spec_code(),
                    stat_failure_text(old(self).role, old(self).step, old(self).path@),
                ),
                Ok(stat) => match stat_refusal(
                    old(self).role,
                    old(self).step,
                    old(self).path@,
                    old(self).expected_len,
                    stat,
                ) {
                    Some((code, text)) => *final(self) == *old(self) && error::fails_with(
                        result,
                        code,
                        text,
                    ),
                    None => result is Ok && *final(self) == (SourceCheck {
                        step: after_stat(old(self).role, old(self).step),
                        expected_len: stat.generation.len,
                        generation: Some(stat.generation),
                        ..*old(self)
                    }),
                },
            },
    {
        let stat = match stat {
            Ok(stat) => stat,
            Err(failure) => {
                return Err(self.stat_failed(&failure));
            },
        };
        match self.check_stat(&stat) {
            Ok(()) => {},
            Err(e) => {
                return Err(e);
            },
        }
        self.step = match self.role {
            SourceRole::Visible { .. } => match self.step {
                SourceStep::Stat => SourceStep::StatAgain,
                _ => SourceStep::Scan,
            },
            _ => SourceStep::Scan,
        };
        self.expected_len = stat.generation.len;
        self.generation = Some(stat.generation);
        Ok(())
    }

    /// How many bytes to scan.
    pub fn scan_len(&self) -> (len: u64)
        ensures
            len == self.expected_len,
    {
        self.expected_len
    }

    /// The content was scanned, or could not be.
    pub fn on_scan(&mut self, scan: Result<ContentScan, IoFailure>) -> (result: Result<
        (),
        MeowError,
    >)
        requires
            old(self).wf(),
            old(self).step is Scan,
        ensures
            final(self).wf(),
            match scan {
                Ok(scan) => result is Ok && *final(self) == (SourceCheck {
                    step: SourceStep::Restat,
                    scan: Some(scan),
                    ..*old(self)
                }),
                Err(failure) => *final(self) == *old(self) && result is Err
                    && upload_file::is_source_io_error(
                    result->Err_0,
                    old(self).path@,
                    scan_failure_text(old(self).role, old(self).path@),
                    failure,
                ),
            },
    {
        match scan {
            Ok(scan) => {
                self.step = SourceStep::Restat;
                self.scan = Some(scan);
                Ok(())
            },
            Err(failure) => {
                let mut text = match self.role {
                    SourceRole::Initial => "calculate upload source signature failed: ".to_owned(),
                    SourceRole::Reopened => "re-hash reopened upload source failed: ".to_owned(),
                    _ => {
                        let mut text = "hash ".to_owned();
                        text.append(source_word_of(self.role));
                        text.append("upload source failed: ");
                        text
                    },
                };
                text.append(self.path.as_str());
                Err(map_source_io_error(self.path.as_str(), text, &failure))
            },
        }
    }

    /// The metadata after the scan came in: it has to be what it was before.
    pub fn on_restat(&mut self, stat: Result<FileGeneration, IoFailure>) -> (result: Result<
        (),
        MeowError,
    >)
        requires
            old(self).wf(),
            old(self).step is Restat,
        ensures
            final(self).wf(),
            match stat {
                Err(failure) => *final(self) == *old(self) && error::fails_with(
                    result,
                    failure.spec_code(),
                    stat_failure_text(old(self).role, SourceStep::Restat, old(self).path@),
                ),
                Ok(generation) => if Some(generation) == old(self).generation {
                    result is Ok && *final(self) == (SourceCheck {
                        step: SourceStep::Compare,
                        ..*old(self)
                    })
                } else {
                    *final(self) == *old(self) && error::fails_with(
                        result,
                        InnerErrorCode::LocalFileRemoved,
                        upload_file::source_changed_text(
                            old(self).path@,
                            restat_detail(old(self).role),
                        ),
                    )
                },
            },
    {
        let generation = match stat {
            Ok(generation) => generation,
            Err(failure) => {
                return Err(self.stat_failed(&failure));
            },
        };
        let unchanged = match self.generation {
            Some(before) => before == generation,
            None => false,
        };
        if !unchanged {
            let detail = match self.role {
                SourceRole::Initial => "metadata changed while calculating signature".to_owned(),
                SourceRole::Reopened =>
                    "metadata changed while re-hashing the reopened source".to_owned(),
                _ => {
                    let mut detail = source_word_of(self.role).to_owned();
                    detail.append("source metadata changed while validating content");
                    detail
                },
            };
            return Err(source_changed_error(self.path.as_str(), detail.as_str()));
        }
        self.step = SourceStep::Compare;
        Ok(())
    }

    /// Compares the content with what is known of it. On success the metadata
    /// under which it was scanned is handed back.
    pub fn compare(self, identity: &ContentIdentity) -> (result: Result<FileGeneration, MeowError>)
        requires
            self.wf(),
            self.step is Compare,
            !(self.role is Initial),
        ensures
            identity.spec_matches(self.scan->Some_0) ==> result is Ok && Some(result->Ok_0)
                == self.generation,
            !identity.spec_matches(self.scan->Some_0) ==> error::fails_with(
                result,
                InnerErrorCode::ChecksumMismatch,
                upload_file::content_changed_text(self.path@, mismatch_detail(self.role)),
            ),
    {
        let generation = self.generation.unwrap();
        let scan = self.scan.unwrap();
        if !identity.matches(&scan) {
            let detail = match self.role {
                SourceRole::Opened { verify_content: true } =>
                    "upload source content changed before completion",
                SourceRole::Opened { verify_content: false } =>
                    "opened source content changed after its metadata changed",
                SourceRole::Visible { .. } => "visible upload source has different content",
                _ => "reopened source content no longer matches its SHA-256 identity",
            };
            return Err(content_changed_error(self.path.as_str(), detail));
        }
        Ok(generation)
    }

    /// The snapshot of a new source.
    pub fn into_snapshot(self, verification_block_bytes: usize) -> (snapshot: UploadFileSnapshot)
        requires
            self.wf(),
            self.step is Compare,
            self.role is Initial,
        ensures
            snapshot.path@ == self.path@,
            Some(snapshot.generation) == self.generation,
            snapshot.sign@ == digest::hex(self.scan->Some_0.protocol_md5@),
            snapshot.content.sha256 == self.scan->Some_0.sha256,
            snapshot.content.block_sha256 == self.scan->Some_0.block_sha256,
            snapshot.content.verification_block_bytes == verification_block_bytes,
            snapshot.state == closed_state(),
    {
        let generation = self.generation.unwrap();
        let scan = self.scan.unwrap();
        UploadFileSnapshot {
            path: self.path,
            generation,
            sign: to_hex(scan.protocol_md5.as_slice()),
            content: ContentIdentity {
                sha256: scan.sha256,
                verification_block_bytes,
                block_sha256: scan.block_sha256,
            },
            state: UploadFileState {
                open: false,
                accepted_handle_generation: None,
                accepted_path_generation: None,
            },
        }
    }
}

/// Nothing is open, and nothing was accepted yet.
pub open spec fn closed_state() -> UploadFileState {
    UploadFileState {
        open: false,
        accepted_handle_generation: None,
        accepted_path_generation: None,
    }
}

/// The size of the blocks that are hashed on their own: the chunk size of the
/// upload, but at least one byte and at most the read buffer.
pub fn verification_block_bytes(chunk_size: u64) -> (block: usize)
    ensures
        block == if chunk_size < 1 {
            1
        } else if chunk_size > HASH_BUFFER_BYTES {
            HASH_BUFFER_BYTES as int
        } else {
            chunk_size as int
        },
{
    if chunk_size < 1 {
        1
    } else if chunk_size > HASH_BUFFER_BYTES as u64 {
        HASH_BUFFER_BYTES
    } else {
        chunk_size as usize
    }
}

/// What is to be scanned to validate a source.
#[derive(Debug, Clone, Copy, PartialEq, Eq, Structural)]
pub struct ValidationPlan {
    pub handle_generation: FileGeneration,
    pub path_generation: FileGeneration,
    pub scan_handle: bool,
    pub scan_path: bool,
}

impl UploadFileSnapshot {
    /// Whether the path has to be opened and hashed too once a new source was
    /// scanned: where it names a file with other metadata by then.
    pub fn initial_path_differs(&self, stat: Result<FileGeneration, IoFailure>) -> (result: Result<
        bool,
        MeowError,
    >)
        ensures
            match stat {
                Ok(generation) => result is Ok && result->Ok_0 == (generation != self.generation),
                Err(failure) => error::fails_with(
                    result,
                    failure.spec_code(),
                    "stat upload source path failed: "@ + self.path@,
                ),
            },
    {
        match stat {
            Ok(generation) => Ok(!(generation == self.generation)),
            Err(failure) => {
                let mut text = "stat upload source path failed: ".to_owned();
                text.append(self.path.as_str());
                Err(MeowError::from_io(text, &failure))
            },
        }
    }

    /// The source was opened again and has the content that was hashed.
    pub fn accept_reopened(&mut self, generation: FileGeneration)
        ensures
            *final(self) == (UploadFileSnapshot {
                state: UploadFileState {
                    open: true,
                    accepted_handle_generation: Some(generation),
                    accepted_path_generation: Some(generation),
                },
                ..*old(self)
            }),
    {
        self.state = UploadFileState {
            open: true,
            accepted_handle_generation: Some(generation),
            accepted_path_generation: Some(generation),
        };
    }

    /// Forgets the open file and what was accepted of it.
    pub fn release_handle(&mut self)
        ensures
            *final(self) == (UploadFileSnapshot { state: closed_state(), ..*old(self) }),
    {
        self.state = UploadFileState {
            open: false,
            accepted_handle_generation: None,
            accepted_path_generation: None,
        };
    }

    /// What a validation scans. Before completion everything is scanned;
    /// otherwise only what has metadata under which it was not accepted yet.
    pub open spec fn spec_plan(
        self,
        verify_content: bool,
        handle_generation: FileGeneration,
        path_generation: FileGeneration,
    ) -> ValidationPlan {
        ValidationPlan {
            handle_generation,
            path_generation,
            scan_handle: verify_content || self.state.accepted_handle_generation != Some(
                handle_generation,
            ),
            scan_path: verify_content || (path_generation != handle_generation
                && self.state.accepted_path_generation != Some(path_generation)),
        }
    }

    /// Decides what a validation scans, from the metadata of the open file and
    /// of the path.
    pub fn plan_validation(
        &self,
        verify_content: bool,
        handle: Result<FileGeneration, IoFailure>,
        path: Result<FileGeneration, IoFailure>,
    ) -> (result: Result<ValidationPlan, MeowError>)
        ensures
            match (handle, path) {
                (Err(failure), _) => error::fails_with(
                    result,
                    failure.spec_code(),
                    "stat opened upload source failed: "@ + self.path@,
                ),
                (Ok(_), Err(_)) => error::fails_with(
                    result,
                    InnerErrorCode::LocalFileRemoved,
                    "upload source path disappeared: "@ + self.path@,
                ),
                (Ok(handle_generation), Ok(path_generation)) => result is Ok && result->Ok_0
                    == self.spec_plan(verify_content, handle_generation, path_generation),
            },
    {
        let handle_generation = match handle {
            Ok(generation) => generation,
            Err(failure) => {
                let mut text = "stat opened upload source failed: ".to_owned();
                text.append(self.path.as_str());
                return Err(MeowError::from_io(text, &failure));
            },
        };
        let path_generation = match path {
            Ok(generation) => generation,
            Err(_) => {
                let mut text = "upload source path disappeared: ".to_owned();
                text.append(self.path.as_str());
                return Err(MeowError::from_code(InnerErrorCode::LocalFileRemoved, text));
            },
        };
        let known_handle = match self.state.accepted_handle_generation {
            Some(accepted) => accepted == handle_generation,
            None => false,
        };
        Ok(
            ValidationPlan {
                handle_generation,
                path_generation,
                scan_handle: verify_content || !known_handle,
                scan_path: visible_path_requires_hash(
                    verify_content,
                    &path_generation,
                    &handle_generation,
                    self.state.accepted_path_generation,
                ),
            },
        )
    }

    /// The open file passed its part of a validation.
    pub fn accept_handle(&mut self, plan: &ValidationPlan)
        ensures
            *final(self) == (UploadFileSnapshot {
                state: UploadFileState {
                    accepted_handle_generation: if plan.scan_handle {
                        Some(plan.handle_generation)
                    } else {
                        old(self).state.accepted_handle_generation
                    },
                    ..old(self).state
                },
                ..*old(self)
            }),
    {
        if plan.scan_handle {
            self.state = UploadFileState {
                open: self.state.open,
                accepted_handle_generation: Some(plan.handle_generation),
                accepted_path_generation: self.state.accepted_path_generation,
            };
        }
    }

    /// The path passed its part of a validation.
    pub fn accept_path(&mut self, plan: &ValidationPlan)
        ensures
            *final(self) == (UploadFileSnapshot {
                state: UploadFileState {
                    accepted_path_generation: if plan.scan_path || plan.path_generation
                        == plan.handle_generation {
                        Some(plan.path_generation)
                    } else {
                        old(self).state.accepted_path_generation
                    },
                    ..old(self).state
                },
                ..*old(self)
            }),
    {
        if plan.scan_path || plan.path_generation == plan.handle_generation {
            self.state = UploadFileState {
                open: self.state.open,
                accepted_handle_generation: self.state.accepted_handle_generation,
                accepted_path_generation: Some(plan.path_generation),
            };
        }
    }
}

/// The state of a snapshot after a validation that went well.
pub open spec fn validated_state(state: UploadFileState, plan: ValidationPlan) -> UploadFileState {
    UploadFileState {
        accepted_handle_generation: if plan.scan_handle {
            Some(plan.handle_generation)
        } else {
            state.accepted_handle_generation
        },
        accepted_path_generation: if plan.scan_path || plan.path_generation
            == plan.handle_generation {
            Some(plan.path_generation)
        } else {
            state.accepted_path_generation
        },
        ..state
    }
}

/// Completion never takes equal metadata for proof of content: both the open
/// file and the path are scanned.
pub proof fn law_completion_scans_everything(
    snapshot: UploadFileSnapshot,
    handle: FileGeneration,
    path: FileGeneration,
)
    ensures
        snapshot.spec_plan(true, handle, path).scan_handle,
        snapshot.spec_plan(true, handle, path).scan_path,
{
}

/// After a validation that went well, a further one under the same metadata
/// scans nothing, unless the upload is about to complete.
pub proof fn law_validation_is_remembered(
    snapshot: UploadFileSnapshot,
    verify_content: bool,
    handle: FileGeneration,
    path: FileGeneration,
)
    ensures
        ({
            let plan = snapshot.spec_plan(verify_content, handle, path);
            let after = UploadFileSnapshot {
                state: validated_state(snapshot.state, plan),
                ..snapshot
            };
            let again = after.spec_plan(false, handle, path);
            !again.scan_handle && !again.scan_path
        }),
{
}

/// A source that did not change passes every check: regular, of the known
/// length, with the same metadata before and after the scan, and with the
/// content that its identity was taken from.
pub proof fn law_unchanged_source_passes(
    role: SourceRole,
    path: Seq<char>,
    stat: FileStat,
    identity: ContentIdentity,
    content: Seq<u8>,
    scan: ContentScan,
)
    requires
        stat.regular,
        stat.generation.len == content.len(),
        identity.identifies(content),
        upload_file::is_scan_of(scan, content, identity.verification_block_bytes as int),
    ensures
        stat_refusal(role, SourceStep::Stat, path, stat.generation.len, stat) is None,
        stat_refusal(role, SourceStep::StatAgain, path, stat.generation.len, stat) is None,
        identity.spec_matches(scan),
{
}

/// The identity of a new source is the one of the content that was scanned,
/// and its signature is the upload signature of that content.
pub proof fn law_snapshot_identifies_its_content(
    snapshot: UploadFileSnapshot,
    scan: ContentScan,
    content: Seq<u8>,
)
    requires
        snapshot.wf(),
        upload_file::is_scan_of(scan, content, snapshot.block()),
        snapshot.sign@ == digest::hex(scan.protocol_md5@),
        snapshot.content.sha256 == scan.sha256,
        snapshot.content.block_sha256 == scan.block_sha256,
    ensures
        snapshot.content.identifies(content),
        snapshot.sign@ == digest::content_sign(content),
{
}

} // verus!
