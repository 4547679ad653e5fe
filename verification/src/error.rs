//! The error type of the library and the classification of local I/O failures.

use vstd::prelude::*;
use vstd::string::*;

verus! {

/// The reason of a failure, as callers branch on it.
#[derive(Debug, Clone, Copy, PartialEq, Eq, Structural)]
pub enum InnerErrorCode {
    ParameterEmpty,
    DuplicateTaskError,
    ClientClosed,
    TaskNotFound,
    CommandSendFailed,
    CommandResponseFailed,
    RuntimeCreationFailedError,
    FileNotFound,
    IoError,
    HttpError,
    HttpClientBuildFailed,
    ResponseStatusError,
    ResponseParseError,
    InvalidRange,
    InvalidTaskState,
    LockPoisoned,
    ChecksumMismatch,
    TaskCanceled,
    DiskFull,
    LocalFileRemoved,
    BinaryTaskQueueFull,
    BinaryBodyTooLarge,
    Unknown,
}

impl InnerErrorCode {
    /// The stable number of a code, for the codes that callers most often
    /// branch on; the others have none here.
    pub open spec fn spec_number(self) -> Option<i32> {
        match self {
            InnerErrorCode::ParameterEmpty => Some(102i32),
            InnerErrorCode::DuplicateTaskError => Some(103i32),
            InnerErrorCode::ClientClosed => Some(107i32),
            InnerErrorCode::TaskNotFound => Some(108i32),
            InnerErrorCode::CommandSendFailed => Some(111i32),
            InnerErrorCode::ChecksumMismatch => Some(116i32),
            InnerErrorCode::InvalidTaskState => Some(117i32),
            InnerErrorCode::TaskCanceled => Some(120i32),
            InnerErrorCode::DiskFull => Some(121i32),
            InnerErrorCode::LocalFileRemoved => Some(122i32),
            InnerErrorCode::BinaryTaskQueueFull => Some(123i32),
            InnerErrorCode::BinaryBodyTooLarge => Some(124i32),
            _ => None,
        }
    }

    /// See [`Self::spec_number`].
    pub fn number(self) -> (number: Option<i32>)
        ensures
            number == self.spec_number(),
    {
        match self {
            InnerErrorCode::ParameterEmpty => Some(102),
            InnerErrorCode::DuplicateTaskError => Some(103),
            InnerErrorCode::ClientClosed => Some(107),
            InnerErrorCode::TaskNotFound => Some(108),
            InnerErrorCode::CommandSendFailed => Some(111),
            InnerErrorCode::ChecksumMismatch => Some(116),
            InnerErrorCode::InvalidTaskState => Some(117),
            InnerErrorCode::TaskCanceled => Some(120),
            InnerErrorCode::DiskFull => Some(121),
            InnerErrorCode::LocalFileRemoved => Some(122),
            InnerErrorCode::BinaryTaskQueueFull => Some(123),
            InnerErrorCode::BinaryBodyTooLarge => Some(124),
            _ => None,
        }
    }
}

/// A failure: its reason, a text for people, and the HTTP status of the
/// response that caused it where there was one.
#[derive(Debug)]
pub struct MeowError {
    pub code: InnerErrorCode,
    pub msg: String,
    pub http_status: Option<u16>,
}

/// Whether `error` has this reason and this text, and no HTTP status.
pub open spec fn is_error(error: MeowError, code: InnerErrorCode, msg: Seq<char>) -> bool {
    &&& error.code == code
    &&& error.msg@ == msg
    &&& error.http_status is None
}

/// Whether a result is that error.
pub open spec fn fails_with<T>(
    result: Result<T, MeowError>,
    code: InnerErrorCode,
    msg: Seq<char>,
) -> bool {
    result is Err && is_error(result->Err_0, code, msg)
}

/// Whether a result is the error of a response with this status.
pub open spec fn fails_with_status<T>(
    result: Result<T, MeowError>,
    msg: Seq<char>,
    status: u16,
) -> bool {
    result matches Err(e) && e.code == InnerErrorCode::ResponseStatusError && e.msg@ == msg
        && e.http_status == Some(status)
}

impl Clone for MeowError {
    fn clone(&self) -> (copy: Self)
        ensures
            copy == *self,
    {
        MeowError { code: self.code, msg: self.msg.clone(), http_status: self.http_status }
    }
}

impl MeowError {
    pub fn from_code(code: InnerErrorCode, msg: String) -> (error: MeowError)
        ensures
            is_error(error, code, msg@),
            error.msg == msg,
    {
        MeowError { code, msg, http_status: None }
    }

    pub fn from_code_str(code: InnerErrorCode, msg: &str) -> (error: MeowError)
        ensures
            is_error(error, code, msg@),
    {
        MeowError { code, msg: msg.to_owned(), http_status: None }
    }

    /// An error without further text.
    pub fn from_code1(code: InnerErrorCode) -> (error: MeowError)
        ensures
            is_error(error, code, Seq::empty()),
    {
        MeowError { code, msg: String::new(), http_status: None }
    }

    /// Attaches the status of the HTTP response that caused the error.
    pub fn with_http_status(self, status: u16) -> (error: MeowError)
        ensures
            error == (MeowError { http_status: Some(status), ..self }),
    {
        MeowError { code: self.code, msg: self.msg, http_status: Some(status) }
    }

    pub fn code(&self) -> (code: InnerErrorCode)
        ensures
            code == self.code,
    {
        self.code
    }

    pub fn msg(&self) -> (msg: &str)
        ensures
            msg@ == self.msg@,
    {
        self.msg.as_str()
    }

    pub fn http_status(&self) -> (status: Option<u16>)
        ensures
            status == self.http_status,
    {
        self.http_status
    }

    /// Wraps a local I/O failure: a missing path is `LocalFileRemoved`, a full
    /// disk is `DiskFull`, everything else is `IoError`.
    pub fn from_io(context: String, failure: &IoFailure) -> (error: MeowError)
        ensures
            is_error(error, failure.spec_code(), context@),
    {
        MeowError::from_code(failure.code(), context)
    }
}

/// The kinds of local I/O failure that the library tells apart.
#[derive(Debug, Clone, Copy, PartialEq, Eq, Structural)]
pub enum IoErrorKind {
    NotFound,
    PermissionDenied,
    WouldBlock,
    Interrupted,
    UnexpectedEof,
    InvalidInput,
    InvalidData,
    StorageFull,
    Other,
}

/// The operating system's number for "no space left on device".
pub const ENOSPC: i32 = 28;

/// A failed local I/O operation.
#[derive(Debug, Clone, Copy, PartialEq, Eq, Structural)]
pub struct IoFailure {
    pub kind: IoErrorKind,
    pub raw_os_error: Option<i32>,
}

impl IoFailure {
    pub open spec fn spec_code(self) -> InnerErrorCode {
        if self.kind == IoErrorKind::NotFound {
            InnerErrorCode::LocalFileRemoved
        } else if self.kind == IoErrorKind::StorageFull || self.raw_os_error == Some(ENOSPC) {
            InnerErrorCode::DiskFull
        } else {
            InnerErrorCode::IoError
        }
    }

    /// A failure that carries no operating-system number.
    pub fn new(kind: IoErrorKind) -> (failure: IoFailure)
        ensures
            failure == (IoFailure { kind, raw_os_error: None }),
    {
        IoFailure { kind, raw_os_error: None }
    }

    /// The general classification of the failure.
    pub fn code(&self) -> (code: InnerErrorCode)
        ensures
            code == self.spec_code(),
    {
        match self.kind {
            IoErrorKind::NotFound => InnerErrorCode::LocalFileRemoved,
            IoErrorKind::StorageFull => InnerErrorCode::DiskFull,
            _ => match self.raw_os_error {
                Some(raw) => if raw == ENOSPC {
                    InnerErrorCode::DiskFull
                } else {
                    InnerErrorCode::IoError
                },
                None => InnerErrorCode::IoError,
            },
        }
    }
}

} // verus!
