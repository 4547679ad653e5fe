//! Tasks as the scheduler works on them.

use vstd::prelude::*;
use vstd::string::*;

use reqwest::header::{HeaderMap, HeaderValue};

use crate::direction::{Direction, KeyView, UniqueId};
use crate::digest;
use crate::digest::{calculate_sign_bytes, to_hex};
use crate::direction;
use crate::error;
use crate::error::{InnerErrorCode, MeowError};
use crate::ids::TaskId;
use crate::pounce_task::{BreakpointDownloadHttpConfig, LocalPath, PounceTask, ProtocolId, UploadSource};
use crate::upload_file::UploadFileSnapshot;

verus! {

/// The protocols of tasks that name none.
#[derive(Debug, Clone, Copy, PartialEq, Eq, Structural)]
pub struct DefaultProtocols {
    pub upload: ProtocolId,
    pub download: ProtocolId,
}

/// A task with everything resolved that its description left open.
pub struct InnerTask {
    pub task_id: TaskId,
    pub file_sign: String,
    /// Whether the file of an upload is still to be read, so that its signature
    /// is not known and left empty. Such a task stays paused.
    pub unread: bool,
    pub file_name: String,
    pub file_path: LocalPath,
    pub upload_source: Option<UploadSource>,
    pub direction: Direction,
    pub total_size: u64,
    pub chunk_size: u64,
    pub url: String,
    pub method: String,
    pub headers: HeaderMap<HeaderValue>,
    pub breakpoint_upload: ProtocolId,
    pub breakpoint_download: ProtocolId,
    pub breakpoint_download_http: BreakpointDownloadHttpConfig,
    pub max_chunk_retries: u32,
    pub max_upload_prepare_retries: u32,
    pub max_parts_in_flight: usize,
}

impl InnerTask {
    /// What identifies the transfer: an upload by what it sends, a download by
    /// where it comes from. An upload whose file is still to be read goes by the
    /// path of the file until then.
    pub open spec fn spec_dedupe_key(self) -> KeyView {
        match self.direction {
            Direction::Upload => (
                Direction::Upload,
                if self.unread {
                    "unread:"@ + digest::hex(self.source_path())
                } else {
                    self.file_sign@
                },
            ),
            Direction::Download => (Direction::Download, self.url@),
        }
    }

    /// The path of the file that an upload reads.
    pub open spec fn source_path(self) -> Seq<u8> {
        match self.upload_source {
            Some(UploadSource::File(path)) => path.bytes@,
            _ => self.file_path.bytes@,
        }
    }

    /// Whether a local file is read during the transfer.
    pub open spec fn reads_file(self) -> bool {
        self.direction == Direction::Upload && self.upload_source matches Some(
            UploadSource::File(_),
        )
    }

    /// Whether two uploads read the same file as far as can be told without
    /// reading it: what is at the path of an upload that is still to be read is
    /// not known to differ from what another one found there.
    pub open spec fn may_repeat(self, other: InnerTask) -> bool {
        self.reads_file() && other.reads_file() && self.source_path() == other.source_path() && (
        self.unread || other.unread)
    }

    /// See [`InnerTask::may_repeat`].
    pub fn shares_unread_source(&self, other: &InnerTask) -> (shares: bool)
        ensures
            shares == self.may_repeat(*other),
    {
        (self.unread || other.unread) && self.has_upload_file() && other.has_upload_file()
            && self.source().same(other.source())
    }

    pub fn dedupe_key(&self) -> (key: UniqueId)
        ensures
            direction::key_view(key) == self.spec_dedupe_key(),
    {
        match self.direction {
            Direction::Upload => {
                if self.unread {
                    let mut name = "unread:".to_owned();
                    name.append(to_hex(self.source().bytes.as_slice()).as_str());
                    (Direction::Upload, name)
                } else {
                    (Direction::Upload, self.file_sign.clone())
                }
            },
            Direction::Download => (Direction::Download, self.url.clone()),
        }
    }

    /// The file that an upload reads.
    pub fn source(&self) -> (path: &LocalPath)
        ensures
            path.bytes@ == self.source_path(),
    {
        match &self.upload_source {
            Some(UploadSource::File(path)) => path,
            _ => &self.file_path,
        }
    }

    pub fn has_upload_file(&self) -> (has: bool)
        ensures
            has == self.reads_file(),
    {
        match self.direction {
            Direction::Upload => match &self.upload_source {
                Some(UploadSource::File(_)) => true,
                _ => false,
            },
            Direction::Download => false,
        }
    }

    /// The file that has to be hashed before the task can be made, if any. Its
    /// chunks have to fit in memory.
    pub fn file_to_hash(pounce: &PounceTask) -> (result: Result<Option<LocalPath>, MeowError>)
        ensures
            match hashed_file(*pounce) {
                None => result is Ok && result->Ok_0 is None,
                Some(path) => if pounce.chunk_size <= usize::MAX {
                    result is Ok && (result->Ok_0 matches Some(found) && found.bytes@ == path)
                } else {
                    chunk_refused(result)
                },
            },
    {
        match pounce.direction {
            Direction::Download => Ok(None),
            Direction::Upload => {
                let path = match &pounce.upload_source {
                    Some(UploadSource::Bytes(_)) => {
                        return Ok(None);
                    },
                    Some(UploadSource::File(path)) => path,
                    None => &pounce.file_path,
                };
                match UploadFileSnapshot::validate_chunk_size(pounce.chunk_size) {
                    Ok(_) => Ok(Some(path.clone())),
                    Err(e) => Err(e),
                }
            },
        }
    }

    /// Makes the task that a description asks for. `hashed` is the outcome of
    /// hashing the file that [`InnerTask::file_to_hash`] names; without it the
    /// file is still to be read. The snapshot of that file comes back with the
    /// task.
    pub fn from_pounce(
        task_id: TaskId,
        pounce: PounceTask,
        default_download_http: BreakpointDownloadHttpConfig,
        default_protocols: DefaultProtocols,
        hashed: Option<Result<UploadFileSnapshot, MeowError>>,
    ) -> (result: Result<(InnerTask, Option<UploadFileSnapshot>), MeowError>)
        ensures
            hashed_file(pounce) is Some && pounce.chunk_size > usize::MAX ==> chunk_refused(result),
            hashed_file(pounce) is Some && pounce.chunk_size <= usize::MAX && (hashed matches Some(
                Err(_),
            )) ==> result is Err && result->Err_0 == hashed->Some_0->Err_0,
            result is Ok <==> (hashed_file(pounce) is None || (pounce.chunk_size <= usize::MAX && !(
            hashed matches Some(Err(_))))),
            result matches Ok((task, snapshot)) ==> {
                &&& resolves(task, pounce, task_id, default_download_http, default_protocols)
                &&& task.unread == (hashed_file(pounce) is Some && hashed is None)
                &&& if hashed_file(pounce) is None {
                    snapshot is None && task.file_sign@ == unhashed_sign(pounce)
                } else {
                    match hashed {
                        Some(Ok(hashed)) => snapshot == Some(hashed) && task.file_sign@
                            == hashed.sign@,
                        _ => snapshot is None && task.file_sign@.len() == 0,
                    }
                }
            },
    {
        let mut unread = false;
        let mut snapshot: Option<UploadFileSnapshot> = None;
        let file_sign = match pounce.direction {
            Direction::Upload => match &pounce.upload_source {
                Some(UploadSource::Bytes(bytes)) => calculate_sign_bytes(bytes.as_slice()),
                _ => {
                    match UploadFileSnapshot::validate_chunk_size(pounce.chunk_size) {
                        Ok(_) => {},
                        Err(e) => {
                            return Err(e);
                        },
                    }
                    match hashed {
                        Some(Ok(hashed)) => {
                            let sign = hashed.sign.clone();
                            snapshot = Some(hashed);
                            sign
                        },
                        Some(Err(e)) => {
                            return Err(e);
                        },
                        None => {
                            unread = true;
                            String::new()
                        },
                    }
                },
            },
            Direction::Download => match &pounce.client_file_sign {
                Some(sign) => sign.clone(),
                None => String::new(),
            },
        };
        let upload_source = match pounce.upload_source {
            Some(source) => Some(source),
            None => match pounce.direction {
                Direction::Upload => Some(UploadSource::File(pounce.file_path.clone())),
                Direction::Download => None,
            },
        };
        let task = InnerTask {
            task_id,
            file_sign,
            unread,
            file_name: pounce.file_name,
            file_path: pounce.file_path,
            upload_source,
            direction: pounce.direction,
            total_size: pounce.total_size,
            chunk_size: pounce.chunk_size,
            url: pounce.url,
            method: pounce.method,
            headers: pounce.headers,
            breakpoint_upload: match pounce.breakpoint_upload {
                Some(protocol) => protocol,
                None => default_protocols.upload,
            },
            breakpoint_download: match pounce.breakpoint_download {
                Some(protocol) => protocol,
                None => default_protocols.download,
            },
            breakpoint_download_http: match pounce.breakpoint_download_http {
                Some(config) => config,
                None => default_download_http,
            },
            max_chunk_retries: pounce.max_chunk_retries,
            max_upload_prepare_retries: pounce.max_upload_prepare_retries,
            max_parts_in_flight: pounce.max_parts_in_flight,
        };
        Ok((task, snapshot))
    }
}

/// The file whose content identifies an upload, if it has one. An upload that
/// names no source sends the file at its path.
pub open spec fn hashed_file(pounce: PounceTask) -> Option<Seq<u8>> {
    match (pounce.direction, pounce.upload_source) {
        (Direction::Download, _) => None,
        (Direction::Upload, Some(UploadSource::Bytes(_))) => None,
        (Direction::Upload, Some(UploadSource::File(path))) => Some(path.bytes@),
        (Direction::Upload, None) => Some(pounce.file_path.bytes@),
    }
}

/// The signature of a task that hashes no file: of bytes in memory their own,
/// of a download the one that its caller gave, if any.
pub open spec fn unhashed_sign(pounce: PounceTask) -> Seq<char> {
    match (pounce.direction, pounce.upload_source) {
        (Direction::Upload, Some(UploadSource::Bytes(bytes))) => digest::content_sign(bytes@),
        _ => match pounce.client_file_sign {
            Some(sign) => sign@,
            None => Seq::empty(),
        },
    }
}

/// The refusal of a chunk size that does not fit in memory.
pub open spec fn chunk_refused<T>(result: Result<T, MeowError>) -> bool {
    error::fails_with(
        result,
        InnerErrorCode::IoError,
        "upload chunk size does not fit this target architecture"@,
    )
}

/// What a task takes over from its description.
pub open spec fn resolves(
    task: InnerTask,
    pounce: PounceTask,
    task_id: TaskId,
    default_download_http: BreakpointDownloadHttpConfig,
    default_protocols: DefaultProtocols,
) -> bool {
    &&& task.task_id == task_id
    &&& task.file_name == pounce.file_name
    &&& task.file_path == pounce.file_path
    &&& match pounce.upload_source {
        Some(source) => task.upload_source == Some(source),
        None => match pounce.direction {
            Direction::Upload => task.upload_source matches Some(UploadSource::File(path))
                && path.bytes@ == pounce.file_path.bytes@,
            Direction::Download => task.upload_source is None,
        },
    }
    &&& task.direction == pounce.direction
    &&& task.total_size == pounce.total_size
    &&& task.chunk_size == pounce.chunk_size
    &&& task.url == pounce.url
    &&& task.method == pounce.method
    &&& task.headers == pounce.headers
    &&& task.breakpoint_upload == match pounce.breakpoint_upload {
        Some(protocol) => protocol,
        None => default_protocols.upload,
    }
    &&& task.breakpoint_download == match pounce.breakpoint_download {
        Some(protocol) => protocol,
        None => default_protocols.download,
    }
    &&& task.breakpoint_download_http == match pounce.breakpoint_download_http {
        Some(config) => config,
        None => default_download_http,
    }
    &&& task.max_chunk_retries == pounce.max_chunk_retries
    &&& task.max_upload_prepare_retries == pounce.max_upload_prepare_retries
    &&& task.max_parts_in_flight == pounce.max_parts_in_flight
}

/// Two uploads of the same bytes are the same transfer, wherever the bytes come
/// from, whatever they are called and wherever they are sent.
pub proof fn law_equal_content_is_one_upload(a: InnerTask, b: InnerTask, content: Seq<u8>)
    requires
        a.direction == Direction::Upload,
        b.direction == Direction::Upload,
        !a.unread,
        !b.unread,
        a.file_sign@ == digest::content_sign(content),
        b.file_sign@ == digest::content_sign(content),
    ensures
        a.spec_dedupe_key() == b.spec_dedupe_key(),
{
}

/// Two downloads are the same transfer exactly where they have the same URL;
/// an upload and a download never are.
pub proof fn law_downloads_are_keyed_by_url(a: InnerTask, b: InnerTask)
    requires
        a.direction == Direction::Download,
    ensures
        a.spec_dedupe_key() == b.spec_dedupe_key() <==> b.direction == Direction::Download
            && a.url@ == b.url@,
{
}

} // verus!
