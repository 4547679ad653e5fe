//! Task descriptions as callers build them.

use vstd::prelude::*;
use vstd::string::*;

use reqwest::header::{HeaderMap, HeaderValue};

use crate::direction::Direction;
use crate::headers;
use crate::headers::header_map_new;

verus! {

/// A local path in the platform's own encoding.
#[derive(Debug)]
pub struct LocalPath {
    pub bytes: Vec<u8>,
}

impl LocalPath {
    pub fn new(bytes: Vec<u8>) -> (path: LocalPath)
        ensures
            path.bytes == bytes,
    {
        LocalPath { bytes }
    }

    pub fn is_empty(&self) -> (empty: bool)
        ensures
            empty == (self.bytes@.len() == 0),
    {
        self.bytes.len() == 0
    }

    /// Whether two paths are written the same.
    pub fn same(&self, other: &LocalPath) -> (same: bool)
        ensures
            same == (self.bytes@ == other.bytes@),
    {
        if self.bytes.len() != other.bytes.len() {
            return false;
        }
        let mut i: usize = 0;
        while i < self.bytes.len()
            invariant
                i <= self.bytes@.len(),
                self.bytes@.len() == other.bytes@.len(),
                forall|j: int| 0 <= j < i ==> self.bytes@[j] == other.bytes@[j],
            decreases self.bytes@.len() - i,
        {
            if self.bytes[i] != other.bytes[i] {
                assert(self.bytes@[i as int] != other.bytes@[i as int]);
                return false;
            }
            i += 1;
        }
        assert(self.bytes@ =~= other.bytes@);
        true
    }
}

impl Clone for LocalPath {
    fn clone(&self) -> (copy: Self)
        ensures
            copy.bytes@ == self.bytes@,
    {
        let bytes = self.bytes.clone();
        assert(bytes@ =~= self.bytes@);
        LocalPath { bytes }
    }
}

/// Where the bytes of an upload come from.
pub enum UploadSource {
    File(LocalPath),
    Bytes(Vec<u8>),
}

/// How range requests of a download are made.
#[derive(Debug)]
pub struct BreakpointDownloadHttpConfig {
    /// The `Accept` header of range requests.
    pub range_accept: String,
}

/// Names a protocol that the application implements: how an upload or a download
/// talks to its server.
#[derive(Debug, Clone, Copy, PartialEq, Eq, Structural)]
pub struct ProtocolId {
    pub value: u64,
}

/// A task as handed to the client: request parameters only.
pub struct PounceTask {
    pub direction: Direction,
    pub file_name: String,
    pub file_path: LocalPath,
    pub upload_source: Option<UploadSource>,
    pub total_size: u64,
    pub chunk_size: u64,
    pub url: String,
    pub method: String,
    pub headers: HeaderMap<HeaderValue>,
    pub client_file_sign: Option<String>,
    /// The protocol of an upload, where it is not the client's.
    pub breakpoint_upload: Option<ProtocolId>,
    /// The protocol of a download, where it is not the client's.
    pub breakpoint_download: Option<ProtocolId>,
    pub breakpoint_download_http: Option<BreakpointDownloadHttpConfig>,
    pub max_chunk_retries: u32,
    pub max_upload_prepare_retries: u32,
    pub max_parts_in_flight: usize,
}

/// The chunk size that stands for zero: one mebibyte.
pub const DEFAULT_CHUNK_SIZE: u64 = 1048576;

impl PounceTask {
    /// Retries after a first failed chunk, where the caller says nothing.
    pub const DEFAULT_MAX_CHUNK_RETRIES: u32 = 3;

    /// Retries after a first failed upload prepare, where the caller says
    /// nothing.
    pub const DEFAULT_MAX_UPLOAD_PREPARE_RETRIES: u32 = 3;

    /// A chunk size of zero stands for one mebibyte.
    pub fn normalized_chunk_size(chunk_size: u64) -> (size: u64)
        ensures
            size == if chunk_size == 0 {
                DEFAULT_CHUNK_SIZE
            } else {
                chunk_size
            },
            size > 0,
    {
        if chunk_size == 0 {
            DEFAULT_CHUNK_SIZE
        } else {
            chunk_size
        }
    }

    /// Every retry count is taken as it is; zero switches retries off.
    pub fn normalized_max_chunk_retries(max_chunk_retries: u32) -> (retries: u32)
        ensures
            retries == max_chunk_retries,
    {
        max_chunk_retries
    }

    /// Every retry count is taken as it is; zero switches retries off.
    pub fn normalized_max_upload_prepare_retries(max_upload_prepare_retries: u32) -> (retries: u32)
        ensures
            retries == max_upload_prepare_retries,
    {
        max_upload_prepare_retries
    }

    /// A window of zero parts stands for one.
    pub fn normalized_max_parts_in_flight(max_parts_in_flight: usize) -> (parts: usize)
        ensures
            parts == if max_parts_in_flight == 0 {
                1
            } else {
                max_parts_in_flight
            },
            parts > 0,
    {
        if max_parts_in_flight == 0 {
            1
        } else {
            max_parts_in_flight
        }
    }

    /// Whether a field that the direction needs is missing.
    pub open spec fn spec_is_empty(&self) -> bool {
        ||| self.file_name@.len() == 0
        ||| self.url@.len() == 0
        ||| match self.direction {
            Direction::Upload => self.total_size == 0 || self.upload_source is None,
            Direction::Download => self.file_path.bytes@.len() == 0,
        }
    }

    pub fn is_empty(&self) -> (empty: bool)
        ensures
            empty == self.spec_is_empty(),
    {
        self.file_name.as_str().is_empty() || self.url.as_str().is_empty() || match self.direction {
            Direction::Upload => self.total_size == 0 || self.upload_source.is_none(),
            Direction::Download => self.file_path.is_empty(),
        }
    }
}

/// Builds upload tasks.
pub struct UploadPounceBuilder {
    pub file_name: String,
    pub source: UploadSource,
    pub chunk_size: u64,
    pub url: String,
    pub method: String,
    pub headers: HeaderMap<HeaderValue>,
    pub breakpoint_upload: Option<ProtocolId>,
    pub max_chunk_retries: u32,
    pub max_upload_prepare_retries: u32,
    pub max_parts_in_flight: usize,
}

impl UploadPounceBuilder {
    /// A builder with the defaults: `POST`, no URL yet, no headers, three
    /// retries of each kind, one part at a time.
    pub open spec fn has_defaults(self) -> bool {
        &&& self.url@.len() == 0
        &&& self.method@ == "POST"@
        &&& headers::header_contents(self.headers) == headers::no_headers()
        &&& self.breakpoint_upload is None
        &&& self.max_chunk_retries == PounceTask::DEFAULT_MAX_CHUNK_RETRIES
        &&& self.max_upload_prepare_retries == PounceTask::DEFAULT_MAX_UPLOAD_PREPARE_RETRIES
        &&& self.max_parts_in_flight == 1
    }

    fn from_source(file_name: String, source: UploadSource, chunk_size: u64) -> (builder: Self)
        ensures
            builder.has_defaults(),
            builder.file_name == file_name,
            builder.source == source,
            builder.chunk_size == if chunk_size == 0 {
                DEFAULT_CHUNK_SIZE
            } else {
                chunk_size
            },
    {
        UploadPounceBuilder {
            file_name,
            source,
            chunk_size: PounceTask::normalized_chunk_size(chunk_size),
            url: String::new(),
            method: "POST".to_owned(),
            headers: header_map_new(),
            breakpoint_upload: None,
            max_chunk_retries: PounceTask::DEFAULT_MAX_CHUNK_RETRIES,
            max_upload_prepare_retries: PounceTask::DEFAULT_MAX_UPLOAD_PREPARE_RETRIES,
            max_parts_in_flight: 1,
        }
    }

    /// Starts a file-backed upload.
    pub fn new(file_name: String, file_path: LocalPath, chunk_size: u64) -> (builder: Self)
        ensures
            builder.has_defaults(),
            builder.file_name == file_name,
            builder.source == UploadSource::File(file_path),
            builder.chunk_size == if chunk_size == 0 {
                DEFAULT_CHUNK_SIZE
            } else {
                chunk_size
            },
    {
        UploadPounceBuilder::from_source(file_name, UploadSource::File(file_path), chunk_size)
    }

    /// Starts an upload of bytes in memory.
    pub fn from_bytes(file_name: String, bytes: Vec<u8>, chunk_size: u64) -> (builder: Self)
        ensures
            builder.has_defaults(),
            builder.file_name == file_name,
            builder.source == UploadSource::Bytes(bytes),
            builder.chunk_size == if chunk_size == 0 {
                DEFAULT_CHUNK_SIZE
            } else {
                chunk_size
            },
    {
        UploadPounceBuilder::from_source(file_name, UploadSource::Bytes(bytes), chunk_size)
    }

    pub fn with_url(self, url: String) -> (builder: Self)
        ensures
            builder == (UploadPounceBuilder { url, ..self }),
    {
        let mut builder = self;
        builder.url = url;
        builder
    }

    /// Replaces the source by a file.
    pub fn with_file_path(self, path: LocalPath) -> (builder: Self)
        ensures
            builder == (UploadPounceBuilder { source: UploadSource::File(path), ..self }),
    {
        let mut builder = self;
        builder.source = UploadSource::File(path);
        builder
    }

    /// Replaces the source by bytes in memory.
    pub fn with_bytes(self, bytes: Vec<u8>) -> (builder: Self)
        ensures
            builder == (UploadPounceBuilder { source: UploadSource::Bytes(bytes), ..self }),
    {
        let mut builder = self;
        builder.source = UploadSource::Bytes(bytes);
        builder
    }

    pub fn with_method(self, method: String) -> (builder: Self)
        ensures
            builder == (UploadPounceBuilder { method, ..self }),
    {
        let mut builder = self;
        builder.method = method;
        builder
    }

    /// Replaces the request headers.
    pub fn with_headers(self, headers: HeaderMap<HeaderValue>) -> (builder: Self)
        ensures
            builder == (UploadPounceBuilder { headers, ..self }),
    {
        let mut builder = self;
        builder.headers = headers;
        builder
    }

    /// A protocol that differs from the client's.
    pub fn with_breakpoint_upload(self, upload: ProtocolId) -> (builder: Self)
        ensures
            builder == (UploadPounceBuilder { breakpoint_upload: Some(upload), ..self }),
    {
        let mut builder = self;
        builder.breakpoint_upload = Some(upload);
        builder
    }

    pub fn with_max_chunk_retries(self, retries: u32) -> (builder: Self)
        ensures
            builder == (UploadPounceBuilder { max_chunk_retries: retries, ..self }),
    {
        let mut builder = self;
        builder.max_chunk_retries = PounceTask::normalized_max_chunk_retries(retries);
        builder
    }

    pub fn with_max_upload_prepare_retries(self, retries: u32) -> (builder: Self)
        ensures
            builder == (UploadPounceBuilder { max_upload_prepare_retries: retries, ..self }),
    {
        let mut builder = self;
        builder.max_upload_prepare_retries =
        PounceTask::normalized_max_upload_prepare_retries(retries);
        builder
    }

    pub fn with_max_parts_in_flight(self, parts: usize) -> (builder: Self)
        ensures
            builder == (UploadPounceBuilder {
                max_parts_in_flight: if parts == 0 {
                    1
                } else {
                    parts
                },
                ..self
            }),
    {
        let mut builder = self;
        builder.max_parts_in_flight = PounceTask::normalized_max_parts_in_flight(parts);
        builder
    }

    /// Makes the task. `file_len` is the length of the file of a file-backed
    /// source; bytes in memory have their own length.
    pub fn build(self, file_len: u64) -> (task: PounceTask)
        ensures
            task.direction == Direction::Upload,
            task.file_name == self.file_name,
            match self.source {
                UploadSource::File(path) => task.file_path.bytes@ == path.bytes@ && task.total_size
                    == file_len,
                UploadSource::Bytes(bytes) => task.file_path.bytes@.len() == 0 && task.total_size
                    == bytes@.len(),
            },
            task.upload_source == Some(self.source),
            task.chunk_size == self.chunk_size,
            task.url == self.url,
            task.method == self.method,
            task.headers == self.headers,
            task.client_file_sign is None,
            task.breakpoint_upload == self.breakpoint_upload,
            task.breakpoint_download is None,
            task.breakpoint_download_http is None,
            task.max_chunk_retries == self.max_chunk_retries,
            task.max_upload_prepare_retries == self.max_upload_prepare_retries,
            task.max_parts_in_flight == self.max_parts_in_flight,
    {
        let (file_path, total_size) = match &self.source {
            UploadSource::File(path) => (path.clone(), file_len),
            UploadSource::Bytes(bytes) => (LocalPath::new(Vec::new()), bytes.len() as u64),
        };
        PounceTask {
            direction: Direction::Upload,
            file_name: self.file_name,
            file_path,
            upload_source: Some(self.source),
            total_size,
            chunk_size: self.chunk_size,
            url: self.url,
            method: self.method,
            headers: self.headers,
            client_file_sign: None,
            breakpoint_upload: self.breakpoint_upload,
            breakpoint_download: None,
            breakpoint_download_http: None,
            max_chunk_retries: self.max_chunk_retries,
            max_upload_prepare_retries: self.max_upload_prepare_retries,
            max_parts_in_flight: self.max_parts_in_flight,
        }
    }
}

/// Builds download tasks. A download is always made of `HEAD` and `GET`
/// requests, so there is no method to choose.
pub struct DownloadPounceBuilder {
    pub file_name: String,
    pub file_path: LocalPath,
    pub chunk_size: u64,
    pub url: String,
    pub headers: HeaderMap<HeaderValue>,
    pub client_file_sign: Option<String>,
    pub breakpoint_download: Option<ProtocolId>,
    pub breakpoint_download_http: Option<BreakpointDownloadHttpConfig>,
    pub max_chunk_retries: u32,
    pub max_parts_in_flight: usize,
    /// The size of the object where it is known; zero where it is to be asked
    /// for.
    pub total_size: u64,
}

impl DownloadPounceBuilder {
    /// Starts a download with the defaults: no headers, no signature, the
    /// client's way of making range requests, three retries, one part at a
    /// time, and a size that is to be asked for.
    pub fn new(file_name: String, file_path: LocalPath, chunk_size: u64, url: String) -> (builder:
        Self)
        ensures
            builder.file_name == file_name,
            builder.file_path == file_path,
            builder.chunk_size == if chunk_size == 0 {
                DEFAULT_CHUNK_SIZE
            } else {
                chunk_size
            },
            builder.url == url,
            headers::header_contents(builder.headers) == headers::no_headers(),
            builder.client_file_sign is None,
            builder.breakpoint_download is None,
            builder.breakpoint_download_http is None,
            builder.max_chunk_retries == PounceTask::DEFAULT_MAX_CHUNK_RETRIES,
            builder.max_parts_in_flight == 1,
            builder.total_size == 0,
    {
        DownloadPounceBuilder {
            file_name,
            file_path,
            chunk_size: PounceTask::normalized_chunk_size(chunk_size),
            url,
            headers: header_map_new(),
            client_file_sign: None,
            breakpoint_download: None,
            breakpoint_download_http: None,
            max_chunk_retries: PounceTask::DEFAULT_MAX_CHUNK_RETRIES,
            max_parts_in_flight: 1,
            total_size: 0,
        }
    }

    pub fn with_url(self, url: String) -> (builder: Self)
        ensures
            builder == (DownloadPounceBuilder { url, ..self }),
    {
        let mut builder = self;
        builder.url = url;
        builder
    }

    pub fn with_file_path(self, path: LocalPath) -> (builder: Self)
        ensures
            builder == (DownloadPounceBuilder { file_path: path, ..self }),
    {
        let mut builder = self;
        builder.file_path = path;
        builder
    }

    /// Replaces the request headers.
    pub fn with_headers(self, headers: HeaderMap<HeaderValue>) -> (builder: Self)
        ensures
            builder == (DownloadPounceBuilder { headers, ..self }),
    {
        let mut builder = self;
        builder.headers = headers;
        builder
    }

    /// The signature that progress records show.
    pub fn with_client_file_sign(self, sign: String) -> (builder: Self)
        ensures
            builder == (DownloadPounceBuilder { client_file_sign: Some(sign), ..self }),
    {
        let mut builder = self;
        builder.client_file_sign = Some(sign);
        builder
    }

    /// A protocol that differs from the client's.
    pub fn with_breakpoint_download(self, download: ProtocolId) -> (builder: Self)
        ensures
            builder == (DownloadPounceBuilder { breakpoint_download: Some(download), ..self }),
    {
        let mut builder = self;
        builder.breakpoint_download = Some(download);
        builder
    }

    /// A way of making range requests that differs from the client's.
    pub fn with_breakpoint_download_http(self, config: BreakpointDownloadHttpConfig) -> (builder:
        Self)
        ensures
            builder == (DownloadPounceBuilder { breakpoint_download_http: Some(config), ..self }),
    {
        let mut builder = self;
        builder.breakpoint_download_http = Some(config);
        builder
    }

    pub fn with_max_chunk_retries(self, retries: u32) -> (builder: Self)
        ensures
            builder == (DownloadPounceBuilder { max_chunk_retries: retries, ..self }),
    {
        let mut builder = self;
        builder.max_chunk_retries = PounceTask::normalized_max_chunk_retries(retries);
        builder
    }

    pub fn with_max_parts_in_flight(self, parts: usize) -> (builder: Self)
        ensures
            builder == (DownloadPounceBuilder {
                max_parts_in_flight: if parts == 0 {
                    1
                } else {
                    parts
                },
                ..self
            }),
    {
        let mut builder = self;
        builder.max_parts_in_flight = PounceTask::normalized_max_parts_in_flight(parts);
        builder
    }

    /// The size of the object, which is then not asked for.
    pub fn with_total_size(self, size: u64) -> (builder: Self)
        ensures
            builder == (DownloadPounceBuilder { total_size: size, ..self }),
    {
        let mut builder = self;
        builder.total_size = size;
        builder
    }

    /// Makes the task.
    pub fn build(self) -> (task: PounceTask)
        ensures
            task.direction == Direction::Download,
            task.file_name == self.file_name,
            task.file_path == self.file_path,
            task.upload_source is None,
            task.total_size == self.total_size,
            task.chunk_size == self.chunk_size,
            task.url == self.url,
            task.method@ == "GET"@,
            task.headers == self.headers,
            task.client_file_sign == self.client_file_sign,
            task.breakpoint_upload is None,
            task.breakpoint_download == self.breakpoint_download,
            task.breakpoint_download_http == self.breakpoint_download_http,
            task.max_chunk_retries == self.max_chunk_retries,
            task.max_upload_prepare_retries == PounceTask::DEFAULT_MAX_UPLOAD_PREPARE_RETRIES,
            task.max_parts_in_flight == self.max_parts_in_flight,
    {
        PounceTask {
            direction: Direction::Download,
            file_name: self.file_name,
            file_path: self.file_path,
            upload_source: None,
            total_size: self.total_size,
            chunk_size: self.chunk_size,
            url: self.url,
            method: "GET".to_owned(),
            headers: self.headers,
            client_file_sign: self.client_file_sign,
            breakpoint_upload: None,
            breakpoint_download: self.breakpoint_download,
            breakpoint_download_http: self.breakpoint_download_http,
            max_chunk_retries: self.max_chunk_retries,
            max_upload_prepare_retries: PounceTask::DEFAULT_MAX_UPLOAD_PREPARE_RETRIES,
            max_parts_in_flight: self.max_parts_in_flight,
        }
    }
}

} // verus!
