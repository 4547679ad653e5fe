//! Parts that are to be uploaded.

use vstd::prelude::*;
use vstd::string::*;

use reqwest::header::{HeaderMap, HeaderValue};

use crate::headers;
use crate::headers::{header_map_clone, header_map_new};
use crate::presigned::uploaded_part::copy_text;

verus! {

/// One part of an upload, with the URL that a server signed for it.
pub struct PresignedUploadPart {
    pub part_number: u64,
    pub offset: u64,
    pub size: u64,
    pub method: String,
    pub url: String,
    /// The provider's own name for the part.
    pub provider_part_id: Option<String>,
    /// When the URL expires, in seconds since the epoch.
    pub expires_at_unix_secs: Option<u64>,
    /// Headers that have to be sent as they were signed.
    pub headers: HeaderMap<HeaderValue>,
}

/// Whether two parts hold the same.
pub open spec fn same_part(a: PresignedUploadPart, b: PresignedUploadPart) -> bool {
    &&& a.part_number == b.part_number
    &&& a.offset == b.offset
    &&& a.size == b.size
    &&& a.method@ == b.method@
    &&& a.url@ == b.url@
    &&& a.provider_part_id == b.provider_part_id
    &&& a.expires_at_unix_secs == b.expires_at_unix_secs
    &&& headers::header_contents(a.headers) == headers::header_contents(b.headers)
}

impl Clone for PresignedUploadPart {
    fn clone(&self) -> (copy: Self)
        ensures
            same_part(copy, *self),
    {
        PresignedUploadPart {
            part_number: self.part_number,
            offset: self.offset,
            size: self.size,
            method: self.method.clone(),
            url: self.url.clone(),
            provider_part_id: copy_text(&self.provider_part_id),
            expires_at_unix_secs: self.expires_at_unix_secs,
            headers: header_map_clone(&self.headers),
        }
    }
}

impl PresignedUploadPart {
    /// A part that is sent with `PUT` and without headers of its own.
    pub fn put(part_number: u64, offset: u64, size: u64, url: &str) -> (part: Self)
        ensures
            part.part_number == part_number,
            part.offset == offset,
            part.size == size,
            part.method@ == "PUT"@,
            part.url@ == url@,
            part.provider_part_id is None,
            part.expires_at_unix_secs is None,
            headers::header_contents(part.headers) == headers::no_headers(),
    {
        PresignedUploadPart {
            part_number,
            offset,
            size,
            method: "PUT".to_owned(),
            url: url.to_owned(),
            provider_part_id: None,
            expires_at_unix_secs: None,
            headers: header_map_new(),
        }
    }

    pub fn with_provider_part_id(self, id: String) -> (part: Self)
        ensures
            part == (PresignedUploadPart { provider_part_id: Some(id), ..self }),
    {
        let mut part = self;
        part.provider_part_id = Some(id);
        part
    }

    pub fn with_expires_at_unix_secs(self, expires_at_unix_secs: u64) -> (part: Self)
        ensures
            part == (PresignedUploadPart {
                expires_at_unix_secs: Some(expires_at_unix_secs),
                ..self
            }),
    {
        let mut part = self;
        part.expires_at_unix_secs = Some(expires_at_unix_secs);
        part
    }

    /// Replaces the headers.
    pub fn with_headers(self, headers: HeaderMap<HeaderValue>) -> (part: Self)
        ensures
            part == (PresignedUploadPart { headers, ..self }),
    {
        let mut part = self;
        part.headers = headers;
        part
    }
}

} // verus!
