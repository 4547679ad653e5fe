//! Requests that tell a server how an upload ended.

use vstd::prelude::*;
use vstd::string::*;

use reqwest::header::{HeaderMap, HeaderValue};

use crate::headers;
use crate::headers::header_map_new;

verus! {

/// One request that completes or aborts an upload.
pub struct CompletionRequest {
    pub method: String,
    pub url: String,
    pub headers: HeaderMap<HeaderValue>,
    pub body: Option<Vec<u8>>,
    /// Where there is no body of its own, the uploaded parts are sent as JSON.
    pub uploaded_parts_json_body: bool,
}

impl CompletionRequest {
    /// A request without headers or body.
    pub fn new(method: &str, url: &str) -> (request: Self)
        ensures
            request.method@ == method@,
            request.url@ == url@,
            headers::header_contents(request.headers) == headers::no_headers(),
            request.body is None,
            !request.uploaded_parts_json_body,
    {
        CompletionRequest {
            method: method.to_owned(),
            url: url.to_owned(),
            headers: header_map_new(),
            body: None,
            uploaded_parts_json_body: false,
        }
    }

    /// Replaces the headers.
    pub fn with_headers(self, headers: HeaderMap<HeaderValue>) -> (request: Self)
        ensures
            request == (CompletionRequest { headers, ..self }),
    {
        let mut request = self;
        request.headers = headers;
        request
    }

    pub fn with_body(self, body: Vec<u8>) -> (request: Self)
        ensures
            request == (CompletionRequest { body: Some(body), ..self }),
    {
        let mut request = self;
        request.body = Some(body);
        request
    }

    pub fn with_uploaded_parts_json_body(self) -> (request: Self)
        ensures
            request == (CompletionRequest { uploaded_parts_json_body: true, ..self }),
    {
        let mut request = self;
        request.uploaded_parts_json_body = true;
        request
    }
}

} // verus!
