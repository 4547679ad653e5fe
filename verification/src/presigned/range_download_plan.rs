//! Plans for downloads by ranges.

use vstd::prelude::*;
use vstd::string::*;

use reqwest::header::{HeaderMap, HeaderValue};

use crate::headers;
use crate::headers::{header_map_clone, header_map_new};
use crate::presigned::uploaded_part::copy_text;

verus! {

/// A download by ranges, as a server planned it.
pub struct PresignedRangeDownloadPlan {
    /// The size of the object. Where it is known, it need not be asked for.
    pub total_size: Option<u64>,
    pub head_url: Option<String>,
    pub range_url: String,
    /// When the URL for ranges expires, in seconds since the epoch.
    pub range_expires_at_unix_secs: Option<u64>,
    /// How many seconds before that it is renewed.
    pub refresh_before_secs: u64,
    pub head_headers: HeaderMap<HeaderValue>,
    pub range_headers: HeaderMap<HeaderValue>,
}

/// Whether two plans hold the same.
pub open spec fn same_plan(a: PresignedRangeDownloadPlan, b: PresignedRangeDownloadPlan) -> bool {
    &&& a.total_size == b.total_size
    &&& a.head_url == b.head_url
    &&& a.range_url@ == b.range_url@
    &&& a.range_expires_at_unix_secs == b.range_expires_at_unix_secs
    &&& a.refresh_before_secs == b.refresh_before_secs
    &&& headers::header_contents(a.head_headers) == headers::header_contents(b.head_headers)
    &&& headers::header_contents(a.range_headers) == headers::header_contents(b.range_headers)
}

impl Clone for PresignedRangeDownloadPlan {
    fn clone(&self) -> (copy: Self)
        ensures
            same_plan(copy, *self),
    {
        PresignedRangeDownloadPlan {
            total_size: self.total_size,
            head_url: copy_text(&self.head_url),
            range_url: self.range_url.clone(),
            range_expires_at_unix_secs: self.range_expires_at_unix_secs,
            refresh_before_secs: self.refresh_before_secs,
            head_headers: header_map_clone(&self.head_headers),
            range_headers: header_map_clone(&self.range_headers),
        }
    }
}

impl PresignedRangeDownloadPlan {
    /// A plan with one URL that does not expire, and a renewal margin of a
    /// minute.
    pub fn new(range_url: &str) -> (plan: Self)
        ensures
            plan.total_size is None,
            plan.head_url is None,
            plan.range_url@ == range_url@,
            plan.range_expires_at_unix_secs is None,
            plan.refresh_before_secs == 60,
            headers::header_contents(plan.head_headers) == headers::no_headers(),
            headers::header_contents(plan.range_headers) == headers::no_headers(),
    {
        PresignedRangeDownloadPlan {
            total_size: None,
            head_url: None,
            range_url: range_url.to_owned(),
            range_expires_at_unix_secs: None,
            refresh_before_secs: 60,
            head_headers: header_map_new(),
            range_headers: header_map_new(),
        }
    }

    pub fn with_total_size(self, total_size: u64) -> (plan: Self)
        ensures
            plan == (PresignedRangeDownloadPlan { total_size: Some(total_size), ..self }),
    {
        let mut plan = self;
        plan.total_size = Some(total_size);
        plan
    }

    pub fn with_head_url(self, url: String) -> (plan: Self)
        ensures
            plan == (PresignedRangeDownloadPlan { head_url: Some(url), ..self }),
    {
        let mut plan = self;
        plan.head_url = Some(url);
        plan
    }

    pub fn with_range_expires_at_unix_secs(self, expires_at_unix_secs: u64) -> (plan: Self)
        ensures
            plan == (PresignedRangeDownloadPlan {
                range_expires_at_unix_secs: Some(expires_at_unix_secs),
                ..self
            }),
    {
        let mut plan = self;
        plan.range_expires_at_unix_secs = Some(expires_at_unix_secs);
        plan
    }

    pub fn with_refresh_before_secs(self, secs: u64) -> (plan: Self)
        ensures
            plan == (PresignedRangeDownloadPlan { refresh_before_secs: secs, ..self }),
    {
        let mut plan = self;
        plan.refresh_before_secs = secs;
        plan
    }

    /// Replaces the headers of the request for the size.
    pub fn with_head_headers(self, headers: HeaderMap<HeaderValue>) -> (plan: Self)
        ensures
            plan == (PresignedRangeDownloadPlan { head_headers: headers, ..self }),
    {
        let mut plan = self;
        plan.head_headers = headers;
        plan
    }

    /// Replaces the headers of the requests for ranges.
    pub fn with_range_headers(self, headers: HeaderMap<HeaderValue>) -> (plan: Self)
        ensures
            plan == (PresignedRangeDownloadPlan { range_headers: headers, ..self }),
    {
        let mut plan = self;
        plan.range_headers = headers;
        plan
    }
}

} // verus!
