//! Client configuration.

use vstd::prelude::*;
use vstd::string::*;

use crate::error;
use crate::error::{InnerErrorCode, MeowError};
use crate::pounce_task::BreakpointDownloadHttpConfig;

verus! {

/// A length of time.
#[derive(Debug, Clone, Copy, PartialEq, Eq, Structural)]
pub struct TimeSpan {
    pub secs: u64,
    /// The rest below a second, in nanoseconds.
    pub nanos: u32,
}

impl TimeSpan {
    pub fn from_secs(secs: u64) -> (span: TimeSpan)
        ensures
            span == (TimeSpan { secs, nanos: 0 }),
    {
        TimeSpan { secs, nanos: 0 }
    }

    pub open spec fn spec_is_zero(self) -> bool {
        self.secs == 0 && self.nanos == 0
    }

    pub fn is_zero(&self) -> (zero: bool)
        ensures
            zero == self.spec_is_zero(),
    {
        self.secs == 0 && self.nanos == 0
    }
}

impl Default for BreakpointDownloadHttpConfig {
    fn default() -> (config: Self)
        ensures
            config.range_accept@ == "application/octet-stream"@,
    {
        BreakpointDownloadHttpConfig { range_accept: "application/octet-stream".to_owned() }
    }
}

/// The settings of a client. Concurrency limits and queue capacities are at
/// least one, and time spans are not zero.
#[derive(Debug)]
pub struct MeowConfig {
    max_upload_concurrency: usize,
    max_download_concurrency: usize,
    breakpoint_download_http: BreakpointDownloadHttpConfig,
    http_timeout: TimeSpan,
    tcp_keepalive: TimeSpan,
    command_queue_capacity: usize,
    worker_event_queue_capacity: usize,
}

/// Builds a validated [`MeowConfig`].
#[derive(Debug)]
pub struct MeowConfigBuilder {
    pub max_upload_concurrency: usize,
    pub max_download_concurrency: usize,
    pub breakpoint_download_http: BreakpointDownloadHttpConfig,
    pub http_timeout: TimeSpan,
    pub tcp_keepalive: TimeSpan,
    pub command_queue_capacity: usize,
    pub worker_event_queue_capacity: usize,
}

/// What a setting that must not be zero is refused with.
pub open spec fn at_least_one_text(name: Seq<char>) -> Seq<char> {
    name + " must be >= 1"@
}

/// What a time span that must not be zero is refused with.
pub open spec fn positive_text(name: Seq<char>) -> Seq<char> {
    name + " must be greater than 0"@
}

fn validate_non_zero(name: &str, value: usize) -> (result: Result<(), MeowError>)
    ensures
        value != 0 ==> result is Ok,
        value == 0 ==> error::fails_with(
            result,
            InnerErrorCode::ParameterEmpty,
            at_least_one_text(name@),
        ),
{
    if value == 0 {
        let mut text = name.to_owned();
        text.append(" must be >= 1");
        return Err(MeowError::from_code(InnerErrorCode::ParameterEmpty, text));
    }
    Ok(())
}

fn validate_positive_duration(name: &str, value: TimeSpan) -> (result: Result<(), MeowError>)
    ensures
        !value.spec_is_zero() ==> result is Ok,
        value.spec_is_zero() ==> error::fails_with(
            result,
            InnerErrorCode::ParameterEmpty,
            positive_text(name@),
        ),
{
    if value.is_zero() {
        let mut text = name.to_owned();
        text.append(" must be greater than 0");
        return Err(MeowError::from_code(InnerErrorCode::ParameterEmpty, text));
    }
    Ok(())
}

impl MeowConfigBuilder {
    pub open spec fn has_defaults(self) -> bool {
        &&& self.max_upload_concurrency == 2
        &&& self.max_download_concurrency == 2
        &&& self.breakpoint_download_http.range_accept@ == "application/octet-stream"@
        &&& self.http_timeout == (TimeSpan { secs: 5, nanos: 0 })
        &&& self.tcp_keepalive == (TimeSpan { secs: 30, nanos: 0 })
        &&& self.command_queue_capacity == 128
        &&& self.worker_event_queue_capacity == 256
    }

    /// What the settings are refused with, if they are: the first setting that
    /// is zero.
    pub open spec fn refusal(self) -> Option<Seq<char>> {
        if self.max_upload_concurrency == 0 {
            Some(at_least_one_text("max_upload_concurrency"@))
        } else if self.max_download_concurrency == 0 {
            Some(at_least_one_text("max_download_concurrency"@))
        } else if self.command_queue_capacity == 0 {
            Some(at_least_one_text("command_queue_capacity"@))
        } else if self.worker_event_queue_capacity == 0 {
            Some(at_least_one_text("worker_event_queue_capacity"@))
        } else if self.http_timeout.spec_is_zero() {
            Some(positive_text("http_timeout"@))
        } else if self.tcp_keepalive.spec_is_zero() {
            Some(positive_text("tcp_keepalive"@))
        } else {
            None
        }
    }

    pub fn max_upload_concurrency(self, max_upload_concurrency: usize) -> (builder: Self)
        ensures
            builder == (MeowConfigBuilder { max_upload_concurrency, ..self }),
    {
        let mut builder = self;
        builder.max_upload_concurrency = max_upload_concurrency;
        builder
    }

    pub fn max_download_concurrency(self, max_download_concurrency: usize) -> (builder: Self)
        ensures
            builder == (MeowConfigBuilder { max_download_concurrency, ..self }),
    {
        let mut builder = self;
        builder.max_download_concurrency = max_download_concurrency;
        builder
    }

    pub fn http_timeout(self, timeout: TimeSpan) -> (builder: Self)
        ensures
            builder == (MeowConfigBuilder { http_timeout: timeout, ..self }),
    {
        let mut builder = self;
        builder.http_timeout = timeout;
        builder
    }

    pub fn tcp_keepalive(self, keepalive: TimeSpan) -> (builder: Self)
        ensures
            builder == (MeowConfigBuilder { tcp_keepalive: keepalive, ..self }),
    {
        let mut builder = self;
        builder.tcp_keepalive = keepalive;
        builder
    }

    pub fn command_queue_capacity(self, command_queue_capacity: usize) -> (builder: Self)
        ensures
            builder == (MeowConfigBuilder { command_queue_capacity, ..self }),
    {
        let mut builder = self;
        builder.command_queue_capacity = command_queue_capacity;
        builder
    }

    pub fn worker_event_queue_capacity(self, worker_event_queue_capacity: usize) -> (builder: Self)
        ensures
            builder == (MeowConfigBuilder { worker_event_queue_capacity, ..self }),
    {
        let mut builder = self;
        builder.worker_event_queue_capacity = worker_event_queue_capacity;
        builder
    }

    pub fn breakpoint_download_http(self, config: BreakpointDownloadHttpConfig) -> (builder: Self)
        ensures
            builder == (MeowConfigBuilder { breakpoint_download_http: config, ..self }),
    {
        let mut builder = self;
        builder.breakpoint_download_http = config;
        builder
    }

    /// Validates the settings and makes the configuration.
    pub fn build(self) -> (result: Result<MeowConfig, MeowError>)
        ensures
            match self.refusal() {
                Some(text) => error::fails_with(result, InnerErrorCode::ParameterEmpty, text),
                None => result is Ok && result->Ok_0.settings() == self,
            },
    {
        match validate_non_zero("max_upload_concurrency", self.max_upload_concurrency) {
            Ok(()) => {},
            Err(e) => {
                return Err(e);
            },
        }
        match validate_non_zero("max_download_concurrency", self.max_download_concurrency) {
            Ok(()) => {},
            Err(e) => {
                return Err(e);
            },
        }
        match validate_non_zero("command_queue_capacity", self.command_queue_capacity) {
            Ok(()) => {},
            Err(e) => {
                return Err(e);
            },
        }
        match validate_non_zero("worker_event_queue_capacity", self.worker_event_queue_capacity) {
            Ok(()) => {},
            Err(e) => {
                return Err(e);
            },
        }
        match validate_positive_duration("http_timeout", self.http_timeout) {
            Ok(()) => {},
            Err(e) => {
                return Err(e);
            },
        }
        match validate_positive_duration("tcp_keepalive", self.tcp_keepalive) {
            Ok(()) => {},
            Err(e) => {
                return Err(e);
            },
        }
        Ok(
            MeowConfig {
                max_upload_concurrency: self.max_upload_concurrency,
                max_download_concurrency: self.max_download_concurrency,
                breakpoint_download_http: self.breakpoint_download_http,
                http_timeout: self.http_timeout,
                tcp_keepalive: self.tcp_keepalive,
                command_queue_capacity: self.command_queue_capacity,
                worker_event_queue_capacity: self.worker_event_queue_capacity,
            },
        )
    }
}

impl Default for MeowConfigBuilder {
    fn default() -> (builder: Self)
        ensures
            builder.has_defaults(),
    {
        MeowConfigBuilder {
            max_upload_concurrency: 2,
            max_download_concurrency: 2,
            breakpoint_download_http: BreakpointDownloadHttpConfig::default(),
            http_timeout: TimeSpan::from_secs(5),
            tcp_keepalive: TimeSpan::from_secs(30),
            command_queue_capacity: 128,
            worker_event_queue_capacity: 256,
        }
    }
}

impl Default for MeowConfig {
    fn default() -> (config: Self)
        ensures
            config.settings().has_defaults(),
    {
        let builder = MeowConfigBuilder::default();
        MeowConfig {
            max_upload_concurrency: builder.max_upload_concurrency,
            max_download_concurrency: builder.max_download_concurrency,
            breakpoint_download_http: builder.breakpoint_download_http,
            http_timeout: builder.http_timeout,
            tcp_keepalive: builder.tcp_keepalive,
            command_queue_capacity: builder.command_queue_capacity,
            worker_event_queue_capacity: builder.worker_event_queue_capacity,
        }
    }
}

impl MeowConfig {
    /// Every configuration holds settings that are accepted.
    #[verifier::type_invariant]
    spec fn wf(self) -> bool {
        self.settings().refusal() is None
    }

    /// The settings as a builder holds them.
    pub closed spec fn settings(&self) -> MeowConfigBuilder {
        MeowConfigBuilder {
            max_upload_concurrency: self.max_upload_concurrency,
            max_download_concurrency: self.max_download_concurrency,
            breakpoint_download_http: self.breakpoint_download_http,
            http_timeout: self.http_timeout,
            tcp_keepalive: self.tcp_keepalive,
            command_queue_capacity: self.command_queue_capacity,
            worker_event_queue_capacity: self.worker_event_queue_capacity,
        }
    }

    /// Starts a builder from the defaults.
    pub fn builder() -> (builder: MeowConfigBuilder)
        ensures
            builder.has_defaults(),
    {
        MeowConfigBuilder::default()
    }

    pub fn max_upload_concurrency(&self) -> (limit: usize)
        ensures
            limit == self.settings().max_upload_concurrency,
            limit >= 1,
    {
        proof {
            use_type_invariant(self);
        }
        self.max_upload_concurrency
    }

    pub fn max_download_concurrency(&self) -> (limit: usize)
        ensures
            limit == self.settings().max_download_concurrency,
            limit >= 1,
    {
        proof {
            use_type_invariant(self);
        }
        self.max_download_concurrency
    }

    pub fn breakpoint_download_http(&self) -> (config: &BreakpointDownloadHttpConfig)
        ensures
            *config == self.settings().breakpoint_download_http,
    {
        &self.breakpoint_download_http
    }

    pub fn http_timeout(&self) -> (timeout: TimeSpan)
        ensures
            timeout == self.settings().http_timeout,
            !timeout.spec_is_zero(),
    {
        proof {
            use_type_invariant(self);
        }
        self.http_timeout
    }

    pub fn tcp_keepalive(&self) -> (keepalive: TimeSpan)
        ensures
            keepalive == self.settings().tcp_keepalive,
            !keepalive.spec_is_zero(),
    {
        proof {
            use_type_invariant(self);
        }
        self.tcp_keepalive
    }

    pub fn command_queue_capacity(&self) -> (capacity: usize)
        ensures
            capacity == self.settings().command_queue_capacity,
            capacity >= 1,
    {
        proof {
            use_type_invariant(self);
        }
        self.command_queue_capacity
    }

    pub fn worker_event_queue_capacity(&self) -> (capacity: usize)
        ensures
            capacity == self.settings().worker_event_queue_capacity,
            capacity >= 1,
    {
        proof {
            use_type_invariant(self);
        }
        self.worker_event_queue_capacity
    }
}

/// The defaults are valid settings.
pub proof fn law_defaults_are_valid(builder: MeowConfigBuilder)
    requires
        builder.has_defaults(),
    ensures
        builder.refusal() is None,
{
}

} // verus!
