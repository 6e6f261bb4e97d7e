//! Errors of the monitoring core.
use crate::text::{decimal, push_decimal, push_str};
use vstd::prelude::*;

verus! {

/// Why a job could not be checked.
#[derive(Debug, Clone, PartialEq, Eq)]
pub enum MonitorError {
    /// The job's cron expression was rejected.
    InvalidSchedule,
    /// Every attempt of a request failed at the transport level.
    RetrievalFailed { attempts: usize, last_error: String },
    /// The upstream API answered with a status that is not a success.
    UpstreamError { status: u16 },
    /// A build reference returned by the upstream API could not be made into a URL.
    MalformedUpstreamReference,
    /// The configured base URL of the upstream API does not parse.
    InvalidBaseUrl,
    /// No scheduled firing lies in the lookback window.
    ScheduleLookbackExhausted,
    /// A job's `config.xml` holds no `<spec>` element.
    NoScheduleInConfig,
    /// A build timestamp lies outside the supported range of instants.
    InvalidTimestamp,
    /// A build number reported by the upstream API is negative.
    InvalidBuildNumber,
    /// An alert threshold is negative or too large to measure a window with.
    InvalidThreshold,
    /// A request policy was given no attempt at all.
    NoAttemptsAllowed,
    /// A response body is not what the upstream API documents.
    MalformedResponse,
}

} // verus!

verus! {

/// A one-line description of `e`.
pub open spec fn error_text(e: MonitorError) -> Seq<char> {
    match e {
        MonitorError::InvalidSchedule => "invalid cron schedule"@,
        MonitorError::RetrievalFailed { attempts, last_error } => "request failed after "@
            + decimal(attempts as nat) + " attempts: "@ + last_error@,
        MonitorError::UpstreamError { status } => "upstream API returned error status "@ + decimal(
            status as nat,
        ),
        MonitorError::MalformedUpstreamReference => "malformed build reference from upstream API"@,
        MonitorError::InvalidBaseUrl => "invalid configured base URL"@,
        MonitorError::ScheduleLookbackExhausted => "could not find scheduled run time in lookback window"@,
        MonitorError::NoScheduleInConfig => "no schedule <spec> found in job config.xml"@,
        MonitorError::InvalidTimestamp => "build timestamp out of range"@,
        MonitorError::InvalidBuildNumber => "negative build number"@,
        MonitorError::InvalidThreshold => "alert threshold out of range"@,
        MonitorError::NoAttemptsAllowed => "max_attempts must be >= 1"@,
        MonitorError::MalformedResponse => "malformed response from upstream API"@,
    }
}

impl MonitorError {
    /// A one-line description of this error.
    pub fn describe(&self) -> (r: String)
        ensures
            r@ == error_text(*self),
    {
        let mut out = String::new();
        match self {
            MonitorError::InvalidSchedule => push_str(&mut out, "invalid cron schedule"),
            MonitorError::RetrievalFailed { attempts, last_error } => {
                push_str(&mut out, "request failed after ");
                push_decimal(&mut out, *attempts as u64);
                push_str(&mut out, " attempts: ");
                push_str(&mut out, last_error.as_str());
            },
            MonitorError::UpstreamError { status } => {
                push_str(&mut out, "upstream API returned error status ");
                push_decimal(&mut out, *status as u64);
            },
            MonitorError::MalformedUpstreamReference => push_str(
                &mut out,
                "malformed build reference from upstream API",
            ),
            MonitorError::InvalidBaseUrl => push_str(&mut out, "invalid configured base URL"),
            MonitorError::ScheduleLookbackExhausted => push_str(
                &mut out,
                "could not find scheduled run time in lookback window",
            ),
            MonitorError::NoScheduleInConfig => push_str(
                &mut out,
                "no schedule <spec> found in job config.xml",
            ),
            MonitorError::InvalidTimestamp => push_str(&mut out, "build timestamp out of range"),
            MonitorError::InvalidBuildNumber => push_str(&mut out, "negative build number"),
            MonitorError::InvalidThreshold => push_str(&mut out, "alert threshold out of range"),
            MonitorError::NoAttemptsAllowed => push_str(&mut out, "max_attempts must be >= 1"),
            MonitorError::MalformedResponse => push_str(
                &mut out,
                "malformed response from upstream API",
            ),
        }
        out
    }
}

} // verus!
