//! Build records as the upstream API reports them, and their outcome.
use crate::error::MonitorError;
use crate::text::same_text;
use vstd::prelude::*;

verus! {

/// What a build record says about the run it describes.
#[derive(Debug, Clone, Copy, PartialEq, Eq, Structural)]
pub enum BuildOutcome {
    Success,
    Failed,
    Running,
    /// The job has no build at all.
    Missing,
}

/// The result text of a build that finished successfully.
pub open spec fn success_marker() -> Seq<char> {
    "SUCCESS"@
}

/// The outcome of a build whose result field is `result`: none yet means it
/// is still running; the success marker means success; any other text is a
/// failure.
pub open spec fn outcome_of_result(result: Option<Seq<char>>) -> BuildOutcome {
    match result {
        None => BuildOutcome::Running,
        Some(s) => if s == success_marker() {
            BuildOutcome::Success
        } else {
            BuildOutcome::Failed
        },
    }
}

pub open spec fn opt_text(s: Option<String>) -> Option<Seq<char>> {
    match s {
        Some(t) => Some(t@),
        None => None,
    }
}

/// The outcome of a build from its raw result field.
pub fn classify(raw_result: Option<&str>) -> (r: BuildOutcome)
    ensures
        r == outcome_of_result(
            match raw_result {
                Some(s) => Some(s@),
                None => None,
            },
        ),
{
    match raw_result {
        None => BuildOutcome::Running,
        Some(s) => if same_text(s, "SUCCESS") {
            BuildOutcome::Success
        } else {
            BuildOutcome::Failed
        },
    }
}

/// A build as the upstream build endpoint describes it.
#[derive(Debug, Clone)]
pub struct BuildDetails {
    pub number: i64,
    /// Start of the build, in milliseconds since the Unix epoch.
    pub timestamp: i64,
    /// `None` while the build runs.
    pub result: Option<String>,
    pub display_name: String,
}

/// Whether the build finished with a result other than success; a running
/// build has not failed.
pub fn is_build_failed(build: &BuildDetails) -> (r: bool)
    ensures
        r == (outcome_of_result(opt_text(build.result)) == BuildOutcome::Failed),
{
    let outcome = match &build.result {
        Some(s) => classify(Some(s.as_str())),
        None => classify(None),
    };
    outcome == BuildOutcome::Failed
}

/// The latest build of a job, with its start in whole seconds.
#[derive(Debug, Clone)]
pub struct LastBuildInfo {
    pub number: u64,
    /// Start of the build, in seconds since the Unix epoch.
    pub timestamp: i64,
    pub result: Option<String>,
}

/// The whole seconds (rounded down) in `ms` milliseconds.
pub open spec fn seconds_of_millis(ms: int) -> int {
    ms / 1000
}

fn floor_seconds(ms: i64) -> (r: i64)
    ensures
        r == seconds_of_millis(ms as int),
{
    if ms >= 0 {
        ms / 1000
    } else {
        let m: i64 = -(ms + 1);
        let q: i64 = m / 1000;
        assert(-q - 1 == (ms as int) / 1000) by (nonlinear_arith)
            requires
                m == -(ms + 1),
                q == m / 1000,
                m >= 0,
        ;
        -q - 1
    }
}

impl LastBuildInfo {
    pub open spec fn spec_outcome(&self) -> BuildOutcome {
        outcome_of_result(opt_text(self.result))
    }

    /// Success, failure or still running.
    pub fn outcome(&self) -> (r: BuildOutcome)
        ensures
            r == self.spec_outcome(),
    {
        match &self.result {
            Some(s) => classify(Some(s.as_str())),
            None => classify(None),
        }
    }

    /// The build record with its start in whole seconds (rounded down);
    /// fails when the build number is negative.
    pub fn from_details(d: &BuildDetails) -> (r: Result<LastBuildInfo, MonitorError>)
        ensures
            d.number < 0 ==> r == Err::<LastBuildInfo, MonitorError>(
                MonitorError::InvalidBuildNumber,
            ),
            r is Ok <==> d.number >= 0,
            r matches Ok(b) ==> b.number == d.number && b.timestamp == seconds_of_millis(
                d.timestamp as int,
            ) && opt_text(b.result) == opt_text(d.result),
    {
        if d.number < 0 {
            return Err(MonitorError::InvalidBuildNumber);
        }
        let secs = floor_seconds(d.timestamp);
        let result = match &d.result {
            Some(s) => Some(s.clone()),
            None => None,
        };
        Ok(LastBuildInfo { number: d.number as u64, timestamp: secs, result })
    }
}

} // verus!
