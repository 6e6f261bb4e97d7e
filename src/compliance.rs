//! The per-job compliance decision: is a job overdue, given its schedule,
//! its latest build and the current instant.
use crate::builds::{BuildOutcome, LastBuildInfo};
use crate::config::ConfigJob;
use crate::error::MonitorError;
use crate::schedule::{
    latest_firing, most_recent_firing, normalize_cron_spec, normalized_cron, valid_instant,
    window_start, CronSchedule, cron_accepts, cron_next_after,
};
use crate::text::{push_signed_decimal, push_str, signed_decimal};
use vstd::prelude::*;

verus! {

/// Largest alert threshold, in minutes, whose doubled window fits in seconds.
pub const MAX_THRESHOLD_MINUTES: i64 = 76861433640456465;

/// A monitored job whose schedule has been parsed.
pub struct JobSpec {
    name: String,
    schedule: CronSchedule,
    alert_threshold_minutes: i64,
    enabled: bool,
    alert_on_error: Option<bool>,
}

impl JobSpec {
    #[verifier::type_invariant]
    spec fn inv(&self) -> bool {
        0 <= self.alert_threshold_minutes <= MAX_THRESHOLD_MINUTES
    }

    pub closed spec fn spec_name(&self) -> Seq<char> {
        self.name@
    }

    /// The normalised cron expression of the job.
    pub closed spec fn spec_expression(&self) -> Seq<char> {
        self.schedule.spec_expression()
    }

    pub closed spec fn spec_threshold(&self) -> int {
        self.alert_threshold_minutes as int
    }

    pub closed spec fn spec_enabled(&self) -> bool {
        self.enabled
    }

    pub closed spec fn spec_alert_on_error(&self) -> Option<bool> {
        self.alert_on_error
    }

    /// A job with the given schedule; a five-field expression gets a leading
    /// seconds field. Fails with `InvalidThreshold` when the threshold is
    /// negative or larger than [`MAX_THRESHOLD_MINUTES`], else with
    /// `InvalidSchedule` when cron rejects the expression.
    pub fn new(
        name: &str,
        cron_expression: &str,
        alert_threshold_minutes: i64,
        enabled: bool,
        alert_on_error: Option<bool>,
    ) -> (r: Result<JobSpec, MonitorError>)
        ensures
            !(0 <= alert_threshold_minutes <= MAX_THRESHOLD_MINUTES) ==> r == Err::<
                JobSpec,
                MonitorError,
            >(MonitorError::InvalidThreshold),
            0 <= alert_threshold_minutes <= MAX_THRESHOLD_MINUTES && !cron_accepts(
                normalized_cron(cron_expression@),
            ) ==> r == Err::<JobSpec, MonitorError>(MonitorError::InvalidSchedule),
            r is Ok <==> 0 <= alert_threshold_minutes <= MAX_THRESHOLD_MINUTES && cron_accepts(
                normalized_cron(cron_expression@),
            ),
            r matches Ok(j) ==> {
                &&& j.spec_name() == name@
                &&& j.spec_expression() == normalized_cron(cron_expression@)
                &&& j.spec_threshold() == alert_threshold_minutes
                &&& j.spec_enabled() == enabled
                &&& j.spec_alert_on_error() == alert_on_error
            },
    {
        if alert_threshold_minutes < 0 || alert_threshold_minutes > MAX_THRESHOLD_MINUTES {
            return Err(MonitorError::InvalidThreshold);
        }
        let normalized = normalize_cron_spec(cron_expression);
        let schedule = CronSchedule::parse(normalized.as_str())?;
        Ok(JobSpec {
            name: name.to_owned(),
            schedule,
            alert_threshold_minutes,
            enabled,
            alert_on_error,
        })
    }

    /// The job as configured, with `schedule_text` as its cron expression
    /// (the configured one, or one read from the job's `config.xml`).
    pub fn from_config(job: &ConfigJob, schedule_text: &str) -> (r: Result<JobSpec, MonitorError>)
        ensures
            r is Ok <==> 0 <= job.alert_threshold_minutes <= MAX_THRESHOLD_MINUTES && cron_accepts(
                normalized_cron(schedule_text@),
            ),
            r matches Ok(j) ==> {
                &&& j.spec_name() == job.name@
                &&& j.spec_expression() == normalized_cron(schedule_text@)
                &&& j.spec_threshold() == job.alert_threshold_minutes
                &&& j.spec_enabled() == job.enabled
                &&& j.spec_alert_on_error() == job.alert_on_error
            },
            !(0 <= job.alert_threshold_minutes <= MAX_THRESHOLD_MINUTES) ==> r == Err::<
                JobSpec,
                MonitorError,
            >(MonitorError::InvalidThreshold),
            0 <= job.alert_threshold_minutes <= MAX_THRESHOLD_MINUTES && !cron_accepts(
                normalized_cron(schedule_text@),
            ) ==> r == Err::<JobSpec, MonitorError>(MonitorError::InvalidSchedule),
    {
        JobSpec::new(
            job.name.as_str(),
            schedule_text,
            job.alert_threshold_minutes,
            job.enabled,
            job.alert_on_error,
        )
    }

    pub fn name(&self) -> (r: &str)
        ensures
            r@ == self.spec_name(),
    {
        self.name.as_str()
    }

    pub fn schedule(&self) -> (r: &CronSchedule)
        ensures
            r.spec_expression() == self.spec_expression(),
    {
        &self.schedule
    }

    pub fn alert_threshold_minutes(&self) -> (r: i64)
        ensures
            r == self.spec_threshold(),
            0 <= r <= MAX_THRESHOLD_MINUTES,
    {
        proof {
            use_type_invariant(self);
        }
        self.alert_threshold_minutes
    }

    pub fn enabled(&self) -> (r: bool)
        ensures
            r == self.spec_enabled(),
    {
        self.enabled
    }

    pub fn alert_on_error(&self) -> (r: Option<bool>)
        ensures
            r == self.spec_alert_on_error(),
    {
        self.alert_on_error
    }
}

/// Whether a job is overdue.
#[derive(Debug, Clone, Copy, PartialEq, Eq, Structural)]
pub enum Verdict {
    Overdue,
    Healthy,
}

/// A verdict with the reason for it.
#[derive(Debug, Clone)]
pub struct ComplianceVerdict {
    pub status: Verdict,
    pub reason: String,
}

/// `d` seconds in whole minutes, truncated toward zero.
pub open spec fn whole_minutes(d: int) -> int {
    if d >= 0 {
        d / 60
    } else {
        -((-d) / 60)
    }
}

/// The lookback window, in seconds, for a threshold of `threshold` minutes:
/// twice the threshold.
pub open spec fn lookback_seconds(threshold: int) -> int {
    threshold * 120
}

/// The scheduled firing a build is measured against: the latest one in the
/// lookback window ending at `now`.
pub open spec fn expected_firing(expr: Seq<char>, threshold: int, now: int) -> Option<int> {
    latest_firing(expr, window_start(now, lookback_seconds(threshold)), now)
}

/// The verdict on a job with schedule `expr` and threshold `threshold` (in
/// minutes) at instant `now`, given its latest build.
pub open spec fn evaluation(
    expr: Seq<char>,
    threshold: int,
    now: int,
    build: Option<LastBuildInfo>,
) -> Result<Verdict, MonitorError> {
    match build {
        None => Ok(Verdict::Overdue),
        Some(b) => if b.spec_outcome() == BuildOutcome::Failed {
            Ok(Verdict::Overdue)
        } else {
            match expected_firing(expr, threshold, now) {
                None => Err(MonitorError::ScheduleLookbackExhausted),
                Some(expected) => if !valid_instant(b.timestamp as int) {
                    Err(MonitorError::InvalidTimestamp)
                } else if whole_minutes(now - b.timestamp) > whole_minutes(now - expected)
                    + threshold {
                    Ok(Verdict::Overdue)
                } else {
                    Ok(Verdict::Healthy)
                },
            }
        },
    }
}

pub open spec fn no_history_reason() -> Seq<char> {
    "job has no build history"@
}

pub open spec fn failed_build_reason() -> Seq<char> {
    "last build finished with a non-success result"@
}

/// The reason text for a verdict reached on timing.
pub open spec fn timing_reason(overdue: bool, build_age: int, schedule_age: int, threshold: int) -> Seq<
    char,
> {
    (if overdue {
        "job has not run since its expected schedule: "@
    } else {
        "job is on schedule: "@
    }) + "last build "@ + signed_decimal(build_age) + " minutes ago, scheduled run "@
        + signed_decimal(schedule_age) + " minutes ago, threshold "@ + signed_decimal(threshold)
        + " minutes"@
}

/// The reason that goes with [`evaluation`] where it gives a verdict.
pub open spec fn evaluation_reason(
    expr: Seq<char>,
    threshold: int,
    now: int,
    build: Option<LastBuildInfo>,
) -> Seq<char> {
    match build {
        None => no_history_reason(),
        Some(b) => if b.spec_outcome() == BuildOutcome::Failed {
            failed_build_reason()
        } else {
            match expected_firing(expr, threshold, now) {
                None => Seq::empty(),
                Some(expected) => {
                    let build_age = whole_minutes(now - b.timestamp);
                    let schedule_age = whole_minutes(now - expected);
                    timing_reason(build_age > schedule_age + threshold, build_age, schedule_age, threshold)
                },
            }
        },
    }
}

pub open spec fn build_of(b: Option<&LastBuildInfo>) -> Option<LastBuildInfo> {
    match b {
        Some(x) => Some(*x),
        None => None,
    }
}

/// What [`evaluate`] promises of its result.
pub open spec fn evaluate_post(
    job: JobSpec,
    now: int,
    latest_build: Option<LastBuildInfo>,
    r: Result<ComplianceVerdict, MonitorError>,
) -> bool {
    let e = evaluation(job.spec_expression(), job.spec_threshold(), now, latest_build);
    match r {
        Ok(v) => e == Ok::<Verdict, MonitorError>(v.status) && v.reason@ == evaluation_reason(
            job.spec_expression(),
            job.spec_threshold(),
            now,
            latest_build,
        ),
        Err(err) => e == Err::<Verdict, MonitorError>(err),
    }
}

/// The scheduled firing that a check at `now` measures the job against: the
/// latest one in a lookback window of twice the threshold; fails with
/// `ScheduleLookbackExhausted` when the window holds none.
pub fn should_job_have_run(schedule: &CronSchedule, now: i64, threshold_minutes: i64) -> (r: Result<
    i64,
    MonitorError,
>)
    requires
        valid_instant(now as int),
        0 <= threshold_minutes <= MAX_THRESHOLD_MINUTES,
    ensures
        r matches Ok(f) ==> expected_firing(schedule.spec_expression(), threshold_minutes as int, now as int)
            == Some(f as int),
        r is Err ==> expected_firing(schedule.spec_expression(), threshold_minutes as int, now as int)
            is None && r == Err::<i64, MonitorError>(MonitorError::ScheduleLookbackExhausted),
        r matches Ok(f) ==> f <= now && valid_instant(f as int),
{
    match most_recent_firing(schedule, now, threshold_minutes * 120) {
        None => Err(MonitorError::ScheduleLookbackExhausted),
        Some(f) => {
            proof {
                lemma_latest_firing_in_window(
                    schedule.spec_expression(),
                    window_start(now as int, lookback_seconds(threshold_minutes as int)),
                    now as int,
                );
            }
            Ok(f)
        },
    }
}

fn minutes_of(d: i64) -> (r: i64)
    ensures
        r == whole_minutes(d as int),
{
    if d >= 0 {
        d / 60
    } else if d == i64::MIN {
        -153722867280912930
    } else {
        -((-d) / 60)
    }
}

/// Decides whether `job` is overdue at `now`: a job without builds or whose
/// last build failed is overdue; otherwise its last build is compared with
/// the most recent scheduled firing in a lookback window of twice the
/// threshold, both ages in whole minutes, and the job is overdue when the
/// build is older than the firing by more than the threshold.
pub fn evaluate(job: &JobSpec, now: i64, latest_build: Option<&LastBuildInfo>) -> (r: Result<
    ComplianceVerdict,
    MonitorError,
>)
    requires
        valid_instant(now as int),
    ensures
        evaluate_post(*job, now as int, build_of(latest_build), r),
{
    let b = match latest_build {
        None => {
            return Ok(
                ComplianceVerdict {
                    status: Verdict::Overdue,
                    reason: "job has no build history".to_owned(),
                },
            );
        },
        Some(b) => b,
    };
    if b.outcome() == BuildOutcome::Failed {
        return Ok(
            ComplianceVerdict {
                status: Verdict::Overdue,
                reason: "last build finished with a non-success result".to_owned(),
            },
        );
    }
    let threshold = job.alert_threshold_minutes();
    let expected = should_job_have_run(job.schedule(), now, threshold)?;
    if b.timestamp < crate::schedule::MIN_INSTANT || b.timestamp > crate::schedule::MAX_INSTANT {
        return Err(MonitorError::InvalidTimestamp);
    }
    let build_age = minutes_of(now - b.timestamp);
    let schedule_age = minutes_of(now - expected);
    let overdue = build_age > schedule_age + threshold;
    let mut reason = String::new();
    if overdue {
        push_str(&mut reason, "job has not run since its expected schedule: ");
    } else {
        push_str(&mut reason, "job is on schedule: ");
    }
    push_str(&mut reason, "last build ");
    push_signed_decimal(&mut reason, build_age);
    push_str(&mut reason, " minutes ago, scheduled run ");
    push_signed_decimal(&mut reason, schedule_age);
    push_str(&mut reason, " minutes ago, threshold ");
    push_signed_decimal(&mut reason, threshold);
    push_str(&mut reason, " minutes");
    let status = if overdue {
        Verdict::Overdue
    } else {
        Verdict::Healthy
    };
    Ok(ComplianceVerdict { status, reason })
}

/// A firing that [`latest_firing`] finds lies after the window start and
/// no later than `now`.
pub proof fn lemma_latest_firing_in_window(expr: Seq<char>, after: int, now: int)
    ensures
        latest_firing(expr, after, now) matches Some(f) ==> after < f <= now,
    decreases now - after,
{
    if after < now {
        if let Some(f) = cron_next_after(expr, after) {
            if f > after && f <= now {
                lemma_latest_firing_in_window(expr, f, now);
            }
        }
    }
}

} // verus!

verus! {

/// A job whose last build failed is overdue, whatever its schedule, its
/// threshold and the current instant.
pub proof fn lemma_failed_build_is_overdue(
    job: JobSpec,
    now: int,
    build: LastBuildInfo,
    r: Result<ComplianceVerdict, MonitorError>,
)
    requires
        build.spec_outcome() == BuildOutcome::Failed,
        evaluate_post(job, now, Some(build), r),
    ensures
        r matches Ok(v) && v.status == Verdict::Overdue,
{
}

/// A job without any build is overdue.
pub proof fn lemma_no_history_is_overdue(
    job: JobSpec,
    now: int,
    r: Result<ComplianceVerdict, MonitorError>,
)
    requires
        evaluate_post(job, now, None, r),
    ensures
        r matches Ok(v) && v.status == Verdict::Overdue,
{
}

/// Evaluating the same job, instant and latest build twice gives the same
/// outcome: the same verdict and reason, or the same error.
pub proof fn lemma_evaluate_deterministic(
    job: JobSpec,
    now: int,
    build: Option<LastBuildInfo>,
    r1: Result<ComplianceVerdict, MonitorError>,
    r2: Result<ComplianceVerdict, MonitorError>,
)
    requires
        evaluate_post(job, now, build, r1),
        evaluate_post(job, now, build, r2),
    ensures
        match (r1, r2) {
            (Ok(a), Ok(b)) => a.status == b.status && a.reason@ == b.reason@,
            (Err(a), Err(b)) => a == b,
            _ => false,
        },
{
}

} // verus!
