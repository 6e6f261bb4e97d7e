//! Alert de-duplication per job and the text of alert messages.
use crate::builds::LastBuildInfo;
use crate::compliance::Verdict;
use crate::config::ConfigEmail;
use crate::schedule::valid_instant;
use crate::text::{push_signed_decimal, push_str, signed_decimal};
use vstd::prelude::*;

verus! {

/// Minimum time, in seconds, between two alerts for the same job.
pub const ALERT_COOLDOWN_SECONDS: i64 = 3600;

/// Whether a job is currently considered in trouble.
#[derive(Debug, Clone, Copy, PartialEq, Eq, Structural)]
pub enum GateState {
    Quiet,
    Alerting,
}

/// What the monitor remembers of one job between ticks.
#[derive(Debug, Clone)]
pub struct JobState {
    /// Latest instant the job was checked at; it never decreases.
    pub last_check: i64,
    pub last_build_info: Option<LastBuildInfo>,
    /// When the last alert for the job went out.
    pub last_alert_sent: Option<i64>,
    pub gate: GateState,
}

/// Whether an overdue job may alert at `now`, given its last alert: it may
/// when it never alerted or the last alert is more than the cooldown ago.
pub open spec fn alert_allowed(last_alert_sent: Option<i64>, now: int) -> bool {
    match last_alert_sent {
        None => true,
        Some(t) => now - t > ALERT_COOLDOWN_SECONDS,
    }
}

pub open spec fn later_of(a: int, b: int) -> int {
    if a >= b {
        a
    } else {
        b
    }
}

impl JobState {
    /// The state of a job first seen at `now`.
    pub fn new(now: i64) -> (r: JobState)
        ensures
            r.last_check == now,
            r.last_build_info is None,
            r.last_alert_sent is None,
            r.gate == GateState::Quiet,
    {
        JobState { last_check: now, last_build_info: None, last_alert_sent: None, gate: GateState::Quiet }
    }

    /// Takes in the verdict of a check at `now` and says whether an alert
    /// fires: only for an overdue job that may alert. A healthy verdict
    /// quiets the job but keeps the memory of the last alert.
    pub fn observe(&mut self, verdict: Verdict, now: i64, build: Option<LastBuildInfo>) -> (fire:
        bool)
        ensures
            fire == (verdict == Verdict::Overdue && alert_allowed(old(self).last_alert_sent, now as int)),
            final(self).last_alert_sent == if fire {
                Some(now)
            } else {
                old(self).last_alert_sent
            },
            final(self).gate == if verdict == Verdict::Overdue {
                GateState::Alerting
            } else {
                GateState::Quiet
            },
            final(self).last_check == later_of(old(self).last_check as int, now as int),
            final(self).last_build_info == build,
            *final(self) == after_observe(*old(self), verdict, now, build),
    {
        if now > self.last_check {
            self.last_check = now;
        }
        self.last_build_info = build;
        match verdict {
            Verdict::Healthy => {
                self.gate = GateState::Quiet;
                false
            },
            Verdict::Overdue => {
                self.gate = GateState::Alerting;
                let allowed = match self.last_alert_sent {
                    None => true,
                    Some(t) => now as i128 - t as i128 > ALERT_COOLDOWN_SECONDS as i128,
                };
                if allowed {
                    self.last_alert_sent = Some(now);
                }
                allowed
            },
        }
    }
}

/// The number of alerts that a job in state `s` raises when it is found
/// overdue at each of the ticks `times` in turn, with latest builds `builds`.
pub open spec fn overdue_alerts(s: JobState, times: Seq<i64>, builds: Seq<Option<LastBuildInfo>>) -> nat
    decreases times.len(),
{
    if times.len() == 0 || builds.len() == 0 {
        0
    } else {
        let next = after_observe(s, Verdict::Overdue, times[0], builds[0]);
        (if alert_allowed(s.last_alert_sent, times[0] as int) {
            1nat
        } else {
            0nat
        }) + overdue_alerts(next, times.drop_first(), builds.drop_first())
    }
}

/// A job that stays overdue over ticks that all lie within one cooldown
/// window, starting at a tick where it may alert, alerts exactly once,
/// whatever builds the ticks see.
pub proof fn lemma_one_alert_per_cooldown(s: JobState, times: Seq<i64>, builds: Seq<Option<LastBuildInfo>>)
    requires
        times.len() >= 1,
        builds.len() == times.len(),
        forall|i: int, j: int| 0 <= i <= j < times.len() ==> times[i] <= times[j],
        times.last() - times[0] <= ALERT_COOLDOWN_SECONDS,
        alert_allowed(s.last_alert_sent, times[0] as int),
    ensures
        overdue_alerts(s, times, builds) == 1,
{
    let next = after_observe(s, Verdict::Overdue, times[0], builds[0]);
    lemma_no_alert_within_cooldown(next, times[0], times.drop_first(), builds.drop_first());
}

proof fn lemma_no_alert_within_cooldown(
    s: JobState,
    sent: i64,
    times: Seq<i64>,
    builds: Seq<Option<LastBuildInfo>>,
)
    requires
        s.last_alert_sent == Some(sent),
        forall|i: int| 0 <= i < times.len() ==> times[i] - sent <= ALERT_COOLDOWN_SECONDS,
    ensures
        overdue_alerts(s, times, builds) == 0,
    decreases times.len(),
{
    if times.len() > 0 && builds.len() > 0 {
        let next = after_observe(s, Verdict::Overdue, times[0], builds[0]);
        lemma_no_alert_within_cooldown(next, sent, times.drop_first(), builds.drop_first());
    }
}

} // verus!

verus! {

/// The instant `t` as `YYYY-MM-DD HH:MM:SS UTC`.
pub uninterp spec fn utc_display(t: int) -> Seq<char>;

/// Relies on chrono's `DateTime::from_timestamp` and `format`: the text
/// depends on the instant alone.
#[verifier::external_body]
fn format_utc(t: i64) -> (r: String)
    requires
        valid_instant(t as int),
    ensures
        r@ == utc_display(t as int),
{
    match chrono::DateTime::from_timestamp(t, 0) {
        Some(d) => d.format("%Y-%m-%d %H:%M:%S UTC").to_string(),
        None => String::new(),
    }
}

/// The instant `t` as `YYYY-MM-DD HH:MM:SS UTC`.
pub fn utc_text(t: i64) -> (r: String)
    requires
        valid_instant(t as int),
    ensures
        r@ == utc_display(t as int),
{
    format_utc(t)
}

/// The alert message for a job whose check failed with an error.
pub open spec fn check_error_message(job_name: Seq<char>, error: Seq<char>) -> Seq<char> {
    "Failed to verify job '"@ + job_name + "'. Error details:\n\n"@ + error
        + "\n\nCheck the monitor logs for the full error chain."@
}

/// The alert message for a job whose check failed with the error described
/// by `error_text`.
pub fn format_check_error_alert(job_name: &str, error_text: &str) -> (r: String)
    ensures
        r@ == check_error_message(job_name@, error_text@),
{
    let mut out = String::new();
    push_str(&mut out, "Failed to verify job '");
    push_str(&mut out, job_name);
    push_str(&mut out, "'. Error details:\n\n");
    push_str(&mut out, error_text);
    push_str(&mut out, "\n\nCheck the monitor logs for the full error chain.");
    out
}

/// The alert message for an overdue job.
pub open spec fn overdue_message(schedule: Seq<char>, threshold: int, reason: Seq<char>) -> Seq<
    char,
> {
    "Job hasn't run within expected schedule. Expected schedule: "@ + schedule
        + "\nAlert threshold: "@ + signed_decimal(threshold) + " minutes\nReason: "@ + reason
}

/// The alert message for an overdue job: its schedule, its threshold and the
/// reason of the verdict.
pub fn overdue_alert_message(schedule: &str, threshold_minutes: i64, reason: &str) -> (r: String)
    ensures
        r@ == overdue_message(schedule@, threshold_minutes as int, reason@),
{
    let mut out = String::new();
    push_str(&mut out, "Job hasn't run within expected schedule. Expected schedule: ");
    push_str(&mut out, schedule);
    push_str(&mut out, "\nAlert threshold: ");
    push_signed_decimal(&mut out, threshold_minutes);
    push_str(&mut out, " minutes\nReason: ");
    push_str(&mut out, reason);
    out
}

/// The subject of an alert mail.
pub open spec fn alert_subject(job_name: Seq<char>) -> Seq<char> {
    "Jenkins Monitor Alert: "@ + job_name
}

/// The body of an alert mail.
pub open spec fn alert_body(job_name: Seq<char>, message: Seq<char>, time: Seq<char>, url: Seq<
    char,
>) -> Seq<char> {
    "Jenkins Monitor Alert\n\nJob: "@ + job_name + "\n\n"@ + message + "\n\nTime: "@ + time
        + "\nJenkins URL: "@ + url + "\n"@
}

/// An alert, ready for the alert sink.
#[derive(Debug, Clone)]
pub struct AlertEvent {
    pub job_name: String,
    pub subject: String,
    pub body: String,
    /// When the alert was raised, in seconds since the Unix epoch.
    pub raised_at: i64,
}

/// The alert for `job_name` carrying `message`, raised at `now`, with the
/// upstream base URL `jenkins_url` for reference.
pub fn build_alert(job_name: &str, message: &str, now: i64, jenkins_url: &str) -> (r: AlertEvent)
    requires
        valid_instant(now as int),
    ensures
        r.job_name@ == job_name@,
        r.subject@ == alert_subject(job_name@),
        r.body@ == alert_body(job_name@, message@, utc_display(now as int), jenkins_url@),
        r.raised_at == now,
{
    let mut subject = String::new();
    push_str(&mut subject, "Jenkins Monitor Alert: ");
    push_str(&mut subject, job_name);
    let time = utc_text(now);
    let mut body = String::new();
    push_str(&mut body, "Jenkins Monitor Alert\n\nJob: ");
    push_str(&mut body, job_name);
    push_str(&mut body, "\n\n");
    push_str(&mut body, message);
    push_str(&mut body, "\n\nTime: ");
    push_str(&mut body, time.as_str());
    push_str(&mut body, "\nJenkins URL: ");
    push_str(&mut body, jenkins_url);
    push_str(&mut body, "\n");
    AlertEvent { job_name: job_name.to_owned(), subject, body, raised_at: now }
}

/// Sends alerts by mail with the configured settings.
pub struct EmailAlerter {
    config: ConfigEmail,
}

impl EmailAlerter {
    pub fn new(config: ConfigEmail) -> (r: EmailAlerter)
        ensures
            r.spec_config() == config,
    {
        EmailAlerter { config }
    }

    pub closed spec fn spec_config(&self) -> ConfigEmail {
        self.config
    }

    pub fn config(&self) -> (r: &ConfigEmail)
        ensures
            *r == self.spec_config(),
    {
        &self.config
    }

    /// The user name and password to log in with: both when both are
    /// configured, else none.
    pub fn credentials(&self) -> (r: Option<(String, String)>)
        ensures
            r matches Some((u, p)) ==> self.spec_config().username == Some(u)
                && self.spec_config().password == Some(p),
            r is None <==> self.spec_config().username is None
                || self.spec_config().password is None,
    {
        match (&self.config.username, &self.config.password) {
            (Some(u), Some(p)) => Some((u.clone(), p.clone())),
            _ => None,
        }
    }
}

} // verus!

verus! {

/// The state of a job after a check at `now` with verdict `verdict` and
/// latest build `build`, given its state `s` before.
pub open spec fn after_observe(s: JobState, verdict: Verdict, now: i64, build: Option<LastBuildInfo>) -> JobState {
    let fire = verdict == Verdict::Overdue && alert_allowed(s.last_alert_sent, now as int);
    JobState {
        last_check: later_of(s.last_check as int, now as int) as i64,
        last_build_info: build,
        last_alert_sent: if fire {
            Some(now)
        } else {
            s.last_alert_sent
        },
        gate: if verdict == Verdict::Overdue {
            GateState::Alerting
        } else {
            GateState::Quiet
        },
    }
}

impl JobState {
    /// Notes a check at `now` that reached no verdict.
    pub fn touch(&mut self, now: i64)
        ensures
            *final(self) == (JobState {
                last_check: later_of(old(self).last_check as int, now as int) as i64,
                ..*old(self)
            }),
    {
        if now > self.last_check {
            self.last_check = now;
        }
    }
}

} // verus!
