//! The monitoring loop's decisions: what to fetch for a job, what its
//! responses mean, and which alerts a tick raises. The loop itself, which
//! performs the requests and delivers the alerts, lives outside the library.
use crate::alerts::{
    after_observe, alert_allowed, alert_body, alert_subject, build_alert, check_error_message, later_of,
    format_check_error_alert, overdue_alert_message, overdue_message, utc_display, AlertEvent,
    GateState, JobState,
};
use crate::builds::{
    is_build_failed, opt_text, outcome_of_result, seconds_of_millis, BuildDetails, BuildOutcome,
    LastBuildInfo,
};
use crate::compliance::{evaluate, evaluate_post, failed_build_reason, ComplianceVerdict, JobSpec, Verdict};
use crate::config::{Config, ConfigJob};
use crate::error::{error_text, MonitorError};
use crate::schedule::{extract_schedule_from_config_xml, schedule_in_config, valid_instant};
use crate::text::{push_str, same_text};
use crate::urls::{build_api_url_from_last_build, reconciled_build_url};
use vstd::prelude::*;

verus! {

/// A 2xx status.
pub open spec fn is_success(status: u16) -> bool {
    200 <= status <= 299
}

/// Fails with `UpstreamError` unless `status` is a success.
pub fn require_success(status: u16) -> (r: Result<(), MonitorError>)
    ensures
        r is Ok <==> is_success(status),
        r matches Err(e) ==> e == (MonitorError::UpstreamError { status }),
{
    if 200 <= status && status <= 299 {
        Ok(())
    } else {
        Err(MonitorError::UpstreamError { status })
    }
}

/// The schedule declared in a job's `config.xml`, from the response to its
/// request: `UpstreamError` for a status other than success,
/// `NoScheduleInConfig` when the body declares none.
pub fn schedule_from_config_response(status: u16, body: &str) -> (r: Result<String, MonitorError>)
    ensures
        !is_success(status) ==> r == Err::<String, MonitorError>(
            MonitorError::UpstreamError { status },
        ),
        is_success(status) ==> match schedule_in_config(body@) {
            Some(s) => r matches Ok(t) && t@ == s,
            None => r == Err::<String, MonitorError>(MonitorError::NoScheduleInConfig),
        },
{
    require_success(status)?;
    match extract_schedule_from_config_xml(body) {
        Some(s) => Ok(s),
        None => Err(MonitorError::NoScheduleInConfig),
    }
}

/// What a job check does next.
#[derive(Debug)]
pub enum CheckStep {
    /// Fetch the build at this URL and hand its record to [`after_build`].
    FetchBuild { url: String },
    /// The check is over.
    Done { result: Result<ComplianceVerdict, MonitorError> },
}

/// The next step of a check once the job summary has arrived with `status`
/// and, for a job with builds, the reference `last_build_url` to its last one.
pub fn after_job_summary(
    job: &JobSpec,
    now: i64,
    base_url: &str,
    status: u16,
    last_build_url: Option<&str>,
) -> (r: CheckStep)
    requires
        valid_instant(now as int),
    ensures
        !is_success(status) ==> (r matches CheckStep::Done { result } && result == Err::<
            ComplianceVerdict,
            MonitorError,
        >(MonitorError::UpstreamError { status })),
        is_success(status) && last_build_url is None ==> (r matches CheckStep::Done { result }
            && evaluate_post(*job, now as int, None, result)),
        is_success(status) ==> (last_build_url matches Some(raw) ==> match reconciled_build_url(
            raw@,
            base_url@,
        ) {
            Ok(u) => r matches CheckStep::FetchBuild { url } && url@ == u,
            Err(e) => r matches CheckStep::Done { result } && result == Err::<
                ComplianceVerdict,
                MonitorError,
            >(e),
        }),
{
    if let Err(e) = require_success(status) {
        return CheckStep::Done { result: Err(e) };
    }
    match last_build_url {
        None => CheckStep::Done { result: evaluate(job, now, None) },
        Some(raw) => match build_api_url_from_last_build(raw, base_url) {
            Ok(url) => CheckStep::FetchBuild { url },
            Err(e) => CheckStep::Done { result: Err(e) },
        },
    }
}

/// The outcome of a build record.
pub open spec fn record_outcome(details: BuildDetails) -> BuildOutcome {
    outcome_of_result(opt_text(details.result))
}

/// The build that a record describes, with its start in whole seconds.
pub open spec fn describes(b: LastBuildInfo, details: BuildDetails) -> bool {
    &&& b.number == details.number
    &&& b.timestamp == seconds_of_millis(details.timestamp as int)
    &&& opt_text(b.result) == opt_text(details.result)
}

/// The verdict once the last build's record has arrived with `status`, and
/// the build it describes where its number is valid. A failed build is
/// overdue whatever its number and timing; any other record with a negative
/// number fails with `InvalidBuildNumber`.
pub fn after_build(job: &JobSpec, now: i64, status: u16, details: &BuildDetails) -> (r: (
    Result<ComplianceVerdict, MonitorError>,
    Option<LastBuildInfo>,
))
    requires
        valid_instant(now as int),
    ensures
        !is_success(status) ==> r.0 == Err::<ComplianceVerdict, MonitorError>(
            MonitorError::UpstreamError { status },
        ) && r.1 is None,
        is_success(status) && record_outcome(*details) == BuildOutcome::Failed ==> (r.0 matches Ok(
            v,
        ) && v.status == Verdict::Overdue && v.reason@ == failed_build_reason()),
        is_success(status) && details.number < 0 ==> r.1 is None,
        is_success(status) && details.number < 0 && record_outcome(*details)
            != BuildOutcome::Failed ==> r.0 == Err::<ComplianceVerdict, MonitorError>(
            MonitorError::InvalidBuildNumber,
        ),
        is_success(status) && details.number >= 0 ==> (r.1 matches Some(b) && describes(b, *details)
            && evaluate_post(*job, now as int, Some(b), r.0)),
{
    if let Err(e) = require_success(status) {
        return (Err(e), None);
    }
    match LastBuildInfo::from_details(details) {
        Err(e) => {
            if is_build_failed(details) {
                let verdict = ComplianceVerdict {
                    status: Verdict::Overdue,
                    reason: "last build finished with a non-success result".to_owned(),
                };
                (Ok(verdict), None)
            } else {
                (Err(e), None)
            }
        },
        Ok(b) => {
            let verdict = evaluate(job, now, Some(&b));
            (verdict, Some(b))
        },
    }
}

/// The state the monitor keeps for one job, under the job's name.
#[derive(Debug, Clone)]
pub struct JobEntry {
    pub name: String,
    pub state: JobState,
}

/// The position of the entry named `name`, if any (the first one).
pub open spec fn entry_index(entries: Seq<JobEntry>, name: Seq<char>) -> Option<int>
    decreases entries.len(),
{
    if entries.len() == 0 {
        None
    } else {
        match entry_index(entries.drop_last(), name) {
            Some(k) => Some(k),
            None => if entries.last().name@ == name {
                Some(entries.len() - 1)
            } else {
                None
            },
        }
    }
}

/// The state kept for job `name`.
pub open spec fn state_for(entries: Seq<JobEntry>, name: Seq<char>) -> Option<JobState> {
    match entry_index(entries, name) {
        Some(k) => Some(entries[k].state),
        None => None,
    }
}

proof fn lemma_entry_index_bounds(entries: Seq<JobEntry>, name: Seq<char>)
    ensures
        entry_index(entries, name) matches Some(k) ==> 0 <= k < entries.len() && entries[k].name@
            == name,
        entry_index(entries, name) is None ==> forall|k: int|
            0 <= k < entries.len() ==> entries[k].name@ != name,
    decreases entries.len(),
{
    if entries.len() > 0 {
        lemma_entry_index_bounds(entries.drop_last(), name);
        if entry_index(entries, name) is None {
            assert forall|k: int| 0 <= k < entries.len() implies #[trigger] entries[k].name@ != name by {
                if k < entries.len() - 1 {
                    assert(entries.drop_last()[k] == entries[k]);
                }
            }
        }
    }
}

proof fn lemma_entry_index_same_names(a: Seq<JobEntry>, b: Seq<JobEntry>, name: Seq<char>)
    requires
        a.len() == b.len(),
        forall|k: int| 0 <= k < a.len() ==> a[k].name@ == b[k].name@,
    ensures
        entry_index(a, name) == entry_index(b, name),
    decreases a.len(),
{
    if a.len() > 0 {
        lemma_entry_index_same_names(a.drop_last(), b.drop_last(), name);
    }
}

/// The monitor: its configuration and what it remembers of each job.
pub struct Monitor {
    config: Config,
    job_states: Vec<JobEntry>,
}

impl Monitor {
    /// Well-formed: no two entries belong to the same job.
    pub closed spec fn wf(&self) -> bool {
        forall|i: int, j: int|
            0 <= i < j < self.job_states@.len() ==> self.job_states@[i].name@
                != self.job_states@[j].name@
    }

    pub closed spec fn spec_config(&self) -> Config {
        self.config
    }

    pub closed spec fn spec_entries(&self) -> Seq<JobEntry> {
        self.job_states@
    }

    /// A monitor that has seen no job yet.
    pub fn new(config: Config) -> (r: Monitor)
        ensures
            r.spec_config() == config,
            r.spec_entries().len() == 0,
            r.wf(),
    {
        Monitor { config, job_states: Vec::new() }
    }

    pub fn config(&self) -> (r: &Config)
        ensures
            *r == self.spec_config(),
    {
        &self.config
    }

    fn find(&self, name: &str) -> (r: Option<usize>)
        ensures
            r matches Some(k) ==> entry_index(self.spec_entries(), name@) == Some(k as int) && k
                < self.spec_entries().len(),
            r is None ==> entry_index(self.spec_entries(), name@) is None,
    {
        let mut i: usize = 0;
        while i < self.job_states.len()
            invariant
                i <= self.job_states.len(),
                forall|k: int| 0 <= k < i ==> self.job_states@[k].name@ != name@,
            decreases self.job_states.len() - i,
        {
            if same_text(self.job_states[i].name.as_str(), name) {
                proof {
                    lemma_first_match(self.job_states@, name@, i as int);
                }
                return Some(i);
            }
            i += 1;
        }
        proof {
            lemma_entry_index_bounds(self.job_states@, name@);
            if let Some(k) = entry_index(self.job_states@, name@) {
                assert(self.job_states@[k].name@ == name@);
            }
        }
        None
    }

    /// The state kept for job `name`, if it was seen.
    pub fn state(&self, name: &str) -> (r: Option<&JobState>)
        ensures
            r matches Some(s) ==> state_for(self.spec_entries(), name@) == Some(*s),
            r is None ==> state_for(self.spec_entries(), name@) is None,
    {
        match self.find(name) {
            Some(k) => Some(&self.job_states[k].state),
            None => None,
        }
    }

    /// The position of the entry of job `name`, created at `now` on first
    /// sight; the states of all jobs stay as they are.
    fn entry_mut(&mut self, name: &str, now: i64) -> (k: usize)
        requires
            old(self).wf(),
        ensures
            final(self).wf(),
            k < final(self).spec_entries().len(),
            final(self).spec_entries()[k as int].name@ == name@,
            entry_index(final(self).spec_entries(), name@) == Some(k as int),
            final(self).spec_config() == old(self).spec_config(),
            state_for(old(self).spec_entries(), name@) matches Some(s)
                ==> final(self).spec_entries()[k as int].state == s,
            state_for(old(self).spec_entries(), name@) is None
                ==> final(self).spec_entries()[k as int].state == JobState::new_spec(now),
            forall|n: Seq<char>|
                n != name@ ==> #[trigger] state_for(final(self).spec_entries(), n) == state_for(
                    old(self).spec_entries(),
                    n,
                ),
    {
        match self.find(name) {
            Some(k) => {
                proof {
                    lemma_entry_index_bounds(self.job_states@, name@);
                }
                k
            },
            None => {
                let ghost before = self.job_states@;
                proof {
                    lemma_entry_index_bounds(before, name@);
                }
                self.job_states.push(JobEntry { name: name.to_owned(), state: JobState::new(now) });
                proof {
                    assert(self.job_states@.drop_last() == before);
                    assert forall|n: Seq<char>| n != name@ implies #[trigger] state_for(
                        self.job_states@,
                        n,
                    ) == state_for(before, n) by {
                        lemma_entry_index_bounds(before, n);
                    }
                }
                (self.job_states.len() - 1)
            },
        }
    }
}

proof fn lemma_first_match(entries: Seq<JobEntry>, name: Seq<char>, i: int)
    requires
        0 <= i < entries.len(),
        entries[i].name@ == name,
        forall|k: int| 0 <= k < i ==> entries[k].name@ != name,
    ensures
        entry_index(entries, name) == Some(i),
    decreases entries.len(),
{
    if i < entries.len() - 1 {
        lemma_first_match(entries.drop_last(), name, i);
    } else {
        lemma_entry_index_bounds(entries.drop_last(), name);
    }
}

impl JobState {
    pub open spec fn new_spec(now: i64) -> JobState {
        JobState { last_check: now, last_build_info: None, last_alert_sent: None, gate: GateState::Quiet }
    }
}

} // verus!

verus! {

/// The state a job has before a check at `now`: the one kept, or a fresh one.
pub open spec fn prior_state(entries: Seq<JobEntry>, name: Seq<char>, now: i64) -> JobState {
    match state_for(entries, name) {
        Some(s) => s,
        None => JobState::new_spec(now),
    }
}

/// The error details of an alert: the step that failed, then the error.
pub open spec fn contextual_error(context: Seq<char>, e: MonitorError) -> Seq<char> {
    context + ": "@ + error_text(e)
}

/// Where the schedule of a configured job comes from.
#[derive(Debug, Clone, PartialEq, Eq)]
pub enum ScheduleSource {
    /// The job is not monitored.
    Disabled,
    /// The schedule written in the configuration.
    Configured { expression: String },
    /// The schedule has to be read from the job's `config.xml` on each tick.
    FromConfigXml,
}

/// Where the schedule of `job` comes from: none for a disabled job, else the
/// configured expression when there is one, else the job's `config.xml`.
pub fn schedule_source(job: &ConfigJob) -> (r: ScheduleSource)
    ensures
        !job.enabled ==> r == ScheduleSource::Disabled,
        job.enabled ==> match job.schedule {
            Some(s) => r matches ScheduleSource::Configured { expression } && expression@ == s@,
            None => r == ScheduleSource::FromConfigXml,
        },
{
    if !job.enabled {
        return ScheduleSource::Disabled;
    }
    match &job.schedule {
        Some(s) => ScheduleSource::Configured { expression: s.clone() },
        None => ScheduleSource::FromConfigXml,
    }
}

/// Whether a failed check of `job` raises an alert under `config`.
pub open spec fn alerts_on_error(job: JobSpec, config: Config, e: MonitorError) -> bool {
    e != MonitorError::ScheduleLookbackExhausted && match job.spec_alert_on_error() {
        Some(b) => b,
        None => config.general.alert_on_check_error,
    }
}

impl Monitor {
    /// Records the outcome of checking `job` at `now` and returns the alert
    /// it raises, if any. A verdict goes through the job's cooldown gate; an
    /// overdue job that may alert raises the overdue alert. An error raises
    /// the error alert when the job's (or else the global) policy asks for
    /// it, independently of the cooldown, naming `error_context` (the step
    /// that failed) and the error; a lookback window without a firing raises
    /// none.
    pub fn record_check(
        &mut self,
        job: &JobSpec,
        now: i64,
        result: &Result<ComplianceVerdict, MonitorError>,
        build: Option<LastBuildInfo>,
        error_context: &str,
    ) -> (r: Option<AlertEvent>)
        requires
            old(self).wf(),
            valid_instant(now as int),
        ensures
            final(self).wf(),
            final(self).spec_config() == old(self).spec_config(),
            forall|n: Seq<char>|
                n != job.spec_name() ==> #[trigger] state_for(final(self).spec_entries(), n)
                    == state_for(old(self).spec_entries(), n),
            ({
                let before = prior_state(old(self).spec_entries(), job.spec_name(), now);
                let url = old(self).spec_config().jenkins.url@;
                match *result {
                    Ok(v) => {
                        &&& state_for(final(self).spec_entries(), job.spec_name()) == Some(
                            after_observe(before, v.status, now, build),
                        )
                        &&& (r is Some <==> v.status == Verdict::Overdue && alert_allowed(
                            before.last_alert_sent,
                            now as int,
                        ))
                        &&& (r matches Some(a) ==> a.subject@ == alert_subject(job.spec_name())
                            && a.raised_at == now && a.body@ == alert_body(
                            job.spec_name(),
                            overdue_message(job.spec_expression(), job.spec_threshold(), v.reason@),
                            utc_display(now as int),
                            url,
                        ))
                    },
                    Err(e) => {
                        &&& state_for(final(self).spec_entries(), job.spec_name()) == Some(
                            JobState {
                                last_check: later_of(before.last_check as int, now as int) as i64,
                                ..before
                            },
                        )
                        &&& (r is Some <==> alerts_on_error(*job, old(self).spec_config(), e))
                        &&& (r matches Some(a) ==> a.subject@ == alert_subject(job.spec_name())
                            && a.raised_at == now && a.body@ == alert_body(
                            job.spec_name(),
                            check_error_message(job.spec_name(), contextual_error(error_context@, e)),
                            utc_display(now as int),
                            url,
                        ))
                    },
                }
            }),
    {
        let k = self.entry_mut(job.name(), now);
        let ghost mid = self.job_states@;
        let mut entry = self.job_states.remove(k);
        assert(entry == mid[k as int]);
        assert(entry.state == prior_state(old(self).spec_entries(), job.spec_name(), now));
        let alert = match result {
            Ok(v) => {
                let fire = entry.state.observe(v.status, now, build);
                if fire {
                    let message = overdue_alert_message(
                        job.schedule().expression(),
                        job.alert_threshold_minutes(),
                        v.reason.as_str(),
                    );
                    Some(build_alert(job.name(), message.as_str(), now, self.config.jenkins.url.as_str()))
                } else {
                    None
                }
            },
            Err(e) => {
                entry.state.touch(now);
                let wanted = match job.alert_on_error() {
                    Some(b) => b,
                    None => self.config.general.alert_on_check_error,
                };
                let lookback_miss = match e {
                    MonitorError::ScheduleLookbackExhausted => true,
                    _ => false,
                };
                if wanted && !lookback_miss {
                    let mut details = String::new();
                    push_str(&mut details, error_context);
                    push_str(&mut details, ": ");
                    push_str(&mut details, e.describe().as_str());
                    let message = format_check_error_alert(job.name(), details.as_str());
                    Some(build_alert(job.name(), message.as_str(), now, self.config.jenkins.url.as_str()))
                } else {
                    None
                }
            },
        };
        let ghost updated = entry;
        self.job_states.insert(k, entry);
        proof {
            assert(self.job_states@ == mid.update(k as int, updated));
            lemma_entry_index_same_names(mid, self.job_states@, job.spec_name());
            assert(state_for(self.job_states@, job.spec_name()) == Some(updated.state));
            assert forall|n: Seq<char>| n != job.spec_name() implies #[trigger] state_for(
                self.job_states@,
                n,
            ) == state_for(mid, n) by {
                lemma_entry_index_same_names(mid, self.job_states@, n);
                lemma_entry_index_bounds(mid, n);
            }
        }
        alert
    }
}

} // verus!
