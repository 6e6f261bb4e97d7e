use chrono::TimeZone;
use jenkins_monitor::alerts::{overdue_alert_message, utc_text, EmailAlerter, JobState, ALERT_COOLDOWN_SECONDS};
use jenkins_monitor::builds::{classify, BuildDetails, BuildOutcome, LastBuildInfo};
use jenkins_monitor::compliance::{evaluate, JobSpec, Verdict, MAX_THRESHOLD_MINUTES};
use jenkins_monitor::config::{
    default_alert_on_check_error, default_alert_threshold, default_check_interval, default_smtp_tls, Config,
    ConfigEmail, ConfigGeneral, ConfigJenkins, ConfigJob,
};
use jenkins_monitor::error::MonitorError;
use jenkins_monitor::monitor::{
    after_build, after_job_summary, require_success, schedule_from_config_response, schedule_source, CheckStep, Monitor,
    ScheduleSource,
};
use jenkins_monitor::retry::{AttemptOutcome, RetryDecision, RetryPolicy, RetryState};
use jenkins_monitor::schedule::{most_recent_firing, normalize_cron_spec, CronSchedule};
use jenkins_monitor::urls::{build_api_url_from_last_build, build_server_api_url, same_origin, split_text};

fn ts(y: i32, mo: u32, d: u32, h: u32, mi: u32, s: u32) -> i64 {
    chrono::Utc.with_ymd_and_hms(y, mo, d, h, mi, s).unwrap().timestamp()
}

fn daily_job(threshold: i64) -> JobSpec {
    JobSpec::new("nightly", "0 0 0 * * *", threshold, true, None).unwrap()
}

fn build_at(t: i64, result: Option<&str>) -> LastBuildInfo {
    LastBuildInfo { number: 7, timestamp: t, result: result.map(|r| r.to_string()) }
}

fn sample_config(alert_on_check_error: bool) -> Config {
    Config {
        general: ConfigGeneral {
            log_level: "info".to_string(),
            check_interval_seconds: 60,
            alert_on_check_error,
        },
        jenkins: ConfigJenkins {
            url: "https://ci.example.com/".to_string(),
            username: "u".to_string(),
            password: "p".to_string(),
        },
        job: vec![],
        email: None,
    }
}

#[test]
fn failed_build_is_overdue_regardless_of_timing() {
    let job = daily_job(90);
    let now = ts(2025, 12, 7, 1, 28, 5);
    let fresh = build_at(now, Some("FAILURE"));
    let v = evaluate(&job, now, Some(&fresh)).unwrap();
    assert_eq!(v.status, Verdict::Overdue);
    assert_eq!(v.reason, "last build finished with a non-success result");
    let odd_time = build_at(i64::MAX, Some("UNSTABLE"));
    assert_eq!(evaluate(&job, now, Some(&odd_time)).unwrap().status, Verdict::Overdue);
}

#[test]
fn job_without_builds_is_overdue() {
    let job = daily_job(90);
    let v = evaluate(&job, ts(2025, 12, 7, 1, 0, 0), None).unwrap();
    assert_eq!(v.status, Verdict::Overdue);
    assert_eq!(v.reason, "job has no build history");
}

#[test]
fn evaluation_is_repeatable() {
    let job = daily_job(90);
    let now = ts(2025, 12, 7, 2, 0, 0);
    let build = build_at(ts(2025, 12, 6, 0, 0, 0), Some("SUCCESS"));
    let a = evaluate(&job, now, Some(&build)).unwrap();
    let b = evaluate(&job, now, Some(&build)).unwrap();
    assert_eq!(a.status, b.status);
    assert_eq!(a.reason, b.reason);
}

#[test]
fn worked_example_healthy_reason() {
    let job = daily_job(90);
    let now = ts(2025, 12, 7, 1, 28, 5);
    let build = build_at(ts(2025, 12, 7, 0, 0, 0), Some("SUCCESS"));
    let v = evaluate(&job, now, Some(&build)).unwrap();
    assert_eq!(v.status, Verdict::Healthy);
    assert_eq!(
        v.reason,
        "job is on schedule: last build 88 minutes ago, scheduled run 88 minutes ago, threshold 90 minutes"
    );
}

#[test]
fn worked_example_overdue_reason() {
    let job = daily_job(90);
    let now = ts(2025, 12, 7, 2, 0, 0);
    let build = build_at(ts(2025, 12, 6, 0, 0, 0), None);
    let v = evaluate(&job, now, Some(&build)).unwrap();
    assert_eq!(v.status, Verdict::Overdue);
    assert_eq!(
        v.reason,
        "job has not run since its expected schedule: last build 1560 minutes ago, scheduled run 120 minutes ago, threshold 90 minutes"
    );
}

#[test]
fn boundary_of_threshold_is_healthy() {
    // age_of_build == age_of_schedule + threshold is not overdue
    let job = daily_job(90);
    let now = ts(2025, 12, 7, 1, 0, 0);
    let build = build_at(now - (60 + 90) * 60, Some("SUCCESS"));
    assert_eq!(evaluate(&job, now, Some(&build)).unwrap().status, Verdict::Healthy);
    let older = build_at(now - (60 + 91) * 60, Some("SUCCESS"));
    assert_eq!(evaluate(&job, now, Some(&older)).unwrap().status, Verdict::Overdue);
}

#[test]
fn running_build_in_the_future_uses_truncated_minutes() {
    let job = daily_job(90);
    let now = ts(2025, 12, 7, 1, 0, 0);
    let build = build_at(now + 119, None);
    let v = evaluate(&job, now, Some(&build)).unwrap();
    assert_eq!(v.status, Verdict::Healthy);
    assert!(v.reason.contains("last build -1 minutes ago"));
}

#[test]
fn lookback_without_firing_is_an_error() {
    let job = JobSpec::new("yearly", "0 0 0 1 1 *", 1, true, None).unwrap();
    let now = ts(2025, 12, 7, 1, 0, 0);
    let build = build_at(now - 60, Some("SUCCESS"));
    assert_eq!(evaluate(&job, now, Some(&build)).unwrap_err(), MonitorError::ScheduleLookbackExhausted);
}

#[test]
fn out_of_range_build_time_is_an_error() {
    let job = daily_job(90);
    let now = ts(2025, 12, 7, 1, 0, 0);
    let build = build_at(i64::MAX, Some("SUCCESS"));
    assert_eq!(evaluate(&job, now, Some(&build)).unwrap_err(), MonitorError::InvalidTimestamp);
}

#[test]
fn job_spec_rejects_bad_inputs() {
    assert_eq!(JobSpec::new("j", "not a cron", 10, true, None).err(), Some(MonitorError::InvalidSchedule));
    assert_eq!(JobSpec::new("j", "0 0 * * *", -1, true, None).err(), Some(MonitorError::InvalidThreshold));
    assert_eq!(
        JobSpec::new("j", "0 0 * * *", MAX_THRESHOLD_MINUTES + 1, true, None).err(),
        Some(MonitorError::InvalidThreshold)
    );
    let five = JobSpec::new("j", " 0 0 * * * ", 10, false, Some(false)).unwrap();
    assert_eq!(five.schedule().expression(), "0 0 0 * * *");
    assert_eq!(five.name(), "j");
    assert!(!five.enabled());
    assert_eq!(five.alert_on_error(), Some(false));
    assert_eq!(five.alert_threshold_minutes(), 10);
}

#[test]
fn job_spec_from_config_uses_given_schedule() {
    let cfg = ConfigJob {
        name: "folder/job".to_string(),
        schedule: None,
        alert_threshold_minutes: default_alert_threshold(),
        alert_on_error: None,
        enabled: true,
    };
    let job = JobSpec::from_config(&cfg, "H/15 * * * *");
    assert_eq!(job.err(), Some(MonitorError::InvalidSchedule));
    let job = JobSpec::from_config(&cfg, "*/15 * * * *").unwrap();
    assert_eq!(job.schedule().expression(), "0 */15 * * * *");
    assert_eq!(job.alert_threshold_minutes(), 60);
}

#[test]
fn cooldown_allows_one_alert_per_window() {
    let mut monitor = Monitor::new(sample_config(true));
    let job = daily_job(90);
    let start = ts(2025, 12, 7, 2, 0, 0);
    let mut fired = 0;
    for i in 0..7 {
        let now = start + i * 600;
        let v = evaluate(&job, now, None);
        if monitor.record_check(&job, now, &v, None, "Failed to fetch job info from Jenkins").is_some() {
            fired += 1;
        }
    }
    assert_eq!(fired, 1);
    let state = monitor.state("nightly").unwrap();
    assert_eq!(state.last_alert_sent, Some(start));
    assert_eq!(state.last_check, start + 3600);
    let later = start + ALERT_COOLDOWN_SECONDS + 1;
    let v = evaluate(&job, later, None);
    let alert = monitor.record_check(&job, later, &v, None, "Failed to fetch job info from Jenkins").expect("cooldown is over");
    assert_eq!(alert.subject, "Jenkins Monitor Alert: nightly");
    assert!(alert.body.contains("Expected schedule: 0 0 0 * * *"));
    assert!(alert.body.contains("Time: 2025-12-07 03:00:01 UTC"));
    assert!(alert.body.contains("Jenkins URL: https://ci.example.com/"));
}

#[test]
fn healthy_verdict_quiets_without_forgetting_last_alert() {
    let mut state = JobState::new(100);
    assert!(state.observe(Verdict::Overdue, 100, None));
    assert!(!state.observe(Verdict::Healthy, 200, None));
    assert_eq!(state.last_alert_sent, Some(100));
    assert!(!state.observe(Verdict::Overdue, 300, None));
    assert!(!state.observe(Verdict::Overdue, 50, None));
    assert_eq!(state.last_check, 300);
}

#[test]
fn check_errors_alert_by_policy() {
    let job_default = daily_job(90);
    let job_off = JobSpec::new("quiet", "0 0 0 * * *", 90, true, Some(false)).unwrap();
    let now = ts(2025, 12, 7, 2, 0, 0);
    let err: Result<_, MonitorError> = Err(MonitorError::UpstreamError { status: 503 });

    let mut on = Monitor::new(sample_config(true));
    let alert = on.record_check(&job_default, now, &err, None, "Failed to fetch job info from Jenkins").expect("global policy alerts");
    assert!(alert.body.contains("Failed to verify job 'nightly'"));
    assert!(alert.body.contains("Failed to fetch job info from Jenkins: upstream API returned error status 503"));
    assert!(on.record_check(&job_default, now + 1, &err, None, "Failed to fetch job info from Jenkins").is_some());
    assert!(on.record_check(&job_off, now, &err, None, "Failed to fetch job info from Jenkins").is_none());
    let miss: Result<_, MonitorError> = Err(MonitorError::ScheduleLookbackExhausted);
    assert!(on.record_check(&job_default, now, &miss, None, "Failed to fetch job info from Jenkins").is_none());

    let mut off = Monitor::new(sample_config(false));
    assert!(off.record_check(&job_default, now, &err, None, "Failed to fetch job info from Jenkins").is_none());
}

#[test]
fn url_reconciliation_replaces_host_and_keeps_path() {
    let out = build_api_url_from_last_build("http://10.0.0.5:8080/job/x/15/", "https://ci.example.com/").unwrap();
    assert_eq!(out, "https://ci.example.com/job/x/15/api/json");
}

#[test]
fn url_reconciliation_errors() {
    assert_eq!(
        build_api_url_from_last_build("not a url", "https://ci.example.com/"),
        Err(MonitorError::MalformedUpstreamReference)
    );
    assert_eq!(
        build_api_url_from_last_build("http://10.0.0.5/job/x/1/", "not a base"),
        Err(MonitorError::InvalidBaseUrl)
    );
}

#[test]
fn same_origin_compares_scheme_and_host() {
    assert!(same_origin("https", Some("a"), "https", Some("a")));
    assert!(!same_origin("http", Some("a"), "https", Some("a")));
    assert!(!same_origin("https", Some("a"), "https", None));
    assert!(same_origin("file", None, "file", None));
}

#[test]
fn server_url_and_split() {
    assert_eq!(build_server_api_url("https://ci.example.com//"), "https://ci.example.com/api/json");
    assert_eq!(split_text("a//b/", '/'), vec!["a", "", "b", ""]);
    assert_eq!(split_text("", '/'), vec![""]);
}

#[test]
fn retry_backoff_doubles_and_transport_failures_give_up() {
    let policy = RetryPolicy::standard();
    let mut state = RetryState::new(&policy);
    let fail = || AttemptOutcome::TransportFailure { error: "connection refused".to_string() };
    assert_eq!(state.record(&policy, fail()), RetryDecision::RetryAfter { delay_ms: 500 });
    assert_eq!(state.record(&policy, fail()), RetryDecision::RetryAfter { delay_ms: 1000 });
    assert_eq!(
        state.record(&policy, fail()),
        RetryDecision::Fail {
            error: MonitorError::RetrievalFailed { attempts: 3, last_error: "connection refused".to_string() }
        }
    );
}

#[test]
fn client_errors_are_not_retried() {
    let policy = RetryPolicy::new(3, 10).unwrap();
    let mut state = RetryState::new(&policy);
    assert_eq!(
        state.record(&policy, AttemptOutcome::Response { status: 404 }),
        RetryDecision::Accept { status: 404, attempts: 1 }
    );
    assert_eq!(RetryPolicy::new(0, 10).err(), Some(MonitorError::NoAttemptsAllowed));
    let mut single = RetryState::new(&RetryPolicy::new(1, 10).unwrap());
    assert_eq!(
        single.record(&RetryPolicy::new(1, 10).unwrap(), AttemptOutcome::Response { status: 502 }),
        RetryDecision::Accept { status: 502, attempts: 1 }
    );
}

#[test]
fn responses_and_config_xml() {
    assert_eq!(require_success(204), Ok(()));
    assert_eq!(require_success(404), Err(MonitorError::UpstreamError { status: 404 }));
    assert_eq!(
        schedule_from_config_response(200, "<project><spec>0 5 * * *</spec></project>"),
        Ok("0 5 * * *".to_string())
    );
    assert_eq!(schedule_from_config_response(200, "<project/>"), Err(MonitorError::NoScheduleInConfig));
    assert_eq!(
        schedule_from_config_response(500, "<spec>x</spec>"),
        Err(MonitorError::UpstreamError { status: 500 })
    );
}

#[test]
fn check_steps() {
    let job = daily_job(90);
    let now = ts(2025, 12, 7, 2, 0, 0);
    match after_job_summary(&job, now, "https://ci.example.com/", 200, Some("http://10.0.0.5/job/nightly/3")) {
        CheckStep::FetchBuild { url } => assert_eq!(url, "https://ci.example.com/job/nightly/3/api/json"),
        other => panic!("unexpected step {:?}", other),
    }
    match after_job_summary(&job, now, "https://ci.example.com/", 200, None) {
        CheckStep::Done { result } => assert_eq!(result.unwrap().status, Verdict::Overdue),
        other => panic!("unexpected step {:?}", other),
    }
    match after_job_summary(&job, now, "https://ci.example.com/", 403, None) {
        CheckStep::Done { result } => assert_eq!(result.unwrap_err(), MonitorError::UpstreamError { status: 403 }),
        other => panic!("unexpected step {:?}", other),
    }
    let details = BuildDetails {
        number: 3,
        timestamp: ts(2025, 12, 7, 0, 30, 0) * 1000 + 999,
        result: Some("SUCCESS".to_string()),
        display_name: "#3".to_string(),
    };
    let (verdict, build) = after_build(&job, now, 200, &details);
    assert_eq!(verdict.unwrap().status, Verdict::Healthy);
    assert_eq!(build.unwrap().timestamp, ts(2025, 12, 7, 0, 30, 0));
    let negative = BuildDetails { number: -1, ..details.clone() };
    assert_eq!(after_build(&job, now, 200, &negative).0.unwrap_err(), MonitorError::InvalidBuildNumber);
    let failed_negative = BuildDetails { number: -1, result: Some("FAILURE".to_string()), ..details.clone() };
    let (verdict, build) = after_build(&job, now, 200, &failed_negative);
    assert_eq!(verdict.unwrap().status, Verdict::Overdue);
    assert!(build.is_none());
    let failed = BuildDetails { result: Some("FAILURE".to_string()), ..details.clone() };
    let (verdict, build) = after_build(&job, now, 200, &failed);
    assert_eq!(verdict.unwrap().status, Verdict::Overdue);
    assert_eq!(build.unwrap().result.as_deref(), Some("FAILURE"));
    let running = BuildDetails { result: None, ..details.clone() };
    let (verdict, build) = after_build(&job, now, 200, &running);
    assert_eq!(verdict.unwrap().status, Verdict::Healthy);
    assert!(build.unwrap().result.is_none());
}

#[test]
fn millisecond_timestamps_round_down() {
    let d = BuildDetails { number: 1, timestamp: -1, result: None, display_name: String::new() };
    assert_eq!(LastBuildInfo::from_details(&d).unwrap().timestamp, -1);
    let d = BuildDetails { number: 1, timestamp: 1999, result: None, display_name: String::new() };
    assert_eq!(LastBuildInfo::from_details(&d).unwrap().timestamp, 1);
}

#[test]
fn classification() {
    assert_eq!(classify(None), BuildOutcome::Running);
    assert_eq!(classify(Some("SUCCESS")), BuildOutcome::Success);
    assert_eq!(classify(Some("ABORTED")), BuildOutcome::Failed);
    assert_eq!(classify(Some("")), BuildOutcome::Failed);
    assert_eq!(build_at(0, None).outcome(), BuildOutcome::Running);
}

#[test]
fn normalization_trims_and_counts_fields() {
    assert_eq!(normalize_cron_spec("  0 0 * * *\n"), "0 0 0 * * *");
    assert_eq!(normalize_cron_spec("0  0\t*  * *"), "0 0  0\t*  * *");
    assert_eq!(normalize_cron_spec("0 0 0 1 1 * 2030"), "0 0 0 1 1 * 2030");
    assert_eq!(normalize_cron_spec(""), "");
}

#[test]
fn most_recent_firing_includes_window_start() {
    let schedule = CronSchedule::parse("0 0 * * * *").unwrap();
    let now = ts(2025, 12, 7, 14, 35, 0);
    assert_eq!(most_recent_firing(&schedule, now, 35 * 60), Some(ts(2025, 12, 7, 14, 0, 0)));
    assert_eq!(most_recent_firing(&schedule, now, 35 * 60 - 1), None);
    assert_eq!(most_recent_firing(&schedule, ts(2025, 12, 7, 14, 0, 0), 0), Some(ts(2025, 12, 7, 14, 0, 0)));
}

#[test]
fn messages_and_time_text() {
    assert_eq!(utc_text(ts(2025, 12, 7, 1, 28, 5)), "2025-12-07 01:28:05 UTC");
    assert_eq!(
        overdue_alert_message("0 0 * * *", 90, "r"),
        "Job hasn't run within expected schedule. Expected schedule: 0 0 * * *\nAlert threshold: 90 minutes\nReason: r"
    );
    assert_eq!(
        MonitorError::RetrievalFailed { attempts: 3, last_error: "timeout".to_string() }.describe(),
        "request failed after 3 attempts: timeout"
    );
}

#[test]
fn defaults_and_credentials() {
    assert_eq!(default_check_interval(), 60);
    assert_eq!(default_alert_threshold(), 60);
    assert!(default_alert_on_check_error());
    assert!(default_smtp_tls());
    let mut email = ConfigEmail {
        smtp_host: "smtp.demo".to_string(),
        smtp_port: 587,
        smtp_tls: true,
        from: "a@b".to_string(),
        to: vec!["a@b".to_string()],
        username: Some("user".to_string()),
        password: None,
    };
    assert!(EmailAlerter::new(email.clone()).credentials().is_none());
    email.password = Some("SECRET-REDACTED".to_string());
    let alerter = EmailAlerter::new(email);
    assert_eq!(alerter.credentials(), Some(("user".to_string(), "SECRET-REDACTED".to_string())));
    assert_eq!(alerter.config().smtp_port, 587);
    let job = ConfigJob {
        name: "j".to_string(),
        schedule: None,
        alert_threshold_minutes: 5,
        alert_on_error: Some(false),
        enabled: true,
    };
    assert!(!job.alert_on_error_or(true));
}

#[test]
fn schedule_sources() {
    let mut job = ConfigJob {
        name: "j".to_string(),
        schedule: Some("0 0 * * *".to_string()),
        alert_threshold_minutes: 5,
        alert_on_error: None,
        enabled: true,
    };
    assert_eq!(schedule_source(&job), ScheduleSource::Configured { expression: "0 0 * * *".to_string() });
    job.schedule = None;
    assert_eq!(schedule_source(&job), ScheduleSource::FromConfigXml);
    job.enabled = false;
    assert_eq!(schedule_source(&job), ScheduleSource::Disabled);
}
