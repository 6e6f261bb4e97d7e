use chrono::TimeZone;
use jenkins_monitor::alerts::{build_alert, format_check_error_alert};
use jenkins_monitor::builds::{is_build_failed, BuildDetails, LastBuildInfo};
use jenkins_monitor::compliance::{evaluate, should_job_have_run, JobSpec, Verdict};
use jenkins_monitor::retry::{AttemptOutcome, RetryDecision, RetryPolicy, RetryState};
use jenkins_monitor::schedule::{extract_schedule_from_config_xml, normalize_cron_spec, CronSchedule};
use jenkins_monitor::urls::{build_api_url_from_last_build, build_job_api_url, build_job_config_url};

fn ts(y: i32, mo: u32, d: u32, h: u32, mi: u32, s: u32) -> i64 {
    chrono::Utc.with_ymd_and_hms(y, mo, d, h, mi, s).unwrap().timestamp()
}

fn run_statuses(policy: &RetryPolicy, statuses: &[u16]) -> Option<RetryDecision> {
    let mut state = RetryState::new(policy);
    for &status in statuses {
        match state.record(policy, AttemptOutcome::Response { status }) {
            RetryDecision::RetryAfter { .. } => continue,
            other => return Some(other),
        }
    }
    None
}

#[test]
fn build_url_with_trailing_slash() {
    let raw = "https://jenkins.local/job/myjob/15/";
    let cfg = "https://jenkins.local/";
    let out = build_api_url_from_last_build(raw, cfg).expect("should build url");
    assert_eq!(out, "https://jenkins.local/job/myjob/15/api/json");
}

#[test]
fn build_url_without_trailing_slash() {
    let raw = "https://jenkins.local/job/myjob/15";
    let cfg = "https://jenkins.local/";
    let out = build_api_url_from_last_build(raw, cfg).expect("should build url");
    assert_eq!(out, "https://jenkins.local/job/myjob/15/api/json");
}

#[test]
fn build_url_with_spaces() {
    let raw = "https://jenkins.local/job/my folder/15";
    let cfg = "https://jenkins.local/";
    let out = build_api_url_from_last_build(raw, cfg).expect("should build url");
    assert_eq!(out, "https://jenkins.local/job/my%20folder/15/api/json");
}

#[test]
fn uses_configured_host_when_raw_is_ip() {
    let raw = "http://192.168.0.196:8080/job/hourly-tests/1/";
    let cfg = "https://jenkins.local.starcher.dev/";
    let out = build_api_url_from_last_build(raw, cfg).expect("should build url");
    assert_eq!(out, "https://jenkins.local.starcher.dev/job/hourly-tests/1/api/json");
}

#[test]
fn extract_timer_trigger_spec() {
    let xml = r#"
                        <project>
                            <triggers>
                                <hudson.triggers.TimerTrigger>
                                    <spec> 0 0 * * * * </spec>
                                </hudson.triggers.TimerTrigger>
                            </triggers>
                        </project>
                "#;
    let got = extract_schedule_from_config_xml(xml).expect("should find spec");
    assert_eq!(got, "0 0 * * * *");
}

#[test]
fn fallback_first_spec() {
    let xml = r#"
                        <project>
                            <scm>
                                <spec>H/15 * * * *</spec>
                            </scm>
                        </project>
                "#;
    let got = extract_schedule_from_config_xml(xml).expect("should find spec");
    assert_eq!(got, "H/15 * * * *");
}

#[test]
fn http_get_retries_and_succeeds() {
    let policy = RetryPolicy::new(3, 1).unwrap();
    let got = run_statuses(&policy, &[500, 500, 200]).expect("should succeed after retries");
    assert_eq!(got, RetryDecision::Accept { status: 200, attempts: 3 });
}

#[test]
fn http_get_fails_after_max_attempts() {
    let policy = RetryPolicy::new(3, 1).unwrap();
    let res = run_statuses(&policy, &[500, 500, 500]);
    assert!(res.is_some());
    match res.unwrap() {
        RetryDecision::Accept { status, attempts } => {
            assert_eq!(status, 500);
            assert_eq!(attempts, 3);
        }
        other => panic!("unexpected decision {:?}", other),
    }
}

#[test]
fn format_check_error_alert_includes_job_and_error() {
    let err = anyhow::Error::msg("network timeout").context("Failed to fetch job info from Jenkins");
    let msg = format_check_error_alert("nightly-build", &format!("{:#}", err));
    assert!(msg.contains("nightly-build"));
    assert!(msg.contains("network timeout"));
    assert!(msg.contains("Failed to fetch job info from Jenkins"));
}

#[test]
fn send_email_alert_is_captured_in_tests() {
    let msg = "Simulated failure";
    let alert = build_alert("integration-tests", msg, ts(2025, 12, 7, 1, 28, 5), "https://jenkins.local");
    assert!(!alert.body.is_empty());
    assert!(alert.body.contains("integration-tests"));
    assert!(alert.body.contains(msg));
    assert!(alert.subject.contains("integration-tests"));
}

#[test]
fn builds_top_level_job_url() {
    let got = build_job_api_url("https://jenkins.example.com/", "nightly-build");
    assert_eq!(got, "https://jenkins.example.com/job/nightly-build/api/json");
}

#[test]
fn builds_nested_job_url() {
    let got = build_job_api_url("https://jenkins.example.com", "folder/subfolder/nightly build");
    assert_eq!(
        got,
        "https://jenkins.example.com/job/folder/job/subfolder/job/nightly%20build/api/json"
    );
}

#[test]
fn builds_top_level_config_url() {
    let got = build_job_config_url("https://jenkins.example.com/", "nightly-build");
    assert_eq!(got, "https://jenkins.example.com/job/nightly-build/config.xml");
}

#[test]
fn builds_nested_config_url() {
    let got = build_job_config_url("https://jenkins.example.com", "folder/subfolder/nightly build");
    assert_eq!(
        got,
        "https://jenkins.example.com/job/folder/job/subfolder/job/nightly%20build/config.xml"
    );
}

#[test]
fn build_failed_detection() {
    let b = BuildDetails {
        number: 42,
        timestamp: 0,
        result: Some("FAILURE".to_string()),
        display_name: "#42".to_string(),
    };
    assert!(is_build_failed(&b));

    let s = BuildDetails {
        number: 43,
        timestamp: 0,
        result: Some("SUCCESS".to_string()),
        display_name: "#43".to_string(),
    };
    assert!(!is_build_failed(&s));

    let r = BuildDetails {
        number: 44,
        timestamp: 0,
        result: None,
        display_name: "#44".to_string(),
    };
    assert!(!is_build_failed(&r));
}

#[test]
fn normalize_cron_spec_adds_seconds_for_5_field() {
    assert_eq!(normalize_cron_spec("0 0 * * *"), "0 0 0 * * *");
}

#[test]
fn normalize_cron_spec_keeps_6_field() {
    assert_eq!(normalize_cron_spec("0 0 2 * * *"), "0 0 2 * * *");
}

#[test]
fn should_job_have_run_finds_most_recent_scheduled_time() {
    let schedule = CronSchedule::parse("0 0 0 * * *").unwrap();
    let now = ts(2025, 12, 7, 1, 28, 5);
    let threshold_minutes = 90;
    let most_recent = should_job_have_run(&schedule, now, threshold_minutes).unwrap();
    assert_eq!(most_recent, ts(2025, 12, 7, 0, 0, 0));
}

#[test]
fn should_job_have_run_finds_scheduled_time_for_hourly_job() {
    let schedule = CronSchedule::parse("0 0 * * * *").unwrap();
    let now = ts(2025, 12, 7, 14, 35, 0);
    let threshold_minutes = 45;
    let most_recent = should_job_have_run(&schedule, now, threshold_minutes).unwrap();
    assert_eq!(most_recent, ts(2025, 12, 7, 14, 0, 0));
}

#[test]
fn should_job_have_run_handles_job_scheduled_every_4_hours() {
    let schedule = CronSchedule::parse("0 0 */4 * * *").unwrap();
    let now = ts(2025, 12, 7, 17, 30, 0);
    let threshold_minutes = 250;
    let most_recent = should_job_have_run(&schedule, now, threshold_minutes).unwrap();
    assert_eq!(most_recent, ts(2025, 12, 7, 16, 0, 0));
}

#[test]
fn no_false_alert_when_job_runs_within_threshold() {
    let schedule = CronSchedule::parse("0 0 0 * * *").unwrap();
    let now = ts(2025, 12, 7, 1, 28, 5);
    let threshold_minutes = 90;

    let most_recent_scheduled = should_job_have_run(&schedule, now, threshold_minutes).unwrap();
    assert_eq!(most_recent_scheduled, ts(2025, 12, 7, 0, 0, 0));

    let last_build_time = ts(2025, 12, 7, 0, 0, 0);
    let minutes_since_build = (now - last_build_time) / 60;
    assert_eq!(minutes_since_build, 88);

    let minutes_since_scheduled = (now - most_recent_scheduled) / 60;
    assert_eq!(minutes_since_scheduled, 88);

    let job = JobSpec::new("nightly", "0 0 0 * * *", threshold_minutes, true, None).unwrap();
    let build = LastBuildInfo { number: 60, timestamp: last_build_time, result: Some("SUCCESS".to_string()) };
    let verdict = evaluate(&job, now, Some(&build)).unwrap();
    assert!(
        verdict.status == Verdict::Healthy,
        "Should NOT alert when job ran 88 minutes ago with 90 minute threshold"
    );
}

#[test]
fn alert_when_job_missed_scheduled_run() {
    let schedule = CronSchedule::parse("0 0 0 * * *").unwrap();
    let now = ts(2025, 12, 7, 2, 0, 0);
    let threshold_minutes = 90;

    let most_recent_scheduled = should_job_have_run(&schedule, now, threshold_minutes).unwrap();
    assert_eq!(most_recent_scheduled, ts(2025, 12, 7, 0, 0, 0));

    let last_build_time = ts(2025, 12, 6, 0, 0, 0);
    let minutes_since_build = (now - last_build_time) / 60;
    assert_eq!(minutes_since_build, 1560);

    let minutes_since_scheduled = (now - most_recent_scheduled) / 60;
    assert_eq!(minutes_since_scheduled, 120);

    let job = JobSpec::new("nightly", "0 0 0 * * *", threshold_minutes, true, None).unwrap();
    let build = LastBuildInfo { number: 60, timestamp: last_build_time, result: Some("SUCCESS".to_string()) };
    let verdict = evaluate(&job, now, Some(&build)).unwrap();
    assert!(
        verdict.status == Verdict::Overdue,
        "Should ALERT when job last ran 26 hours ago but was scheduled 2 hours ago with 90 minute threshold"
    );
}
