//! Configuration values read at startup and handed to the monitor.
use vstd::prelude::*;

verus! {

/// The whole configuration.
#[derive(Debug, Clone)]
pub struct Config {
    pub general: ConfigGeneral,
    pub jenkins: ConfigJenkins,
    pub job: Vec<ConfigJob>,
    pub email: Option<ConfigEmail>,
}

/// Process-wide settings.
#[derive(Debug, Clone)]
pub struct ConfigGeneral {
    pub log_level: String,
    pub check_interval_seconds: u64,
    /// Whether a job whose check fails with an error raises an alert, unless
    /// the job says otherwise.
    pub alert_on_check_error: bool,
}

/// Where the upstream job API lives and how to authenticate against it.
#[derive(Debug, Clone)]
pub struct ConfigJenkins {
    pub url: String,
    pub username: String,
    pub password: String,
}

/// One monitored job.
#[derive(Debug, Clone)]
pub struct ConfigJob {
    /// Job name; nested jobs separate their folders with `/`.
    pub name: String,
    /// Cron expression; when absent it is read from the job's `config.xml`.
    pub schedule: Option<String>,
    pub alert_threshold_minutes: i64,
    /// Per-job override of [`ConfigGeneral::alert_on_check_error`].
    pub alert_on_error: Option<bool>,
    pub enabled: bool,
}

/// How alert mails are sent.
#[derive(Debug, Clone)]
pub struct ConfigEmail {
    pub smtp_host: String,
    pub smtp_port: u16,
    pub smtp_tls: bool,
    pub from: String,
    pub to: Vec<String>,
    pub username: Option<String>,
    pub password: Option<String>,
}

/// Seconds between two monitoring ticks when none is configured.
pub fn default_check_interval() -> (r: u64)
    ensures
        r == 60,
{
    60
}

/// Alert threshold in minutes when a job configures none.
pub fn default_alert_threshold() -> (r: i64)
    ensures
        r == 60,
{
    60
}

/// Whether check errors raise alerts when nothing is configured.
pub fn default_alert_on_check_error() -> (r: bool)
    ensures
        r,
{
    true
}

/// Whether mail goes over TLS when nothing is configured.
pub fn default_smtp_tls() -> (r: bool)
    ensures
        r,
{
    true
}

/// Whether a job is monitored when nothing is configured.
pub fn default_job_enabled() -> (r: bool)
    ensures
        r,
{
    true
}

impl ConfigJob {
    /// Whether a failed check of this job raises an alert: its own setting
    /// when it has one, else `global`.
    pub fn alert_on_error_or(&self, global: bool) -> (r: bool)
        ensures
            r == match self.alert_on_error {
                Some(b) => b,
                None => global,
            },
    {
        match self.alert_on_error {
            Some(b) => b,
            None => global,
        }
    }
}

} // verus!
