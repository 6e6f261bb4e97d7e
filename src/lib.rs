//! Schedule-compliance monitoring for CI jobs: cron evaluation, build
//! classification, overdue verdicts, alert de-duplication and the request
//! policy used against the upstream job API.

pub mod alerts;
pub mod builds;
pub mod compliance;
pub mod config;
pub mod error;
pub mod monitor;
pub mod retry;
pub mod schedule;
pub mod text;
pub mod urls;
