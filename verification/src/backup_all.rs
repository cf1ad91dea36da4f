//! Backing up every application at once: how many backups run side by side,
//! and how each one's outcome is reported.
use crate::client::{failures, summarize, AppBackupStatus, BackupAllResponse};
use crate::config::Settings;
use crate::error::KubeError;
use crate::models::App;
use vstd::prelude::*;

verus! {

/// How many backups of a backup-all run go on at once: the configured
/// number, at least one, and at most what a `usize` holds.
pub open spec fn width_spec(concurrency: u64) -> int {
    if concurrency == 0 {
        1
    } else if concurrency > usize::MAX {
        usize::MAX as int
    } else {
        concurrency as int
    }
}

/// How many backups of a backup-all run go on at once.
pub fn backup_all_width(settings: &Settings) -> (w: usize)
    ensures
        w == width_spec(settings.backup_all_concurrency),
{
    let c = settings.backup_all_concurrency;
    if c == 0 {
        1
    } else if c > usize::MAX as u64 {
        usize::MAX
    } else {
        c as usize
    }
}

/// How one application's backup in a backup-all run is reported: its name
/// and namespace, whether it succeeded, and the error's text when it did
/// not (a refused task counts as a failed backup).
pub fn backup_status(app: &App, outcome: &Result<(), KubeError>) -> (r: AppBackupStatus)
    ensures
        r.app@ == app.name@,
        r.namespace@ == app.namespace@,
        r.success == outcome is Ok,
        match outcome {
            Ok(_) => r.error is None,
            Err(e) => r.error matches Some(m) && m@ == e.text(),
        },
{
    AppBackupStatus {
        app: app.name.clone(),
        namespace: app.namespace.clone(),
        success: outcome.is_ok(),
        error: match outcome {
            Ok(_) => None,
            Err(e) => Some(e.message()),
        },
    }
}

/// The answer of a backup-all run: the trigger, each application's
/// outcome in order, and the counts.
pub fn backup_all_response(trigger: String, apps: Vec<AppBackupStatus>) -> (r: BackupAllResponse)
    ensures
        r.trigger@ == trigger@,
        r.apps@ == apps@,
        r.summary matches Some(s) && s.total == apps@.len() && s.failed == failures(apps@)
            && s.success + s.failed == s.total,
{
    let summary = summarize(&apps);
    BackupAllResponse { trigger, apps, summary: Some(summary) }
}

} // verus!
