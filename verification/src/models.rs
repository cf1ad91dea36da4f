//! The records the HTTP API hands out and takes in.
use crate::text::{clone_opt, opt_text};
use vstd::prelude::*;

verus! {

/// One ReplicationSource with its status, as the dashboard lists it.
pub struct App {
    pub name: String,
    pub namespace: String,
    pub last_sync_time: Option<String>,
    pub last_sync_duration: Option<String>,
    pub last_result: Option<String>,
    pub next_sync_time: Option<String>,
    pub in_progress: bool,
    pub paused: bool,
    pub repository: Option<String>,
    pub backup_pending: bool,
    pub restore_pending: bool,
}

/// The mathematical value of an `App`.
pub struct AppView {
    pub name: Seq<char>,
    pub namespace: Seq<char>,
    pub last_sync_time: Option<Seq<char>>,
    pub last_sync_duration: Option<Seq<char>>,
    pub last_result: Option<Seq<char>>,
    pub next_sync_time: Option<Seq<char>>,
    pub in_progress: bool,
    pub paused: bool,
    pub repository: Option<Seq<char>>,
    pub backup_pending: bool,
    pub restore_pending: bool,
}

impl View for App {
    type V = AppView;

    open spec fn view(&self) -> AppView {
        AppView {
            name: self.name@,
            namespace: self.namespace@,
            last_sync_time: opt_text(self.last_sync_time),
            last_sync_duration: opt_text(self.last_sync_duration),
            last_result: opt_text(self.last_result),
            next_sync_time: opt_text(self.next_sync_time),
            in_progress: self.in_progress,
            paused: self.paused,
            repository: opt_text(self.repository),
            backup_pending: self.backup_pending,
            restore_pending: self.restore_pending,
        }
    }
}

/// A background backup or restore and how far it got.
pub struct TaskStatus {
    pub task_type: String,
    pub app: String,
    pub namespace: String,
    pub status: String,
    pub result: Option<String>,
    pub error: Option<String>,
    pub started_at: String,
}

/// The mathematical value of a `TaskStatus`.
pub struct TaskView {
    pub task_type: Seq<char>,
    pub app: Seq<char>,
    pub namespace: Seq<char>,
    pub status: Seq<char>,
    pub result: Option<Seq<char>>,
    pub error: Option<Seq<char>>,
    pub started_at: Seq<char>,
}

impl View for TaskStatus {
    type V = TaskView;

    open spec fn view(&self) -> TaskView {
        TaskView {
            task_type: self.task_type@,
            app: self.app@,
            namespace: self.namespace@,
            status: self.status@,
            result: opt_text(self.result),
            error: opt_text(self.error),
            started_at: self.started_at@,
        }
    }
}

impl TaskStatus {
    /// The same task record, as a new value.
    pub fn duplicate(&self) -> (r: TaskStatus)
        ensures
            r@ == self@,
    {
        TaskStatus {
            task_type: self.task_type.clone(),
            app: self.app.clone(),
            namespace: self.namespace.clone(),
            status: self.status.clone(),
            result: clone_opt(&self.result),
            error: clone_opt(&self.error),
            started_at: self.started_at.clone(),
        }
    }
}

/// One restic snapshot.
pub struct Snapshot {
    pub id: String,
    pub short_id: String,
    pub time: String,
    pub tags: Vec<String>,
    pub paths: Vec<String>,
    pub hostname: String,
    pub files_new: i64,
    pub files_changed: i64,
    pub files_unmodified: i64,
    pub data_added: i64,
    pub total_files_processed: i64,
    pub total_bytes_processed: i64,
}

/// The mathematical value of a `Snapshot`.
pub struct SnapshotView {
    pub id: Seq<char>,
    pub short_id: Seq<char>,
    pub time: Seq<char>,
    pub tags: Seq<Seq<char>>,
    pub paths: Seq<Seq<char>>,
    pub hostname: Seq<char>,
    pub files_new: i64,
    pub files_changed: i64,
    pub files_unmodified: i64,
    pub data_added: i64,
    pub total_files_processed: i64,
    pub total_bytes_processed: i64,
}

/// The texts of a vector of strings.
pub open spec fn texts(v: Seq<String>) -> Seq<Seq<char>> {
    v.map_values(|s: String| s@)
}

impl View for Snapshot {
    type V = SnapshotView;

    open spec fn view(&self) -> SnapshotView {
        SnapshotView {
            id: self.id@,
            short_id: self.short_id@,
            time: self.time@,
            tags: texts(self.tags@),
            paths: texts(self.paths@),
            hostname: self.hostname@,
            files_new: self.files_new,
            files_changed: self.files_changed,
            files_unmodified: self.files_unmodified,
            data_added: self.data_added,
            total_files_processed: self.total_files_processed,
            total_bytes_processed: self.total_bytes_processed,
        }
    }
}

/// The outcome of a finished backup.
pub struct BackupResponse {
    pub trigger: String,
    pub status: String,
    pub result: Option<String>,
}

/// What a restore is asked for: the snapshot time to restore, or the latest.
pub struct RestoreRequest {
    pub timestamp: Option<String>,
}

/// The outcome of a finished restore.
pub struct RestoreResponse {
    pub trigger: String,
    pub status: String,
    pub result: Option<String>,
}

/// The configuration the web front end reads.
pub struct AppConfig {
    pub refresh_interval_secs: u64,
}

} // verus!
