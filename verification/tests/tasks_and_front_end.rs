use volsync_webui::client::{
    apps_url, backup_all_message, backup_message, backup_url, base_url, check_status, choice_label,
    choice_value, find_app, namespace_filter, namespaces_url, restore_choice, restore_message, restore_url,
    snapshot_label, snapshots_url, summarize, App, AppBackupStatus, BackupAllResponse, BackupResponse,
    RestoreResponse, Snapshot,
};
use volsync_webui::backup_all::{backup_all_response, backup_all_width, backup_status};
use volsync_webui::client::{backup_status_url, restore_status_url, task_outcome};
use volsync_webui::error::KubeError;
use volsync_webui::models;
use volsync_webui::stamps::{backup_trigger, restore_trigger, snapshot_pod_name, started_at, utc_stamp};
use volsync_webui::tasks::{TaskKind, TaskTable};

fn listed(name: &str, ns: &str) -> models::App {
    models::App {
        name: name.to_string(),
        namespace: ns.to_string(),
        last_sync_time: None,
        last_sync_duration: None,
        last_result: None,
        next_sync_time: None,
        in_progress: false,
        paused: false,
        repository: None,
        backup_pending: false,
        restore_pending: false,
    }
}

#[test]
fn a_task_runs_through_its_states() {
    let mut t = TaskTable::new();
    let task = t.begin_at(TaskKind::Backup, "gitea", "apps", "2024-01-01T00:00:00Z".to_string()).ok().unwrap();
    assert_eq!(task.task_type, "backup");
    assert_eq!(task.status, "pending");
    assert_eq!(task.started_at, "2024-01-01T00:00:00Z");
    assert!(t.is_active(&TaskTable::key("apps", "gitea", "backup")));
    t.start(TaskKind::Backup, "gitea", "apps");
    assert_eq!(t.task_status("gitea", "apps", "backup").unwrap().status, "running");
    t.finish(TaskKind::Backup, "gitea", "apps", Ok(Some("Successful".to_string())));
    let done = t.task_status("gitea", "apps", "backup").unwrap();
    assert_eq!(done.status, "completed");
    assert_eq!(done.result.as_deref(), Some("Successful"));
    assert!(!t.is_active(&TaskTable::key("apps", "gitea", "backup")));
    t.forget(TaskKind::Backup, "gitea", "apps");
    assert!(t.task_status("gitea", "apps", "backup").is_none());
}

#[test]
fn a_failed_task_keeps_the_message() {
    let mut t = TaskTable::new();
    t.begin_at(TaskKind::Restore, "wiki", "docs", "now".to_string()).ok().unwrap();
    t.finish(TaskKind::Restore, "wiki", "docs", Err(KubeError::Timeout("Restore polling timed out".to_string())));
    let r = t.task_status("wiki", "docs", "restore").unwrap();
    assert_eq!(r.status, "failed");
    assert_eq!(r.error.as_deref(), Some("Timeout: Restore polling timed out"));
    assert!(t.begin(TaskKind::Backup, "wiki", "docs").is_ok());
}

#[test]
fn busy_applications_refuse_new_tasks() {
    let mut t = TaskTable::new();
    t.begin_at(TaskKind::Backup, "gitea", "apps", "t0".to_string()).ok().unwrap();
    match t.begin_at(TaskKind::Backup, "gitea", "apps", "t1".to_string()) {
        Err(KubeError::Api(m)) => assert_eq!(m, "Backup already in progress for gitea"),
        _ => panic!("expected a refusal"),
    }
    match t.begin_at(TaskKind::Restore, "gitea", "apps", "t1".to_string()) {
        Err(KubeError::Api(m)) => assert_eq!(m, "Restore cannot start while backup is in progress for gitea"),
        _ => panic!("expected a refusal"),
    }
    assert!(t.begin_at(TaskKind::Restore, "gitea", "other", "t1".to_string()).is_ok());
    match t.begin_at(TaskKind::Backup, "gitea", "other", "t2".to_string()) {
        Err(KubeError::Api(m)) => assert_eq!(m, "Backup cannot start while restore is in progress for gitea"),
        _ => panic!("expected a refusal"),
    }
    assert_eq!(t.task_status("gitea", "apps", "backup").unwrap().started_at, "t0");
}

#[test]
fn listed_applications_show_their_tasks() {
    let mut t = TaskTable::new();
    t.begin_at(TaskKind::Restore, "wiki", "docs", "t".to_string()).ok().unwrap();
    t.begin_at(TaskKind::Backup, "gitea", "apps", "t".to_string()).ok().unwrap();
    t.finish(TaskKind::Backup, "gitea", "apps", Ok(None));
    let mut apps = vec![listed("gitea", "apps"), listed("wiki", "docs"), listed("wiki", "apps")];
    t.mark_pending(&mut apps);
    assert!(!apps[0].backup_pending && !apps[0].restore_pending);
    assert!(apps[1].restore_pending && !apps[1].backup_pending);
    assert!(!apps[2].restore_pending);
}

#[test]
fn names_from_the_clock() {
    assert_eq!(backup_trigger(Some(0x1f)), "backup-1f");
    assert_eq!(backup_trigger(None), "backup-0");
    assert_eq!(utc_stamp(Some(1_700_000_000_123_456_789)), "20231114-221320");
    assert_eq!(utc_stamp(None), "0");
    assert_eq!(utc_stamp(Some(u128::MAX)), "0");
    assert_eq!(started_at(Some(1_700_000_000_000_000_000)), "2023-11-14T22:13:20+00:00");
    assert_eq!(started_at(Some(1_700_000_000_500_000_000)), "2023-11-14T22:13:20.500+00:00");
    assert_eq!(started_at(None), "");
    assert_eq!(restore_trigger("20240101-120000"), "restore-20240101-120000");
    assert_eq!(snapshot_pod_name("gitea", Some(4096)), "volsync-snapshots-gitea-1000");
    assert_eq!(snapshot_pod_name("gitea", None), "volsync-snapshots-gitea-0");
}

#[test]
fn front_end_addresses() {
    assert_eq!(base_url(None), "http://localhost:8080");
    assert_eq!(base_url(Some("https://ui.example".to_string())), "https://ui.example");
    assert_eq!(namespaces_url("b"), "b/api/namespaces");
    assert_eq!(apps_url("b", None), "b/api/apps");
    assert_eq!(apps_url("b", Some("all")), "b/api/apps");
    assert_eq!(apps_url("b", Some("apps")), "b/api/apps?namespace=apps");
    assert_eq!(snapshots_url("b", "gitea", "apps"), "b/api/apps/gitea/apps/snapshots");
    assert_eq!(backup_url("b", "gitea", "apps"), "b/api/apps/gitea/apps/backup");
    assert_eq!(restore_url("b", "gitea", "apps"), "b/api/apps/gitea/apps/restore");
    assert_eq!(namespace_filter(""), None);
    assert_eq!(namespace_filter("apps"), Some("apps"));
}

#[test]
fn front_end_statuses() {
    assert_eq!(check_status(200, "ok".to_string()), Ok("ok".to_string()));
    assert_eq!(check_status(409, "busy".to_string()), Err("HTTP 409: busy".to_string()));
    let ok = BackupResponse { trigger: "t".to_string(), status: "completed".to_string(), result: Some("Successful".to_string()) };
    assert_eq!(backup_message(&Ok(ok)), "Backup completed successfully");
    let odd = BackupResponse { trigger: "t".to_string(), status: "completed".to_string(), result: Some("Failed".to_string()) };
    assert_eq!(backup_message(&Ok(odd)), "Backup failed: Some(\"Failed\")");
    assert_eq!(backup_message(&Err("HTTP 500: x".to_string())), "Backup error: HTTP 500: x");
    let none = RestoreResponse { trigger: "t".to_string(), status: "completed".to_string(), result: None };
    assert_eq!(restore_message(&Ok(none)), "Restore completed with result: None");
    let good = RestoreResponse { trigger: "t".to_string(), status: "completed".to_string(), result: Some("Successful".to_string()) };
    assert_eq!(restore_message(&Ok(good)), "Restore completed successfully");
    assert_eq!(restore_message(&Err("e".to_string())), "Restore error: e");
    assert_eq!(restore_choice(""), None);
    assert_eq!(restore_choice("2024-01-01T00:00:00Z"), Some("2024-01-01T00:00:00Z".to_string()));
}

fn status(app: &str, success: bool) -> AppBackupStatus {
    AppBackupStatus { app: app.to_string(), namespace: "apps".to_string(), success, error: None }
}

#[test]
fn backup_all_outcomes() {
    let apps = vec![status("a", true), status("b", false), status("c", false)];
    let s = summarize(&apps);
    assert_eq!((s.total, s.success, s.failed), (3, 1, 2));
    let r = BackupAllResponse { trigger: "t".to_string(), apps, summary: None };
    assert_eq!(backup_all_message(&Ok(r)), "2 of 3 backups failed");
    let all = BackupAllResponse { trigger: "t".to_string(), apps: vec![status("a", true)], summary: None };
    assert_eq!(backup_all_message(&Ok(all)), "All backups completed successfully");
    assert_eq!(backup_all_message(&Err("down".to_string())), "Backup-all error: down");
    let empty = summarize(&Vec::new());
    assert_eq!((empty.total, empty.success, empty.failed), (0, 0, 0));
}

#[test]
fn the_application_selector() {
    let apps = vec![
        App { name: "gitea".to_string(), namespace: "apps".to_string() },
        App { name: "gitea".to_string(), namespace: "dev".to_string() },
    ];
    assert_eq!(choice_value(&apps[1]), "gitea/dev");
    assert_eq!(choice_label(&apps[0]), "gitea (apps)");
    assert_eq!(find_app(&apps, "gitea/dev"), Some(1));
    assert_eq!(find_app(&apps, "gitea"), None);
    let snap = Snapshot { id: "abc".to_string(), time: "2024".to_string(), tags: vec![] };
    assert_eq!(snapshot_label(&snap), "abc - 2024");
}

#[test]
fn finished_tasks_do_not_go_back() {
    let mut t = TaskTable::new();
    t.begin_at(TaskKind::Backup, "gitea", "apps", "t".to_string()).ok().unwrap();
    t.start(TaskKind::Backup, "gitea", "apps");
    t.finish(TaskKind::Backup, "gitea", "apps", Ok(Some("Successful".to_string())));
    t.start(TaskKind::Backup, "gitea", "apps");
    assert_eq!(t.task_status("gitea", "apps", "backup").unwrap().status, "completed");
    t.finish(TaskKind::Backup, "gitea", "apps", Err(KubeError::Api("late".to_string())));
    let r = t.task_status("gitea", "apps", "backup").unwrap();
    assert_eq!(r.status, "completed");
    assert_eq!(r.error, None);
    t.start(TaskKind::Restore, "gitea", "apps");
    assert!(t.task_status("gitea", "apps", "restore").is_none());
}

#[test]
fn backup_all_reports() {
    let mut env = volsync_webui::config::Environment {
        kubernetes_service_host: None,
        kubernetes_service_port: None,
        volsync_api_group: None,
        volsync_source_suffix: None,
        volsync_dest_suffix: None,
        volsync_pvc_suffix: None,
        refresh_interval_secs: None,
        backup_all_concurrency: None,
        poll_timeout_secs: None,
        poll_interval_secs: None,
        pod_startup_timeout_secs: None,
        restic_image: None,
    };
    assert_eq!(backup_all_width(&volsync_webui::config::Settings::from_environment(&env)), 5);
    env.backup_all_concurrency = Some("0".to_string());
    assert_eq!(backup_all_width(&volsync_webui::config::Settings::from_environment(&env)), 1);
    let ok = backup_status(&listed("gitea", "apps"), &Ok(()));
    assert!(ok.success && ok.error.is_none());
    let bad = backup_status(&listed("wiki", "docs"), &Err(KubeError::Timeout("Backup polling timed out".to_string())));
    assert!(!bad.success);
    assert_eq!(bad.error.as_deref(), Some("Timeout: Backup polling timed out"));
    assert_eq!(bad.namespace, "docs");
    let r = backup_all_response("backup-1".to_string(), vec![ok, bad]);
    let s = r.summary.unwrap();
    assert_eq!((s.total, s.success, s.failed), (2, 1, 1));
    assert_eq!(r.trigger, "backup-1");
}

#[test]
fn task_records_as_the_front_end_reads_them() {
    assert_eq!(backup_status_url("b", "gitea", "apps"), "b/api/apps/gitea/apps/backup/status");
    assert_eq!(restore_status_url("b", "gitea", "apps"), "b/api/apps/gitea/apps/restore/status");
    assert_eq!(task_outcome("running", &None, &None), None);
    assert_eq!(task_outcome("pending", &None, &None), None);
    assert_eq!(task_outcome("completed", &Some("Successful".to_string()), &None), Some(Ok(Some("Successful".to_string()))));
    assert_eq!(task_outcome("failed", &None, &Some("Timeout: slow".to_string())), Some(Err("Timeout: slow".to_string())));
    assert_eq!(task_outcome("failed", &None, &None), Some(Err("Task failed".to_string())));
}

#[test]
fn retention_keeps_newer_tasks() {
    let mut t = TaskTable::new();
    t.begin_at(TaskKind::Backup, "gitea", "apps", "t1".to_string()).ok().unwrap();
    t.forget_finished(TaskKind::Backup, "gitea", "apps", "t1");
    assert!(t.task_status("gitea", "apps", "backup").is_some());
    t.finish(TaskKind::Backup, "gitea", "apps", Ok(None));
    t.begin_at(TaskKind::Backup, "gitea", "apps", "t2".to_string()).ok().unwrap();
    t.finish(TaskKind::Backup, "gitea", "apps", Ok(None));
    t.forget_finished(TaskKind::Backup, "gitea", "apps", "t1");
    assert_eq!(t.task_status("gitea", "apps", "backup").unwrap().started_at, "t2");
    t.forget_finished(TaskKind::Backup, "gitea", "apps", "t2");
    assert!(t.task_status("gitea", "apps", "backup").is_none());
}
