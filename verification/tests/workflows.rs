use serde_json::Value;
use volsync_webui::backup::{backup_poll, BackupPoll, BackupRun};
use volsync_webui::config::{Environment, Settings};
use volsync_webui::error::KubeError;
use volsync_webui::json::{parse_json, Json};
use volsync_webui::models::{BackupResponse, RestoreResponse};
use volsync_webui::payloads;
use volsync_webui::restore::RestoreRun;
use volsync_webui::snapshots::{parse_snapshots, snapshots_from_log, SnapshotList, SnapshotListing};
use volsync_webui::workflow::{Action, Event, Verb};

fn to_value(j: &Json) -> Value {
    match j {
        Json::Null => Value::Null,
        Json::Bool(b) => Value::Bool(*b),
        Json::Int(n) => Value::from(*n),
        Json::OtherNumber => Value::from(0.5),
        Json::Str(s) => Value::String(s.clone()),
        Json::Array(v) => Value::Array(v.iter().map(to_value).collect()),
        Json::Object(m) => Value::Object(m.iter().map(|(k, v)| (k.clone(), to_value(v))).collect()),
    }
}

fn doc(text: &str) -> Json {
    parse_json(text).expect("test document is JSON")
}

fn settings() -> Settings {
    Settings::from_environment(&Environment {
        kubernetes_service_host: None,
        kubernetes_service_port: None,
        volsync_api_group: None,
        volsync_source_suffix: None,
        volsync_dest_suffix: None,
        volsync_pvc_suffix: None,
        refresh_interval_secs: None,
        backup_all_concurrency: None,
        poll_timeout_secs: None,
        poll_interval_secs: None,
        pod_startup_timeout_secs: None,
        restic_image: None,
    })
}

fn expect_call<T>(a: Action<T>, verb: Verb, path: &str) -> Option<Json> {
    match a {
        Action::Call { verb: v, path: p, body } => {
            assert!(v == verb, "unexpected verb for {}", p);
            assert_eq!(p, path);
            body
        }
        _ => panic!("expected a call to {}", path),
    }
}

fn expect_clock<T>(a: Action<T>) {
    match a {
        Action::ReadClock => {}
        _ => panic!("expected a clock reading"),
    }
}

fn expect_sleep<T>(a: Action<T>, secs: u64) {
    match a {
        Action::Sleep { secs: s } => assert_eq!(s, secs),
        _ => panic!("expected a sleep"),
    }
}

fn finish<T>(a: Action<T>) -> Result<T, KubeError> {
    match a {
        Action::Finish(r) => r,
        _ => panic!("expected the end of the workflow"),
    }
}

const SOURCE: &str = "/apis/volsync.backube/v1alpha1/namespaces/apps/replicationsources/gitea-backup";

#[test]
fn backup_poll_reads_the_source() {
    let done = doc(r#"{"status":{"lastManualSync":"t1","latestMoverStatus":{"result":"Successful"}}}"#);
    assert!(matches!(backup_poll(&done, "t1"), BackupPoll::Completed(r) if r == "Successful"));
    assert!(matches!(backup_poll(&done, "t2"), BackupPoll::Pending));
    let failed = doc(
        r#"{"status":{"conditions":[{"type":"Ready","status":"False","reason":"Waiting"},
            {"type":"Ready","status":"False","reason":"SnapshotError"}]}}"#,
    );
    assert!(matches!(backup_poll(&failed, "t1"), BackupPoll::Failed(r) if r == "SnapshotError"));
    let ready = doc(r#"{"status":{"conditions":[{"type":"Ready","status":"True","reason":"BackupFailed"}]}}"#);
    assert!(matches!(backup_poll(&ready, "t1"), BackupPoll::Pending));
    assert!(matches!(backup_poll(&Json::Null, "t1"), BackupPoll::Pending));
}

#[test]
fn backup_run_completes_and_withdraws_the_trigger() {
    let s = settings();
    let mut run = BackupRun::new(&s, "gitea-backup", "apps", "backup-1");
    assert!(run.expects(&Event::Go));
    let body = expect_call(run.step(Event::Go), Verb::Patch, SOURCE);
    assert_eq!(to_value(&body.unwrap()), to_value(&payloads::trigger_patch("backup-1")));
    expect_clock(run.step(Event::Answer(Ok(Json::Null))));
    expect_clock(run.step(Event::Clock(1_000)));
    expect_sleep(run.step(Event::Clock(2_000)), 2);
    assert!(expect_call(run.step(Event::Done), Verb::Get, SOURCE).is_none());
    expect_clock(run.step(Event::Answer(Ok(doc(r#"{"status":{"lastManualSync":"older"}}"#)))));
    expect_sleep(run.step(Event::Clock(3_000)), 2);
    expect_call(run.step(Event::Done), Verb::Get, SOURCE);
    let rs = doc(r#"{"status":{"lastManualSync":"backup-1","latestMoverStatus":{"result":"Successful"}}}"#);
    let clear = expect_call(run.step(Event::Answer(Ok(rs))), Verb::Patch, SOURCE);
    assert_eq!(to_value(&clear.unwrap()), to_value(&payloads::clear_trigger_patch()));
    let out: BackupResponse = finish(run.step(Event::Answer(Ok(Json::Null)))).ok().unwrap();
    assert_eq!(out.trigger, "backup-1");
    assert_eq!(out.status, "completed");
    assert_eq!(out.result.as_deref(), Some("Successful"));
    assert!(!run.expects(&Event::Go));
}

#[test]
fn backup_run_times_out_after_withdrawing_the_trigger() {
    let s = settings();
    let mut run = BackupRun::new(&s, "gitea-backup", "apps", "backup-2");
    expect_call(run.step(Event::Go), Verb::Patch, SOURCE);
    expect_clock(run.step(Event::Answer(Ok(Json::Null))));
    expect_clock(run.step(Event::Clock(0)));
    let clear = expect_call(run.step(Event::Clock(301_000_000_000)), Verb::Patch, SOURCE);
    assert_eq!(to_value(&clear.unwrap()), to_value(&payloads::clear_trigger_patch()));
    match finish(run.step(Event::Answer(Err(KubeError::Api("ignored".to_string()))))) {
        Err(KubeError::Timeout(m)) => assert_eq!(m, "Backup polling timed out"),
        _ => panic!("expected a time-out"),
    }
}

#[test]
fn backup_run_reports_a_failed_condition() {
    let s = settings();
    let mut run = BackupRun::new(&s, "gitea-backup", "apps", "backup-3");
    expect_call(run.step(Event::Go), Verb::Patch, SOURCE);
    expect_clock(run.step(Event::Answer(Ok(Json::Null))));
    expect_clock(run.step(Event::Clock(0)));
    expect_sleep(run.step(Event::Clock(1)), 2);
    expect_call(run.step(Event::Done), Verb::Get, SOURCE);
    let rs = doc(r#"{"status":{"conditions":[{"type":"Ready","status":"False","reason":"MoverFailed"}]}}"#);
    expect_call(run.step(Event::Answer(Ok(rs))), Verb::Patch, SOURCE);
    match finish(run.step(Event::Answer(Ok(Json::Null)))) {
        Err(KubeError::SnapshotFailed(m)) => assert_eq!(m, "Backup failed: MoverFailed"),
        _ => panic!("expected a failed backup"),
    }
}

#[test]
fn backup_run_stops_when_the_trigger_cannot_be_set() {
    let s = settings();
    let mut run = BackupRun::new(&s, "gitea-backup", "apps", "backup-4");
    expect_call(run.step(Event::Go), Verb::Patch, SOURCE);
    match finish(run.step(Event::Answer(Err(KubeError::NotFound("x".to_string()))))) {
        Err(KubeError::NotFound(m)) => assert_eq!(m, "x"),
        _ => panic!("expected the patch's error"),
    }
}

#[test]
fn snapshots_from_an_array_or_lines() {
    let array = r#"[{"id":"abc","short_id":"ab","time":"2024-01-01T00:00:00Z","tags":["a",1,"b"],
        "paths":["/data"],"hostname":"h","summary":{"files_new":3,"data_added":99}},{"id":""},{"short_id":"x"}]"#;
    let v = parse_snapshots(array);
    assert_eq!(v.len(), 1);
    assert_eq!(v[0].id, "abc");
    assert_eq!(v[0].short_id, "ab");
    assert_eq!(v[0].tags, vec!["a".to_string(), "b".to_string()]);
    assert_eq!(v[0].paths, vec!["/data".to_string()]);
    assert_eq!(v[0].files_new, 3);
    assert_eq!(v[0].files_changed, 0);
    assert_eq!(v[0].data_added, 99);
    let lines = "{\"id\":\"one\",\"time\":\"t1\"}\n\n   \nnot json\n{\"id\":\"two\"}\r\n";
    let v = parse_snapshots(lines);
    assert_eq!(v.len(), 2);
    assert_eq!(v[0].id, "one");
    assert_eq!(v[0].time, "t1");
    assert_eq!(v[1].id, "two");
    assert_eq!(v[1].hostname, "");
    assert!(parse_snapshots("").is_empty());
}

#[test]
fn snapshot_listing_deletes_its_pod() {
    let s = settings();
    let mut l = SnapshotListing::new(&s, "gitea-backup", "apps", Some(255));
    expect_call(l.step(Event::Go), Verb::Get, SOURCE);
    let rs = doc(r#"{"spec":{"restic":{"repository":"gitea-restic"}}}"#);
    let pod = expect_call(l.step(Event::Answer(Ok(rs))), Verb::Post, "/api/v1/namespaces/apps/pods");
    let expected = payloads::snapshot_pod(
        "volsync-snapshots-gitea-backup-ff",
        "apps",
        "restic/restic:latest",
        "gitea-restic",
    );
    assert_eq!(to_value(&pod.unwrap()), to_value(&expected));
    expect_clock(l.step(Event::Answer(Ok(Json::Null))));
    expect_clock(l.step(Event::Clock(10)));
    expect_sleep(l.step(Event::Clock(20)), 2);
    let pod_path = "/api/v1/namespaces/apps/pods/volsync-snapshots-gitea-backup-ff";
    expect_call(l.step(Event::Done), Verb::Get, pod_path);
    expect_clock(l.step(Event::Answer(Ok(doc(r#"{"status":{"phase":"Running"}}"#)))));
    expect_sleep(l.step(Event::Clock(30)), 2);
    expect_call(l.step(Event::Done), Verb::Get, pod_path);
    match l.step(Event::Answer(Ok(doc(r#"{"status":{"phase":"Succeeded"}}"#)))) {
        Action::Fetch { path } => assert_eq!(path, format!("{}/log", pod_path)),
        _ => panic!("expected the log to be read"),
    }
    match l.step(Event::Text(Ok("[{\"id\":\"s1\"}]".to_string()))) {
        Action::Discard { path } => assert_eq!(path, pod_path),
        _ => panic!("expected the pod to be deleted"),
    }
    let list: SnapshotList = finish(l.step(Event::Done)).ok().unwrap();
    assert_eq!(list.items.len(), 1);
    assert_eq!(list.items[0].id, "s1");
}

#[test]
fn snapshot_listing_without_repository() {
    let s = settings();
    let mut l = SnapshotListing::new(&s, "gitea-backup", "apps", None);
    expect_call(l.step(Event::Go), Verb::Get, SOURCE);
    match finish(l.step(Event::Answer(Ok(doc(r#"{"spec":{}}"#))))) {
        Err(KubeError::Api(m)) => {
            assert_eq!(m, "spec.restic.repository not found in ReplicationSource apps/gitea-backup")
        }
        _ => panic!("expected a missing repository"),
    }
}

#[test]
fn snapshot_listing_failed_pod_is_deleted() {
    let s = settings();
    let mut l = SnapshotListing::new(&s, "gitea", "apps", None);
    expect_call(l.step(Event::Go), Verb::Get, "/apis/volsync.backube/v1alpha1/namespaces/apps/replicationsources/gitea");
    l.step(Event::Answer(Ok(doc(r#"{"spec":{"restic":{"repository":"r"}}}"#))));
    expect_clock(l.step(Event::Answer(Ok(Json::Null))));
    expect_clock(l.step(Event::Clock(0)));
    expect_sleep(l.step(Event::Clock(1)), 2);
    let pod_path = "/api/v1/namespaces/apps/pods/volsync-snapshots-gitea-0";
    expect_call(l.step(Event::Done), Verb::Get, pod_path);
    match l.step(Event::Answer(Ok(doc(r#"{"status":{"phase":"Failed"}}"#)))) {
        Action::Discard { path } => assert_eq!(path, pod_path),
        _ => panic!("expected the pod to be deleted"),
    }
    match finish(l.step(Event::Done)) {
        Err(KubeError::SnapshotFailed(m)) => assert_eq!(m, "Pod failed"),
        _ => panic!("expected a failed pod"),
    }
}

const DEST: &str = "/apis/volsync.backube/v1alpha1/namespaces/apps/replicationdestinations/gitea-bootstrap";
const RELEASE: &str = "/apis/helm.toolkit.fluxcd.io/v2/namespaces/apps/helmreleases/gitea";
const PVC: &str = "/api/v1/namespaces/apps/persistentvolumeclaims/gitea-pvc";

fn restore_until_ready(run: &mut RestoreRun) {
    expect_call(run.step(Event::Go), Verb::Get, DEST);
    let patch = expect_call(run.step(Event::Answer(Ok(doc(r#"{"spec":{}}"#)))), Verb::Patch, DEST);
    assert_eq!(
        to_value(&patch.unwrap()),
        to_value(&payloads::restore_patch(Some("2024-05-01T00:00:00Z"), Some("restore-20240501-000000")))
    );
    let reset = expect_call(run.step(Event::Answer(Ok(Json::Null))), Verb::Patch, &format!("{}/status", DEST));
    assert_eq!(to_value(&reset.unwrap()), to_value(&payloads::reset_sync_patch()));
    expect_clock(run.step(Event::Answer(Ok(Json::Null))));
    expect_clock(run.step(Event::Clock(0)));
    expect_sleep(run.step(Event::Clock(1)), 2);
    expect_call(run.step(Event::Done), Verb::Get, DEST);
}

fn ready_answer() -> Event {
    Event::Answer(Ok(doc(
        r#"{"status":{"lastManualSync":"restore-20240501-000000","latestMoverStatus":{"result":"successful"}}}"#,
    )))
}

fn new_restore() -> RestoreRun {
    RestoreRun::new(
        &settings(),
        "gitea-backup",
        "apps",
        Some("2024-05-01T00:00:00Z".to_string()),
        "20240501-000000".to_string(),
    )
}

#[test]
fn restore_replaces_the_volume() {
    let mut run = new_restore();
    restore_until_ready(&mut run);
    let suspend = expect_call(run.step(ready_answer()), Verb::Patch, RELEASE);
    assert_eq!(to_value(&suspend.unwrap()), to_value(&payloads::suspend_patch(true)));
    expect_call(
        run.step(Event::Answer(Ok(Json::Null))),
        Verb::Get,
        "/apis/apps/v1/namespaces/apps/deployments?labelSelector=app.kubernetes.io/instance=gitea",
    );
    let list = doc(r#"{"items":[{"metadata":{"name":"web"}},{"metadata":{"name":"worker"}}]}"#);
    expect_call(run.step(Event::Answer(Ok(list))), Verb::Get, "/apis/apps/v1/namespaces/apps/deployments/web");
    expect_call(
        run.step(Event::Answer(Ok(doc(r#"{"spec":{"replicas":2}}"#)))),
        Verb::Get,
        "/apis/apps/v1/namespaces/apps/deployments/worker",
    );
    let down = expect_call(
        run.step(Event::Answer(Ok(doc(r#"{"spec":{}}"#)))),
        Verb::Patch,
        "/apis/apps/v1/namespaces/apps/deployments/web/scale",
    );
    assert_eq!(to_value(&down.unwrap()), to_value(&payloads::scale_patch(0)));
    expect_call(
        run.step(Event::Answer(Ok(Json::Null))),
        Verb::Patch,
        "/apis/apps/v1/namespaces/apps/deployments/worker/scale",
    );
    expect_call(run.step(Event::Answer(Ok(Json::Null))), Verb::Delete, PVC);
    let resume = expect_call(run.step(Event::Answer(Ok(Json::Null))), Verb::Patch, RELEASE);
    assert_eq!(to_value(&resume.unwrap()), to_value(&payloads::suspend_patch(false)));
    let out: RestoreResponse = finish(run.step(Event::Answer(Ok(Json::Null)))).ok().unwrap();
    assert_eq!(out.trigger, "restore-20240501-000000");
    assert_eq!(out.status, "completed");
    assert_eq!(out.result.as_deref(), Some("successful"));
}

#[test]
fn restore_rolls_back_when_the_volume_stays() {
    let mut run = new_restore();
    restore_until_ready(&mut run);
    expect_call(run.step(ready_answer()), Verb::Patch, RELEASE);
    run.step(Event::Answer(Ok(Json::Null)));
    let list = doc(r#"{"items":[{"metadata":{"name":"web"}},{"metadata":{"name":"worker"}}]}"#);
    run.step(Event::Answer(Ok(list)));
    run.step(Event::Answer(Ok(doc(r#"{"spec":{"replicas":2}}"#))));
    run.step(Event::Answer(Err(KubeError::Api("gone".to_string()))));
    run.step(Event::Answer(Ok(Json::Null)));
    expect_call(run.step(Event::Answer(Ok(Json::Null))), Verb::Delete, PVC);
    let web = expect_call(
        run.step(Event::Answer(Err(KubeError::Api("in use".to_string())))),
        Verb::Patch,
        "/apis/apps/v1/namespaces/apps/deployments/web/scale",
    );
    assert_eq!(to_value(&web.unwrap()), to_value(&payloads::scale_patch(2)));
    let worker = expect_call(
        run.step(Event::Answer(Ok(Json::Null))),
        Verb::Patch,
        "/apis/apps/v1/namespaces/apps/deployments/worker/scale",
    );
    assert_eq!(to_value(&worker.unwrap()), to_value(&payloads::scale_patch(1)));
    let resume = expect_call(run.step(Event::Answer(Ok(Json::Null))), Verb::Patch, RELEASE);
    assert_eq!(to_value(&resume.unwrap()), to_value(&payloads::suspend_patch(false)));
    match finish(run.step(Event::Answer(Ok(Json::Null)))) {
        Err(KubeError::Api(m)) => assert_eq!(m, "Failed to delete PVC gitea-pvc: Api error: in use"),
        _ => panic!("expected the delete failure"),
    }
}

#[test]
fn restore_with_an_unsuccessful_sync_touches_nothing() {
    let mut run = new_restore();
    restore_until_ready(&mut run);
    let answer = doc(
        r#"{"status":{"lastManualSync":"restore-20240501-000000","latestMoverStatus":{"result":"Failed"}}}"#,
    );
    match finish(run.step(Event::Answer(Ok(answer)))) {
        Err(KubeError::SnapshotFailed(m)) => assert_eq!(m, "Restore failed with result: Some(\"Failed\")"),
        _ => panic!("expected a failed restore"),
    }
}

#[test]
fn restore_keeps_an_existing_trigger_and_reports_a_stuck_release() {
    let mut run = RestoreRun::new(&settings(), "gitea", "apps", None, "x".to_string());
    expect_call(run.step(Event::Go), Verb::Get, DEST);
    let patch = expect_call(
        run.step(Event::Answer(Ok(doc(r#"{"spec":{"trigger":{"manual":"mine"}}}"#)))),
        Verb::Patch,
        DEST,
    );
    assert_eq!(to_value(&patch.unwrap()), to_value(&payloads::restore_patch(None, None)));
    run.step(Event::Answer(Ok(Json::Null)));
    run.step(Event::Answer(Ok(Json::Null)));
    run.step(Event::Clock(0));
    run.step(Event::Clock(0));
    run.step(Event::Done);
    let ready = doc(r#"{"status":{"lastManualSync":"mine","latestMoverStatus":{"result":"Successful"}}}"#);
    expect_call(run.step(Event::Answer(Ok(ready))), Verb::Patch, RELEASE);
    run.step(Event::Answer(Ok(Json::Null)));
    expect_call(run.step(Event::Answer(Ok(doc(r#"{"items":[]}"#)))), Verb::Delete, PVC);
    expect_call(run.step(Event::Answer(Ok(Json::Null))), Verb::Patch, RELEASE);
    match finish(run.step(Event::Answer(Err(KubeError::Api("denied".to_string()))))) {
        Err(KubeError::Api(m)) => assert_eq!(
            m,
            "Restore data is ready but the HelmRelease could not be unsuspended; unsuspend it manually to recreate the PVC: Api error: denied"
        ),
        _ => panic!("expected the manual-intervention error"),
    }
}

#[test]
fn restore_fails_without_a_helm_release() {
    let mut run = new_restore();
    restore_until_ready(&mut run);
    expect_call(run.step(ready_answer()), Verb::Patch, RELEASE);
    match finish(run.step(Event::Answer(Err(KubeError::NotFound("Resource not found at x".to_string()))))) {
        Err(KubeError::NotFound(m)) => assert_eq!(m, "Resource not found at x"),
        _ => panic!("expected the suspend error"),
    }
}

#[test]
fn restore_patch_error_is_described() {
    let mut run = new_restore();
    expect_call(run.step(Event::Go), Verb::Get, DEST);
    expect_call(run.step(Event::Answer(Ok(Json::Null))), Verb::Patch, DEST);
    match finish(run.step(Event::Answer(Err(KubeError::Timeout("slow".to_string()))))) {
        Err(KubeError::Api(m)) => assert_eq!(m, "Failed to patch ReplicationDestination: Timeout: slow"),
        _ => panic!("expected the patch error"),
    }
}

#[test]
fn snapshots_from_a_parsed_log() {
    let logs = "{\"id\":\"a\"}\n{\"id\":\"b\"}";
    assert_eq!(snapshots_from_log(logs, None).len(), 2);
    let arr = doc(r#"[{"id":"x"}]"#);
    let v = snapshots_from_log(logs, Some(arr));
    assert_eq!(v.len(), 1);
    assert_eq!(v[0].id, "x");
    let v = snapshots_from_log(logs, Some(doc(r#"{"id":"y"}"#)));
    assert_eq!(v.len(), 2);
}
