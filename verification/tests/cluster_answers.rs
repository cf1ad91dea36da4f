use volsync_webui::error::{ApiError, KubeError};
use volsync_webui::inventory::{
    app_from_item, apps_from_list, deployment_names, destination_repository, namespace_names, replicas,
    repository,
};
use volsync_webui::json::{parse_json, Json};
use volsync_webui::rbac::{rbac_line, rbac_probes, rbac_verdict, RbacVerdict};
use volsync_webui::request::{after_attempt, body_needed, bearer, content_type, http_method, json_answer, Attempt, NextStep};

fn doc(text: &str) -> Json {
    parse_json(text).expect("test document is JSON")
}

const LIST: &str = r#"{"items":[
  {"metadata":{"name":"gitea-backup","namespace":"apps"},
   "spec":{"paused":true,"restic":{"repository":"gitea-restic"}},
   "status":{"lastSyncTime":"2024-01-01T00:00:00Z","lastSyncDuration":"12.345s",
             "latestMoverStatus":{"result":"Successful"},"nextSyncTime":"2024-01-02T00:00:00Z",
             "conditions":[{"type":"Ready","status":"True"},{"type":"Synchronizing","status":"True"}]}},
  {"metadata":{"name":"nameless-namespace"}},
  {"metadata":{"name":"wiki-backup","namespace":"docs"},"status":{"conditions":[{"type":"Synchronizing","status":"False"}]}}
]}"#;

#[test]
fn applications_are_read_from_the_source_list() {
    let apps = apps_from_list(&doc(LIST)).ok().unwrap();
    assert_eq!(apps.len(), 2);
    let a = &apps[0];
    assert_eq!(a.name, "gitea-backup");
    assert_eq!(a.namespace, "apps");
    assert_eq!(a.last_sync_time.as_deref(), Some("2024-01-01T00:00:00Z"));
    assert_eq!(a.last_sync_duration.as_deref(), Some("12.345s"));
    assert_eq!(a.last_result.as_deref(), Some("Successful"));
    assert_eq!(a.next_sync_time.as_deref(), Some("2024-01-02T00:00:00Z"));
    assert!(a.in_progress);
    assert!(a.paused);
    assert_eq!(a.repository.as_deref(), Some("gitea-restic"));
    assert!(!a.backup_pending && !a.restore_pending);
    let b = &apps[1];
    assert_eq!(b.name, "wiki-backup");
    assert!(!b.in_progress);
    assert!(!b.paused);
    assert_eq!(b.last_result, None);
    assert!(app_from_item(&doc(r#"{"metadata":{"namespace":"x"}}"#)).is_none());
}

#[test]
fn a_list_without_items_is_an_error() {
    match apps_from_list(&doc(r#"{"kind":"List"}"#)) {
        Err(KubeError::Api(m)) => assert_eq!(m, "No items in response"),
        _ => panic!("expected an error"),
    }
    assert!(matches!(namespace_names(&doc(r#"{"items":3}"#)), Err(KubeError::Api(_))));
}

#[test]
fn namespaces_come_sorted() {
    let list = doc(r#"{"items":[{"metadata":{"name":"media"}},{"metadata":{}},{"metadata":{"name":"apps"}},{"metadata":{"name":"kube-system"}}]}"#);
    assert_eq!(namespace_names(&list).ok().unwrap(), vec!["apps", "kube-system", "media"]);
}

#[test]
fn deployments_and_replica_counts() {
    let list = Ok(doc(r#"{"items":[{"metadata":{"name":"web"}},{"metadata":{"name":"db"}}]}"#));
    assert_eq!(deployment_names(&list), vec!["web", "db"]);
    assert!(deployment_names(&Err(KubeError::NotFound("x".to_string()))).is_empty());
    assert_eq!(replicas(&Ok(doc(r#"{"spec":{"replicas":3}}"#))), 3);
    assert_eq!(replicas(&Ok(doc(r#"{"spec":{"replicas":"3"}}"#))), 1);
    assert_eq!(replicas(&Err(KubeError::Api("x".to_string()))), 1);
}

#[test]
fn repositories() {
    let rd = doc(r#"{"spec":{"restic":{"repository":"gitea-restic"}}}"#);
    assert_eq!(repository(&rd).as_deref(), Some("gitea-restic"));
    assert_eq!(destination_repository(Ok(rd)).ok().unwrap().as_deref(), Some("gitea-restic"));
    assert_eq!(destination_repository(Err(KubeError::NotFound("gone".to_string()))).ok().unwrap(), None);
    assert!(matches!(destination_repository(Err(KubeError::Timeout("t".to_string()))), Err(KubeError::Timeout(_))));
}

#[test]
fn request_outcomes() {
    let path = "/api/v1/pods";
    match after_attempt(0, path, Attempt::Answered { status: 200, body: Ok("{}".to_string()) }) {
        NextStep::Done(t) => assert_eq!(t, "{}"),
        _ => panic!("expected success"),
    }
    match after_attempt(0, path, Attempt::Answered { status: 404, body: Ok(String::new()) }) {
        NextStep::Fail(KubeError::NotFound(m)) => assert_eq!(m, "Resource not found at /api/v1/pods"),
        _ => panic!("expected not found"),
    }
    match after_attempt(0, path, Attempt::Answered { status: 429, body: Ok(String::new()) }) {
        NextStep::Retry { delay_secs, .. } => assert_eq!(delay_secs, 1),
        _ => panic!("expected a retry"),
    }
    match after_attempt(2, path, Attempt::Answered { status: 429, body: Ok(String::new()) }) {
        NextStep::Fail(KubeError::Api(m)) => assert_eq!(m, "Rate limited on /api/v1/pods after 3 retries"),
        _ => panic!("expected a failure"),
    }
    match after_attempt(0, path, Attempt::Answered { status: 403, body: Ok("forbidden".to_string()) }) {
        NextStep::Fail(KubeError::Api(m)) => assert_eq!(m, "Client error 403 Forbidden on /api/v1/pods: forbidden"),
        _ => panic!("expected a client error"),
    }
    match after_attempt(1, path, Attempt::Answered { status: 500, body: Err("unreadable".to_string()) }) {
        NextStep::Retry { delay_secs, error: KubeError::Api(m) } => {
            assert_eq!(delay_secs, 2);
            assert_eq!(m, "Server error 500 Internal Server Error on /api/v1/pods: ");
        }
        _ => panic!("expected a retry"),
    }
    match after_attempt(2, path, Attempt::Answered { status: 503, body: Ok("busy".to_string()) }) {
        NextStep::Fail(KubeError::Api(m)) => assert_eq!(m, "Server error 503 Service Unavailable on /api/v1/pods: busy"),
        _ => panic!("expected a failure"),
    }
    match after_attempt(2, path, Attempt::Unsent(KubeError::Api("refused".to_string()))) {
        NextStep::Fail(KubeError::Api(m)) => {
            assert_eq!(m, "Request failed after 3 retries for /api/v1/pods: Api error: refused")
        }
        _ => panic!("expected a failure"),
    }
    match after_attempt(1, path, Attempt::Unsent(KubeError::Api("refused".to_string()))) {
        NextStep::Retry { delay_secs, .. } => assert_eq!(delay_secs, 2),
        _ => panic!("expected a retry"),
    }
    assert!(body_needed(200) && body_needed(500));
    assert!(!body_needed(404) && !body_needed(429));
}

#[test]
fn request_headers_and_methods() {
    assert_eq!(bearer("tok"), "Bearer tok");
    assert_eq!(content_type("PATCH"), "application/merge-patch+json");
    assert_eq!(content_type("POST"), "application/json");
    assert_eq!(http_method("DELETE").ok().unwrap(), reqwest::Method::DELETE);
    match http_method("BAD METHOD") {
        Err(KubeError::InvalidMethod(m)) => assert_eq!(m, "Invalid HTTP method: BAD METHOD"),
        _ => panic!("expected an invalid method"),
    }
}

#[test]
fn json_answers() {
    match json_answer(Ok(r#"{"a":1}"#.to_string())).ok().unwrap() {
        Json::Object(m) => assert_eq!(m.len(), 1),
        _ => panic!("expected an object"),
    }
    assert!(matches!(json_answer(Ok("not json".to_string())), Err(KubeError::Api(_))));
    assert!(matches!(json_answer(Err(KubeError::Timeout("t".to_string()))), Err(KubeError::Timeout(_))));
}

#[test]
fn permission_checks() {
    let probes = rbac_probes("volsync.backube");
    assert_eq!(probes.len(), 4);
    assert_eq!(probes[0].1, "/apis/volsync.backube/v1alpha1/replicationsources");
    assert_eq!(probes[3].1, "/apis/helm.toolkit.fluxcd.io/v2/helmreleases");
    let missing = rbac_verdict(&Err(KubeError::Api("Client error 403 Forbidden on x: no".to_string())));
    assert!(matches!(missing, RbacVerdict::Missing));
    assert_eq!(rbac_line("list Pods", &missing), "RBAC: list Pods — MISSING PERMISSION. Grant access via ClusterRole.");
    assert_eq!(rbac_line("list Pods", &rbac_verdict(&Ok(String::new()))), "RBAC: list Pods — OK");
    let absent = rbac_verdict(&Err(KubeError::NotFound("x".to_string())));
    assert_eq!(rbac_line("list HelmReleases", &absent), "RBAC: list HelmReleases — SKIPPED (CRD not installed)");
    let other = rbac_verdict(&Err(KubeError::Timeout("slow".to_string())));
    assert_eq!(rbac_line("list Pods", &other), "RBAC: list Pods — SKIPPED (Timeout: slow)");
}

#[test]
fn errors_and_their_answers() {
    assert_eq!(KubeError::SnapshotFailed("x".to_string()).message(), "Snapshot failed: x");
    assert_eq!(KubeError::InvalidMethod("m".to_string()).message(), "Invalid HTTP method: m");
    let e = ApiError::from(KubeError::NotFound("no such app".to_string()));
    assert_eq!(e.status_code(), 404);
    assert_eq!(e.message(), "no such app");
    let c = ApiError::from(KubeError::SnapshotFailed("busy".to_string()));
    assert_eq!(c.status_code(), 409);
    let t = ApiError::from(KubeError::Timeout("slow".to_string()));
    assert_eq!(t.status_code(), 500);
    assert_eq!(ApiError::from(KubeError::Api("x".to_string())).status_code(), 500);
    match t.body() {
        Json::Object(m) => {
            assert_eq!(m.len(), 1);
            assert_eq!(m[0].0, "error");
            assert!(matches!(&m[0].1, Json::Str(s) if s == "slow"));
        }
        _ => panic!("expected an object"),
    }
}
