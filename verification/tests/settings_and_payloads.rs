use serde_json::Value;
use volsync_webui::config::{base_url, seconds_or, Environment, Settings};
use volsync_webui::json::Json;
use volsync_webui::paths;
use volsync_webui::payloads;
use volsync_webui::statics::{clean_path, mime_type, static_file};

fn to_value(j: &Json) -> Value {
    match j {
        Json::Null => Value::Null,
        Json::Bool(b) => Value::Bool(*b),
        Json::Int(n) => Value::from(*n),
        Json::OtherNumber => Value::from(0.5),
        Json::Str(s) => Value::String(s.clone()),
        Json::Array(v) => Value::Array(v.iter().map(to_value).collect()),
        Json::Object(m) => Value::Object(m.iter().map(|(k, v)| (k.clone(), to_value(v))).collect()),
    }
}

fn parsed(text: &str) -> Value {
    serde_json::from_str(text).unwrap()
}

fn empty_env() -> Environment {
    Environment {
        kubernetes_service_host: None,
        kubernetes_service_port: None,
        volsync_api_group: None,
        volsync_source_suffix: None,
        volsync_dest_suffix: None,
        volsync_pvc_suffix: None,
        refresh_interval_secs: None,
        backup_all_concurrency: None,
        poll_timeout_secs: None,
        poll_interval_secs: None,
        pod_startup_timeout_secs: None,
        restic_image: None,
    }
}

#[test]
fn documented_defaults() {
    let s = Settings::from_environment(&empty_env());
    assert_eq!(s.base_url, "http://localhost:8080");
    assert_eq!(s.api_group, "volsync.backube");
    assert_eq!(s.source_suffix, "-backup");
    assert_eq!(s.dest_suffix, "-bootstrap");
    assert_eq!(s.pvc_suffix, "-pvc");
    assert_eq!(s.refresh_interval_secs, 3600);
    assert_eq!(s.backup_all_concurrency, 5);
    assert_eq!(s.poll_timeout_secs, 300);
    assert_eq!(s.poll_interval_secs, 2);
    assert_eq!(s.pod_startup_timeout_secs, 60);
    assert_eq!(s.restic_image, "restic/restic:latest");
    assert_eq!(s.app_config().refresh_interval_secs, 3600);
}

#[test]
fn settings_from_variables() {
    let mut env = empty_env();
    env.kubernetes_service_host = Some("10.0.0.1".to_string());
    env.volsync_api_group = Some("replication.storage.io".to_string());
    env.poll_timeout_secs = Some("42".to_string());
    env.poll_interval_secs = Some("soon".to_string());
    let s = Settings::from_environment(&env);
    assert_eq!(s.base_url, "https://10.0.0.1:443");
    assert_eq!(s.api_group, "replication.storage.io");
    assert_eq!(s.poll_timeout_secs, 42);
    assert_eq!(s.poll_interval_secs, 2);
}

#[test]
fn api_addresses() {
    assert_eq!(base_url("", "8080"), "http://localhost:8080");
    assert_eq!(base_url("fd00::1", "443"), "https://[fd00::1]:443");
    assert_eq!(base_url("kubernetes.default", "6443"), "https://kubernetes.default:6443");
    assert_eq!(seconds_or(&Some("+7".to_string()), 1), 7);
    assert_eq!(seconds_or(&None, 9), 9);
}

#[test]
fn names_derived_from_the_application() {
    let s = Settings::from_environment(&empty_env());
    assert_eq!(s.dest_crd_name("gitea-backup"), "gitea-bootstrap");
    assert_eq!(s.dest_crd_name("gitea"), "gitea-bootstrap");
    assert_eq!(s.app_base_name("gitea-backup"), "gitea");
    assert_eq!(s.app_base_name("gitea"), "gitea");
    assert_eq!(s.app_base_name("-backup"), "-backup");
    assert_eq!(s.dest_crd_name("-backup"), "-bootstrap");
    assert_eq!(s.pvc_name("gitea-backup"), "gitea-pvc");
}

#[test]
fn kubernetes_paths() {
    assert_eq!(paths::source_list("volsync.backube"), "/apis/volsync.backube/v1alpha1/replicationsources");
    assert_eq!(paths::source("g", "ns", "app"), "/apis/g/v1alpha1/namespaces/ns/replicationsources/app");
    assert_eq!(paths::destination_status("g", "ns", "d"), "/apis/g/v1alpha1/namespaces/ns/replicationdestinations/d/status");
    assert_eq!(paths::helm_release("ns", "gitea"), "/apis/helm.toolkit.fluxcd.io/v2/namespaces/ns/helmreleases/gitea");
    assert_eq!(paths::app_deployments("ns", "gitea"), "/apis/apps/v1/namespaces/ns/deployments?labelSelector=app.kubernetes.io/instance=gitea");
    assert_eq!(paths::deployment_scale("ns", "web"), "/apis/apps/v1/namespaces/ns/deployments/web/scale");
    assert_eq!(paths::pod_log("ns", "p"), "/api/v1/namespaces/ns/pods/p/log");
    assert_eq!(paths::pvc("ns", "gitea-pvc"), "/api/v1/namespaces/ns/persistentvolumeclaims/gitea-pvc");
}

#[test]
fn patch_bodies() {
    assert_eq!(to_value(&payloads::trigger_patch("t1")), parsed(r#"{"spec": {"trigger": {"manual": "t1"}}}"#));
    assert_eq!(to_value(&payloads::clear_trigger_patch()), parsed(r#"{"spec": {"trigger": {"manual": null}}}"#));
    assert_eq!(to_value(&payloads::suspend_patch(true)), parsed(r#"{"spec": {"suspended": true}}"#));
    assert_eq!(to_value(&payloads::scale_patch(3)), parsed(r#"{"spec": {"replicas": 3}}"#));
    assert_eq!(to_value(&payloads::reset_sync_patch()), parsed(r#"{"status": {"lastManualSync": null}}"#));
    assert_eq!(
        to_value(&payloads::restore_patch(Some("2024-01-01T00:00:00Z"), None)),
        parsed(r#"{"spec": {"restic": {"restoreAsOf": "2024-01-01T00:00:00Z"}}}"#)
    );
    assert_eq!(to_value(&payloads::restore_patch(Some(""), None)), parsed(r#"{"spec": {"restic": {}}}"#));
    assert_eq!(
        to_value(&payloads::restore_patch(None, Some("restore-x"))),
        parsed(r#"{"spec": {"restic": {}, "trigger": {"manual": "restore-x"}}}"#)
    );
}

#[test]
fn snapshot_pod_manifest() {
    let pod = payloads::snapshot_pod("volsync-snapshots-gitea-ff", "apps", "restic/restic:latest", "gitea-restic");
    assert_eq!(
        to_value(&pod),
        parsed(
            r#"{
            "apiVersion": "v1",
            "kind": "Pod",
            "metadata": { "name": "volsync-snapshots-gitea-ff", "namespace": "apps" },
            "spec": {
                "restartPolicy": "Never",
                "containers": [{
                    "name": "restic",
                    "image": "restic/restic:latest",
                    "args": ["snapshots", "--json"],
                    "envFrom": [{ "secretRef": { "name": "gitea-restic" }}]
                }]
            }
        }"#
        )
    );
}

#[test]
fn static_files_stay_below_public() {
    assert_eq!(clean_path("/index.html"), "index.html");
    assert_eq!(clean_path("//a/../b"), "a//b");
    assert_eq!(clean_path("/...."), "");
    assert_eq!(clean_path("/a.../x"), "a./x");
    assert!(static_file("/").is_none());
    assert_eq!(clean_path("/../.."), "/");
    assert!(static_file("/....").is_none());
    let f = static_file("/pkg/app_bg.wasm").unwrap();
    assert_eq!(f.path, "public/pkg/app_bg.wasm");
    assert_eq!(f.mime, "application/wasm");
    assert_eq!(static_file("/../etc/passwd").unwrap().path, "public//etc/passwd");
    assert_eq!(mime_type("public/style.css"), "text/css");
    assert_eq!(mime_type("public/app.js"), "application/javascript");
    assert_eq!(mime_type("public/index.html"), "text/html");
    assert_eq!(mime_type("public/README"), "application/octet-stream");
    assert_eq!(mime_type("public/archive.tar.gz"), "application/octet-stream");
    for p in ["/a/../../b", "/.../x", "/x..y", "/....."] {
        assert!(!clean_path(p).contains(".."), "{}", p);
    }
}
