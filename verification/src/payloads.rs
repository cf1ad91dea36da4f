//! The request bodies the workflows send to the Kubernetes API.
use crate::json::{obj1, obj2, values_view, members_view, Json, JsonView};
use vstd::prelude::*;

verus! {

/// `{"spec": {"trigger": {"manual": trigger}}}`
pub open spec fn trigger_patch_spec(trigger: Seq<char>) -> JsonView {
    obj1("spec"@, obj1("trigger"@, obj1("manual"@, JsonView::Str(trigger))))
}

/// `{"spec": {"trigger": {"manual": null}}}`
pub open spec fn clear_trigger_patch_spec() -> JsonView {
    obj1("spec"@, obj1("trigger"@, obj1("manual"@, JsonView::Null)))
}

/// `{"spec": {"suspended": suspended}}`
pub open spec fn suspend_patch_spec(suspended: bool) -> JsonView {
    obj1("spec"@, obj1("suspended"@, JsonView::Bool(suspended)))
}

/// `{"spec": {"replicas": replicas}}`
pub open spec fn scale_patch_spec(replicas: i64) -> JsonView {
    obj1("spec"@, obj1("replicas"@, JsonView::Int(replicas)))
}

/// `{"status": {"lastManualSync": null}}`
pub open spec fn reset_sync_patch_spec() -> JsonView {
    obj1("status"@, obj1("lastManualSync"@, JsonView::Null))
}

/// The `restic` part of a restore patch: `{"restoreAsOf": timestamp}` for a
/// non-empty timestamp, `{}` otherwise.
pub open spec fn restic_spec(timestamp: Option<Seq<char>>) -> JsonView {
    match timestamp {
        Some(t) => if t.len() > 0 {
            obj1("restoreAsOf"@, JsonView::Str(t))
        } else {
            JsonView::Object(seq![])
        },
        None => JsonView::Object(seq![]),
    }
}

/// The patch that points a ReplicationDestination at a snapshot time:
/// `{"spec": {"restic": ..}}`, with `"trigger": {"manual": trigger}` added
/// to `spec` when the trigger was generated here.
pub open spec fn restore_patch_spec(timestamp: Option<Seq<char>>, new_trigger: Option<Seq<char>>) -> JsonView {
    match new_trigger {
        Some(t) => obj1(
            "spec"@,
            obj2("restic"@, restic_spec(timestamp), "trigger"@, obj1("manual"@, JsonView::Str(t))),
        ),
        None => obj1("spec"@, obj1("restic"@, restic_spec(timestamp))),
    }
}

/// The Pod that lists the snapshots of a restic repository: restic with
/// `snapshots --json`, its environment taken from the repository secret.
pub open spec fn snapshot_pod_spec(name: Seq<char>, ns: Seq<char>, image: Seq<char>, secret: Seq<char>) -> JsonView {
    JsonView::Object(
        seq![
            ("apiVersion"@, JsonView::Str("v1"@)),
            ("kind"@, JsonView::Str("Pod"@)),
            ("metadata"@, obj2("name"@, JsonView::Str(name), "namespace"@, JsonView::Str(ns))),
            (
                "spec"@,
                obj2(
                    "restartPolicy"@,
                    JsonView::Str("Never"@),
                    "containers"@,
                    JsonView::Array(
                        seq![
                            JsonView::Object(
                                seq![
                                    ("name"@, JsonView::Str("restic"@)),
                                    ("image"@, JsonView::Str(image)),
                                    (
                                        "args"@,
                                        JsonView::Array(
                                            seq![JsonView::Str("snapshots"@), JsonView::Str("--json"@)],
                                        ),
                                    ),
                                    (
                                        "envFrom"@,
                                        JsonView::Array(
                                            seq![obj1("secretRef"@, obj1("name"@, JsonView::Str(secret)))],
                                        ),
                                    ),
                                ],
                            ),
                        ],
                    ),
                ),
            ),
        ],
    )
}

/// The patch that asks VolSync for a manual sync.
pub fn trigger_patch(trigger: &str) -> (j: Json)
    ensures
        j@ == trigger_patch_spec(trigger@),
{
    Json::with1("spec", Json::with1("trigger", Json::with1("manual", Json::text(trigger))))
}

/// The patch that withdraws a manual sync request.
pub fn clear_trigger_patch() -> (j: Json)
    ensures
        j@ == clear_trigger_patch_spec(),
{
    Json::with1("spec", Json::with1("trigger", Json::with1("manual", Json::Null)))
}

/// The patch that suspends or resumes a HelmRelease.
pub fn suspend_patch(suspended: bool) -> (j: Json)
    ensures
        j@ == suspend_patch_spec(suspended),
{
    Json::with1("spec", Json::with1("suspended", Json::Bool(suspended)))
}

/// The patch that scales a Deployment.
pub fn scale_patch(replicas: i64) -> (j: Json)
    ensures
        j@ == scale_patch_spec(replicas),
{
    Json::with1("spec", Json::with1("replicas", Json::Int(replicas)))
}

/// The status patch that clears `lastManualSync`, so that VolSync runs the
/// manual trigger again.
pub fn reset_sync_patch() -> (j: Json)
    ensures
        j@ == reset_sync_patch_spec(),
{
    Json::with1("status", Json::with1("lastManualSync", Json::Null))
}

/// The patch that points a ReplicationDestination at a snapshot time.
pub fn restore_patch(timestamp: Option<&str>, new_trigger: Option<&str>) -> (j: Json)
    ensures
        j@ == restore_patch_spec(
            match timestamp {
                Some(t) => Some(t@),
                None => None,
            },
            match new_trigger {
                Some(t) => Some(t@),
                None => None,
            },
        ),
{
    let restic = match timestamp {
        Some(t) => if !t.is_empty() {
            Json::with1("restoreAsOf", Json::text(t))
        } else {
            let j = Json::object(Vec::new());
            assert(members_view(Seq::<(String, Json)>::empty()) =~= seq![]);
            j
        },
        None => {
            let j = Json::object(Vec::new());
            assert(members_view(Seq::<(String, Json)>::empty()) =~= seq![]);
            j
        },
    };
    match new_trigger {
        Some(t) => Json::with1(
            "spec",
            Json::with2("restic", restic, "trigger", Json::with1("manual", Json::text(t))),
        ),
        None => Json::with1("spec", Json::with1("restic", restic)),
    }
}

/// The Pod that lists the snapshots of a restic repository.
pub fn snapshot_pod(name: &str, ns: &str, image: &str, secret: &str) -> (j: Json)
    ensures
        j@ == snapshot_pod_spec(name@, ns@, image@, secret@),
{
    let mut args: Vec<Json> = Vec::new();
    args.push(Json::text("snapshots"));
    args.push(Json::text("--json"));
    let ghost args_v = values_view(args@);
    let args = Json::array(args);
    let mut env: Vec<Json> = Vec::new();
    env.push(Json::with1("secretRef", Json::with1("name", Json::text(secret))));
    let ghost env_v = values_view(env@);
    let env = Json::array(env);
    let mut container: Vec<(String, Json)> = Vec::new();
    container.push(("name".to_owned(), Json::text("restic")));
    container.push(("image".to_owned(), Json::text(image)));
    container.push(("args".to_owned(), args));
    container.push(("envFrom".to_owned(), env));
    let ghost container_v = members_view(container@);
    let container = Json::object(container);
    let mut containers: Vec<Json> = Vec::new();
    containers.push(container);
    let ghost containers_v = values_view(containers@);
    let containers = Json::array(containers);
    let spec = Json::with2("restartPolicy", Json::text("Never"), "containers", containers);
    let metadata = Json::with2("name", Json::text(name), "namespace", Json::text(ns));
    let mut pod: Vec<(String, Json)> = Vec::new();
    pod.push(("apiVersion".to_owned(), Json::text("v1")));
    pod.push(("kind".to_owned(), Json::text("Pod")));
    pod.push(("metadata".to_owned(), metadata));
    pod.push(("spec".to_owned(), spec));
    let ghost pod_v = members_view(pod@);
    let j = Json::object(pod);
    proof {
        assert(args_v =~= seq![JsonView::Str("snapshots"@), JsonView::Str("--json"@)]);
        assert(env_v =~= seq![obj1("secretRef"@, obj1("name"@, JsonView::Str(secret@)))]);
        assert(container_v =~= seq![
            ("name"@, JsonView::Str("restic"@)),
            ("image"@, JsonView::Str(image@)),
            ("args"@, JsonView::Array(seq![JsonView::Str("snapshots"@), JsonView::Str("--json"@)])),
            ("envFrom"@, JsonView::Array(seq![obj1("secretRef"@, obj1("name"@, JsonView::Str(secret@)))])),
        ]);
        assert(containers_v =~= seq![container@]);
        assert(pod_v =~= snapshot_pod_spec(name@, ns@, image@, secret@)->Object_0);
    }
    j
}

} // verus!
