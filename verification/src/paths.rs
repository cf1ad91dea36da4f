//! The Kubernetes API paths the workflows call.
use vstd::prelude::*;
use vstd::string::*;

verus! {

/// All ReplicationSources of the cluster.
pub open spec fn source_list_path(group: Seq<char>) -> Seq<char> {
    "/apis/"@ + group + "/v1alpha1/replicationsources"@
}

/// One ReplicationSource.
pub open spec fn source_path(group: Seq<char>, ns: Seq<char>, name: Seq<char>) -> Seq<char> {
    "/apis/"@ + group + "/v1alpha1/namespaces/"@ + ns + "/replicationsources/"@ + name
}

/// One ReplicationDestination.
pub open spec fn destination_path(group: Seq<char>, ns: Seq<char>, name: Seq<char>) -> Seq<char> {
    "/apis/"@ + group + "/v1alpha1/namespaces/"@ + ns + "/replicationdestinations/"@ + name
}

/// The status of one ReplicationDestination.
pub open spec fn destination_status_path(group: Seq<char>, ns: Seq<char>, name: Seq<char>) -> Seq<char> {
    destination_path(group, ns, name) + "/status"@
}

/// One Flux HelmRelease.
pub open spec fn helm_release_path(ns: Seq<char>, name: Seq<char>) -> Seq<char> {
    "/apis/helm.toolkit.fluxcd.io/v2/namespaces/"@ + ns + "/helmreleases/"@ + name
}

/// The Deployments of a namespace labelled as instances of an application.
pub open spec fn app_deployments_path(ns: Seq<char>, instance: Seq<char>) -> Seq<char> {
    "/apis/apps/v1/namespaces/"@ + ns + "/deployments?labelSelector=app.kubernetes.io/instance="@
        + instance
}

/// One Deployment.
pub open spec fn deployment_path(ns: Seq<char>, name: Seq<char>) -> Seq<char> {
    "/apis/apps/v1/namespaces/"@ + ns + "/deployments/"@ + name
}

/// The scale subresource of one Deployment.
pub open spec fn deployment_scale_path(ns: Seq<char>, name: Seq<char>) -> Seq<char> {
    deployment_path(ns, name) + "/scale"@
}

/// The Pods of a namespace.
pub open spec fn pods_path(ns: Seq<char>) -> Seq<char> {
    "/api/v1/namespaces/"@ + ns + "/pods"@
}

/// One Pod.
pub open spec fn pod_path(ns: Seq<char>, name: Seq<char>) -> Seq<char> {
    pods_path(ns) + "/"@ + name
}

/// The log of one Pod.
pub open spec fn pod_log_path(ns: Seq<char>, name: Seq<char>) -> Seq<char> {
    pod_path(ns, name) + "/log"@
}

/// One PersistentVolumeClaim.
pub open spec fn pvc_path(ns: Seq<char>, name: Seq<char>) -> Seq<char> {
    "/api/v1/namespaces/"@ + ns + "/persistentvolumeclaims/"@ + name
}

/// The path of all ReplicationSources.
pub fn source_list(group: &str) -> (r: String)
    ensures
        r@ == source_list_path(group@),
{
    let mut r = "/apis/".to_owned();
    r.append(group);
    r.append("/v1alpha1/replicationsources");
    r
}

/// The path of one ReplicationSource.
pub fn source(group: &str, ns: &str, name: &str) -> (r: String)
    ensures
        r@ == source_path(group@, ns@, name@),
{
    let mut r = "/apis/".to_owned();
    r.append(group);
    r.append("/v1alpha1/namespaces/");
    r.append(ns);
    r.append("/replicationsources/");
    r.append(name);
    r
}

/// The path of one ReplicationDestination.
pub fn destination(group: &str, ns: &str, name: &str) -> (r: String)
    ensures
        r@ == destination_path(group@, ns@, name@),
{
    let mut r = "/apis/".to_owned();
    r.append(group);
    r.append("/v1alpha1/namespaces/");
    r.append(ns);
    r.append("/replicationdestinations/");
    r.append(name);
    r
}

/// The path of the status of one ReplicationDestination.
pub fn destination_status(group: &str, ns: &str, name: &str) -> (r: String)
    ensures
        r@ == destination_status_path(group@, ns@, name@),
{
    let mut r = destination(group, ns, name);
    r.append("/status");
    r
}

/// The path of one HelmRelease.
pub fn helm_release(ns: &str, name: &str) -> (r: String)
    ensures
        r@ == helm_release_path(ns@, name@),
{
    let mut r = "/apis/helm.toolkit.fluxcd.io/v2/namespaces/".to_owned();
    r.append(ns);
    r.append("/helmreleases/");
    r.append(name);
    r
}

/// The path that lists an application's Deployments.
pub fn app_deployments(ns: &str, instance: &str) -> (r: String)
    ensures
        r@ == app_deployments_path(ns@, instance@),
{
    let mut r = "/apis/apps/v1/namespaces/".to_owned();
    r.append(ns);
    r.append("/deployments?labelSelector=app.kubernetes.io/instance=");
    r.append(instance);
    r
}

/// The path of one Deployment.
pub fn deployment(ns: &str, name: &str) -> (r: String)
    ensures
        r@ == deployment_path(ns@, name@),
{
    let mut r = "/apis/apps/v1/namespaces/".to_owned();
    r.append(ns);
    r.append("/deployments/");
    r.append(name);
    r
}

/// The path of the scale subresource of one Deployment.
pub fn deployment_scale(ns: &str, name: &str) -> (r: String)
    ensures
        r@ == deployment_scale_path(ns@, name@),
{
    let mut r = deployment(ns, name);
    r.append("/scale");
    r
}

/// The path of the Pods of a namespace.
pub fn pods(ns: &str) -> (r: String)
    ensures
        r@ == pods_path(ns@),
{
    let mut r = "/api/v1/namespaces/".to_owned();
    r.append(ns);
    r.append("/pods");
    r
}

/// The path of one Pod.
pub fn pod(ns: &str, name: &str) -> (r: String)
    ensures
        r@ == pod_path(ns@, name@),
{
    let mut r = pods(ns);
    r.append("/");
    r.append(name);
    r
}

/// The path of the log of one Pod.
pub fn pod_log(ns: &str, name: &str) -> (r: String)
    ensures
        r@ == pod_log_path(ns@, name@),
{
    let mut r = pod(ns, name);
    r.append("/log");
    r
}

/// The path of one PersistentVolumeClaim.
pub fn pvc(ns: &str, name: &str) -> (r: String)
    ensures
        r@ == pvc_path(ns@, name@),
{
    let mut r = "/api/v1/namespaces/".to_owned();
    r.append(ns);
    r.append("/persistentvolumeclaims/");
    r.append(name);
    r
}

} // verus!
