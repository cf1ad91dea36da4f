//! The start-up probe of the service's permissions.
use crate::error::{ErrorView, KubeError};
use crate::paths::{source_list, source_list_path};
use crate::text::{contains, has_infix, join2, join3};
use vstd::prelude::*;
use vstd::string::*;

verus! {

/// What one permission probe found.
pub enum RbacVerdict {
    /// The listing worked.
    Granted,
    /// The API refused it (an error mentioning 403).
    Missing,
    /// The resource does not exist (CRD not installed).
    NotInstalled,
    /// Some other failure, with its text.
    Skipped(String),
}

/// The mathematical value of an `RbacVerdict`.
pub enum VerdictView {
    Granted,
    Missing,
    NotInstalled,
    Skipped(Seq<char>),
}

impl View for RbacVerdict {
    type V = VerdictView;

    open spec fn view(&self) -> VerdictView {
        match self {
            RbacVerdict::Granted => VerdictView::Granted,
            RbacVerdict::Missing => VerdictView::Missing,
            RbacVerdict::NotInstalled => VerdictView::NotInstalled,
            RbacVerdict::Skipped(m) => VerdictView::Skipped(m@),
        }
    }
}

/// The probes: listing ReplicationSources, Pods, Deployments and
/// HelmReleases, each with its label and path.
pub open spec fn rbac_probes_spec(group: Seq<char>) -> Seq<(Seq<char>, Seq<char>)> {
    seq![
        ("list ReplicationSources"@, source_list_path(group)),
        ("list Pods"@, "/api/v1/pods"@),
        ("list Deployments"@, "/apis/apps/v1/deployments"@),
        ("list HelmReleases"@, "/apis/helm.toolkit.fluxcd.io/v2/helmreleases"@),
    ]
}

/// The permission probes for an API group.
pub fn rbac_probes(group: &str) -> (r: Vec<(String, String)>)
    ensures
        r@.map_values(|p: (String, String)| (p.0@, p.1@)) == rbac_probes_spec(group@),
{
    let mut r: Vec<(String, String)> = Vec::new();
    r.push(("list ReplicationSources".to_owned(), source_list(group)));
    r.push(("list Pods".to_owned(), "/api/v1/pods".to_owned()));
    r.push(("list Deployments".to_owned(), "/apis/apps/v1/deployments".to_owned()));
    r.push(("list HelmReleases".to_owned(), "/apis/helm.toolkit.fluxcd.io/v2/helmreleases".to_owned()));
    assert(r@.map_values(|p: (String, String)| (p.0@, p.1@)) =~= rbac_probes_spec(group@));
    r
}

/// What a probe's outcome means.
pub open spec fn rbac_verdict_spec(outcome: Result<Seq<char>, ErrorView>) -> VerdictView {
    match outcome {
        Ok(_) => VerdictView::Granted,
        Err(ErrorView::Api(m)) => if has_infix(m, "403"@) {
            VerdictView::Missing
        } else {
            VerdictView::Skipped(ErrorView::Api(m).text())
        },
        Err(ErrorView::NotFound(_)) => VerdictView::NotInstalled,
        Err(e) => VerdictView::Skipped(e.text()),
    }
}

/// Judges a probe's outcome.
pub fn rbac_verdict(outcome: &Result<String, KubeError>) -> (r: RbacVerdict)
    ensures
        r@ == rbac_verdict_spec(match outcome {
            Ok(t) => Ok(t@),
            Err(e) => Err(e@),
        }),
{
    match outcome {
        Ok(_) => RbacVerdict::Granted,
        Err(KubeError::Api(m)) => if contains(m.as_str(), "403") {
            RbacVerdict::Missing
        } else {
            RbacVerdict::Skipped(join2("Api error: ", m.as_str()))
        },
        Err(KubeError::NotFound(_)) => RbacVerdict::NotInstalled,
        Err(e) => RbacVerdict::Skipped(e.message()),
    }
}

/// The log line that reports a probe's verdict.
pub open spec fn rbac_line_spec(label: Seq<char>, v: VerdictView) -> Seq<char> {
    match v {
        VerdictView::Granted => "RBAC: "@ + label + " — OK"@,
        VerdictView::Missing => "RBAC: "@ + label + " — MISSING PERMISSION. Grant access via ClusterRole."@,
        VerdictView::NotInstalled => "RBAC: "@ + label + " — SKIPPED (CRD not installed)"@,
        VerdictView::Skipped(m) => "RBAC: "@ + label + " — SKIPPED ("@ + m + ")"@,
    }
}

/// The log line that reports a probe's verdict.
pub fn rbac_line(label: &str, v: &RbacVerdict) -> (r: String)
    ensures
        r@ == rbac_line_spec(label@, v@),
{
    match v {
        RbacVerdict::Granted => join3("RBAC: ", label, " — OK"),
        RbacVerdict::Missing => join3("RBAC: ", label, " — MISSING PERMISSION. Grant access via ClusterRole."),
        RbacVerdict::NotInstalled => join3("RBAC: ", label, " — SKIPPED (CRD not installed)"),
        RbacVerdict::Skipped(m) => {
            let mut r = join3("RBAC: ", label, " — SKIPPED (");
            r.append(m.as_str());
            r.append(")");
            r
        },
    }
}

} // verus!
