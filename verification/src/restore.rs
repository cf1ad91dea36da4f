//! A restore: VolSync brings the chosen snapshot into a fresh volume while
//! the application keeps running; then the HelmRelease is suspended, the
//! application's Deployments are scaled to zero, the application's PVC is
//! deleted, and the HelmRelease is resumed so that Flux recreates the PVC
//! from the restored data and brings the Deployments back.
use crate::config::{base_name_spec, dest_name_spec, Settings};
use crate::error::{ErrorView, KubeError};
use crate::inventory::{answer_view, deployment_names, deployment_names_spec, replicas, replicas_spec};
use crate::json::{field, field_of, get_of, owned_text, text_is, text_of, Json, JsonView};
use crate::models::RestoreResponse;
use crate::paths::{
    app_deployments, app_deployments_path, deployment, deployment_path, deployment_scale,
    deployment_scale_path, destination, destination_path, destination_status,
    destination_status_path, helm_release, helm_release_path, pvc, pvc_path,
};
use crate::payloads::{
    reset_sync_patch, reset_sync_patch_spec, restore_patch, restore_patch_spec, scale_patch,
    scale_patch_spec, suspend_patch, suspend_patch_spec,
};
use crate::stamps::{clock_nanos, restore_trigger, utc_stamp, utc_stamp_of};
use crate::text::{
    debug_option, debug_option_text, eq_ignore_ascii_case, eq_ignore_ascii_case_spec, join2,
    opt_text, texts_of,
};
use crate::workflow::{is_past, past, secs_to_nanos, Action, ActionView, Event, EventView, Verb};
use vstd::prelude::*;
use vstd::string::*;

verus! {

/// The mathematical value of a `RestoreResponse`.
pub struct RestoreView {
    pub trigger: Seq<char>,
    pub status: Seq<char>,
    pub result: Option<Seq<char>>,
}

impl View for RestoreResponse {
    type V = RestoreView;

    open spec fn view(&self) -> RestoreView {
        RestoreView { trigger: self.trigger@, status: self.status@, result: opt_text(self.result) }
    }
}

/// Where a restore stands.
pub enum RestoreStage {
    Start,
    ReadingDest,
    PatchingDest,
    ResettingStatus,
    Starting,
    Checking,
    Sleeping,
    Polling,
    Suspending,
    Listing,
    Reading(usize),
    Scaling(usize),
    Deleting,
    RollingBack(usize, KubeError),
    Releasing(KubeError),
    Unsuspending,
    Done,
}

/// The mathematical value of a `RestoreStage`.
pub enum RestoreStageView {
    Start,
    ReadingDest,
    PatchingDest,
    ResettingStatus,
    Starting,
    Checking,
    Sleeping,
    Polling,
    Suspending,
    Listing,
    Reading(usize),
    Scaling(usize),
    Deleting,
    RollingBack(usize, ErrorView),
    Releasing(ErrorView),
    Unsuspending,
    Done,
}

/// A restore of one application, driven step by step.
pub struct RestoreRun {
    ns: String,
    dest_path: String,
    status_path: String,
    release_path: String,
    deployments_path: String,
    pvc_name: String,
    pvc_path: String,
    timestamp: Option<String>,
    stamp: String,
    trigger: String,
    result: Option<String>,
    deployments: Vec<String>,
    replicas: Vec<i64>,
    timeout_secs: u64,
    interval_secs: u64,
    started: u128,
    stage: RestoreStage,
}

/// The mathematical value of a `RestoreRun`.
pub struct RestoreRunView {
    pub ns: Seq<char>,
    pub dest_path: Seq<char>,
    pub status_path: Seq<char>,
    pub release_path: Seq<char>,
    pub deployments_path: Seq<char>,
    pub pvc_name: Seq<char>,
    pub pvc_path: Seq<char>,
    pub timestamp: Option<Seq<char>>,
    pub stamp: Seq<char>,
    pub trigger: Seq<char>,
    pub result: Option<Seq<char>>,
    pub deployments: Seq<Seq<char>>,
    pub replicas: Seq<i64>,
    pub timeout_secs: u64,
    pub interval_secs: u64,
    pub started: u128,
    pub stage: RestoreStageView,
}

/// The view of a restore stage.
pub open spec fn stage_view(s: RestoreStage) -> RestoreStageView {
    match s {
        RestoreStage::Start => RestoreStageView::Start,
        RestoreStage::ReadingDest => RestoreStageView::ReadingDest,
        RestoreStage::PatchingDest => RestoreStageView::PatchingDest,
        RestoreStage::ResettingStatus => RestoreStageView::ResettingStatus,
        RestoreStage::Starting => RestoreStageView::Starting,
        RestoreStage::Checking => RestoreStageView::Checking,
        RestoreStage::Sleeping => RestoreStageView::Sleeping,
        RestoreStage::Polling => RestoreStageView::Polling,
        RestoreStage::Suspending => RestoreStageView::Suspending,
        RestoreStage::Listing => RestoreStageView::Listing,
        RestoreStage::Reading(i) => RestoreStageView::Reading(i),
        RestoreStage::Scaling(i) => RestoreStageView::Scaling(i),
        RestoreStage::Deleting => RestoreStageView::Deleting,
        RestoreStage::RollingBack(i, e) => RestoreStageView::RollingBack(i, e@),
        RestoreStage::Releasing(e) => RestoreStageView::Releasing(e@),
        RestoreStage::Unsuspending => RestoreStageView::Unsuspending,
        RestoreStage::Done => RestoreStageView::Done,
    }
}

impl View for RestoreRun {
    type V = RestoreRunView;

    closed spec fn view(&self) -> RestoreRunView {
        RestoreRunView {
            ns: self.ns@,
            dest_path: self.dest_path@,
            status_path: self.status_path@,
            release_path: self.release_path@,
            deployments_path: self.deployments_path@,
            pvc_name: self.pvc_name@,
            pvc_path: self.pvc_path@,
            timestamp: opt_text(self.timestamp),
            stamp: self.stamp@,
            trigger: self.trigger@,
            result: opt_text(self.result),
            deployments: texts_of(self.deployments@),
            replicas: self.replicas@,
            timeout_secs: self.timeout_secs,
            interval_secs: self.interval_secs,
            started: self.started,
            stage: stage_view(self.stage),
        }
    }
}

/// The bookkeeping a restore keeps consistent: while Deployments are read,
/// one replica count per Deployment read so far; from scaling on, one per
/// Deployment; the index always names a Deployment.
pub open spec fn restore_consistent(s: RestoreRunView) -> bool {
    match s.stage {
        RestoreStageView::Reading(i) => i < s.deployments.len() && s.replicas.len() == i,
        RestoreStageView::Scaling(i) => i < s.deployments.len() && s.replicas.len()
            == s.deployments.len(),
        RestoreStageView::RollingBack(i, _) => i < s.deployments.len() && s.replicas.len()
            == s.deployments.len(),
        RestoreStageView::Deleting | RestoreStageView::Releasing(_) | RestoreStageView::Unsuspending => s.replicas.len()
            == s.deployments.len(),
        RestoreStageView::Done => true,
        _ => s.replicas.len() == 0,
    }
}

/// Which event a restore waits for in each stage.
pub open spec fn restore_expects(s: RestoreRunView, e: EventView) -> bool {
    match s.stage {
        RestoreStageView::Start => e is Go,
        RestoreStageView::Starting | RestoreStageView::Checking => e is Clock,
        RestoreStageView::Sleeping => e is Done,
        RestoreStageView::Done => false,
        _ => e is Answer,
    }
}

/// The trigger the ReplicationDestination already carries
/// (`spec.trigger.manual`), when it is a non-empty string.
pub open spec fn existing_trigger(rd: JsonView) -> Option<Seq<char>> {
    match text_of(field_of(field_of(field(rd, "spec"@), "trigger"@), "manual"@)) {
        Some(t) => if t.len() > 0 {
            Some(t)
        } else {
            None
        },
        None => None,
    }
}

/// Whether a mover result counts as success: `successful`, in any case.
pub open spec fn successful(result: Option<Seq<char>>) -> bool {
    match result {
        Some(r) => eq_ignore_ascii_case_spec(r, "successful"@),
        None => false,
    }
}

/// Scaling a Deployment of the restore.
pub open spec fn scale_call(s: RestoreRunView, i: int, replicas: i64) -> ActionView<RestoreView> {
    ActionView::Call {
        verb: Verb::Patch,
        path: deployment_scale_path(s.ns, s.deployments[i]),
        body: Some(scale_patch_spec(replicas)),
    }
}

/// Suspending or resuming the HelmRelease.
pub open spec fn release_call(s: RestoreRunView, suspended: bool) -> ActionView<RestoreView> {
    ActionView::Call { verb: Verb::Patch, path: s.release_path, body: Some(suspend_patch_spec(suspended)) }
}

/// Deleting the application's PVC.
pub open spec fn delete_call(s: RestoreRunView) -> ActionView<RestoreView> {
    ActionView::Call { verb: Verb::Delete, path: s.pvc_path, body: None }
}

/// Entering a stage with the given action.
pub open spec fn goto(s: RestoreRunView, stage: RestoreStageView, a: ActionView<RestoreView>) -> (RestoreRunView, ActionView<RestoreView>) {
    (RestoreRunView { stage, ..s }, a)
}

/// One step of a restore.
///
/// Before the restored data is ready nothing of the application is
/// touched: read the ReplicationDestination's trigger (or make one up),
/// point it at the snapshot time, clear `lastManualSync` so that VolSync
/// syncs, then poll until it reports the sync of that trigger.  A result
/// other than `successful` fails the restore.  Then suspend the
/// HelmRelease (an application without one fails here), read the replica
/// counts of the application's Deployments and scale them to zero, delete
/// the PVC, and resume the HelmRelease.  Should the PVC not go, the
/// Deployments get their replica counts back and the HelmRelease is resumed
/// before the failure is reported.
pub open spec fn restore_step(s: RestoreRunView, e: EventView) -> (RestoreRunView, ActionView<RestoreView>) {
    let n = s.deployments.len();
    match (s.stage, e) {
        (RestoreStageView::Start, EventView::Go) => goto(
            s,
            RestoreStageView::ReadingDest,
            ActionView::Call { verb: Verb::Get, path: s.dest_path, body: None },
        ),
        (RestoreStageView::ReadingDest, EventView::Answer(Err(err))) => goto(
            s,
            RestoreStageView::Done,
            ActionView::Finish(Err(err)),
        ),
        (RestoreStageView::ReadingDest, EventView::Answer(Ok(rd))) => {
            let (trigger, made) = match existing_trigger(rd) {
                Some(t) => (t, None),
                None => ("restore-"@ + s.stamp, Some("restore-"@ + s.stamp)),
            };
            (
                RestoreRunView { stage: RestoreStageView::PatchingDest, trigger, ..s },
                ActionView::Call {
                    verb: Verb::Patch,
                    path: s.dest_path,
                    body: Some(restore_patch_spec(s.timestamp, made)),
                },
            )
        },
        (RestoreStageView::PatchingDest, EventView::Answer(Err(err))) => goto(
            s,
            RestoreStageView::Done,
            ActionView::Finish(
                Err(ErrorView::Api("Failed to patch ReplicationDestination: "@ + err.text())),
            ),
        ),
        (RestoreStageView::PatchingDest, EventView::Answer(Ok(_))) => goto(
            s,
            RestoreStageView::ResettingStatus,
            ActionView::Call { verb: Verb::Patch, path: s.status_path, body: Some(reset_sync_patch_spec()) },
        ),
        (RestoreStageView::ResettingStatus, EventView::Answer(Err(err))) => goto(
            s,
            RestoreStageView::Done,
            ActionView::Finish(
                Err(ErrorView::Api("Failed to patch ReplicationDestination status: "@ + err.text())),
            ),
        ),
        (RestoreStageView::ResettingStatus, EventView::Answer(Ok(_))) => goto(
            s,
            RestoreStageView::Starting,
            ActionView::ReadClock,
        ),
        (RestoreStageView::Starting, EventView::Clock(t)) => (
            RestoreRunView { stage: RestoreStageView::Checking, started: t, ..s },
            ActionView::ReadClock,
        ),
        (RestoreStageView::Checking, EventView::Clock(t)) => if past(s.started, t, s.timeout_secs) {
            goto(
                s,
                RestoreStageView::Done,
                ActionView::Finish(Err(ErrorView::Timeout("Restore polling timed out"@))),
            )
        } else {
            goto(s, RestoreStageView::Sleeping, ActionView::Sleep { secs: s.interval_secs })
        },
        (RestoreStageView::Sleeping, EventView::Done) => goto(
            s,
            RestoreStageView::Polling,
            ActionView::Call { verb: Verb::Get, path: s.dest_path, body: None },
        ),
        (RestoreStageView::Polling, EventView::Answer(Err(err))) => goto(
            s,
            RestoreStageView::Done,
            ActionView::Finish(Err(err)),
        ),
        (RestoreStageView::Polling, EventView::Answer(Ok(d))) => {
            let status = field(d, "status"@);
            let result = text_of(field_of(field_of(status, "latestMoverStatus"@), "result"@));
            if text_of(field_of(status, "lastManualSync"@)) == Some(s.trigger) {
                if successful(result) {
                    (
                        RestoreRunView { stage: RestoreStageView::Suspending, result, ..s },
                        release_call(s, true),
                    )
                } else {
                    goto(
                        s,
                        RestoreStageView::Done,
                        ActionView::Finish(
                            Err(
                                ErrorView::SnapshotFailed(
                                    "Restore failed with result: "@ + debug_option(result),
                                ),
                            ),
                        ),
                    )
                }
            } else {
                goto(s, RestoreStageView::Checking, ActionView::ReadClock)
            }
        },
        (RestoreStageView::Suspending, EventView::Answer(Err(err))) => goto(
            s,
            RestoreStageView::Done,
            ActionView::Finish(Err(err)),
        ),
        (RestoreStageView::Suspending, EventView::Answer(Ok(_))) => goto(
            s,
            RestoreStageView::Listing,
            ActionView::Call { verb: Verb::Get, path: s.deployments_path, body: None },
        ),
        (RestoreStageView::Listing, EventView::Answer(r)) => {
            let names = deployment_names_spec(r);
            let s2 = RestoreRunView { deployments: names, ..s };
            if names.len() == 0 {
                goto(s2, RestoreStageView::Deleting, delete_call(s2))
            } else {
                goto(
                    s2,
                    RestoreStageView::Reading(0),
                    ActionView::Call { verb: Verb::Get, path: deployment_path(s.ns, names[0]), body: None },
                )
            }
        },
        (RestoreStageView::Reading(i), EventView::Answer(r)) => {
            let s2 = RestoreRunView { replicas: s.replicas.push(replicas_spec(r)), ..s };
            if i + 1 < n {
                goto(
                    s2,
                    RestoreStageView::Reading((i + 1) as usize),
                    ActionView::Call {
                        verb: Verb::Get,
                        path: deployment_path(s.ns, s.deployments[i + 1]),
                        body: None,
                    },
                )
            } else {
                goto(s2, RestoreStageView::Scaling(0), scale_call(s2, 0, 0))
            }
        },
        (RestoreStageView::Scaling(i), EventView::Answer(_)) => if i + 1 < n {
            goto(s, RestoreStageView::Scaling((i + 1) as usize), scale_call(s, i + 1, 0))
        } else {
            goto(s, RestoreStageView::Deleting, delete_call(s))
        },
        (RestoreStageView::Deleting, EventView::Answer(Err(err))) => {
            let failure = ErrorView::Api("Failed to delete PVC "@ + s.pvc_name + ": "@ + err.text());
            if n > 0 {
                goto(s, RestoreStageView::RollingBack(0, failure), scale_call(s, 0, s.replicas[0]))
            } else {
                goto(s, RestoreStageView::Releasing(failure), release_call(s, false))
            }
        },
        (RestoreStageView::Deleting, EventView::Answer(Ok(_))) => goto(
            s,
            RestoreStageView::Unsuspending,
            release_call(s, false),
        ),
        (RestoreStageView::RollingBack(i, failure), EventView::Answer(_)) => if i + 1 < n {
            goto(
                s,
                RestoreStageView::RollingBack((i + 1) as usize, failure),
                scale_call(s, i + 1, s.replicas[i + 1]),
            )
        } else {
            goto(s, RestoreStageView::Releasing(failure), release_call(s, false))
        },
        (RestoreStageView::Releasing(failure), EventView::Answer(_)) => goto(
            s,
            RestoreStageView::Done,
            ActionView::Finish(Err(failure)),
        ),
        (RestoreStageView::Unsuspending, EventView::Answer(Err(err))) => goto(
            s,
            RestoreStageView::Done,
            ActionView::Finish(
                Err(
                    ErrorView::Api(
                        "Restore data is ready but the HelmRelease could not be unsuspended; unsuspend it manually to recreate the PVC: "@
                            + err.text(),
                    ),
                ),
            ),
        ),
        (RestoreStageView::Unsuspending, EventView::Answer(Ok(_))) => goto(
            s,
            RestoreStageView::Done,
            ActionView::Finish(
                Ok(RestoreView { trigger: s.trigger, status: "completed"@, result: s.result }),
            ),
        ),
        _ => (s, ActionView::ReadClock),
    }
}

/// The state and the actions of a restore after a sequence of events.
pub open spec fn restore_run(s: RestoreRunView, events: Seq<EventView>) -> (RestoreRunView, Seq<ActionView<RestoreView>>)
    decreases events.len(),
{
    if events.len() == 0 {
        (s, seq![])
    } else {
        let (s1, a) = restore_step(s, events[0]);
        let (s2, rest) = restore_run(s1, events.drop_first());
        (s2, seq![a] + rest)
    }
}

/// Whether every event of a sequence is an answer to a call.
pub open spec fn all_answers(events: Seq<EventView>) -> bool {
    forall|i: int| 0 <= i < events.len() ==> #[trigger] events[i] is Answer
}

/// The calls that put the Deployments back to their recorded replica
/// counts, from the `from`-th on.
pub open spec fn scale_backs(s: RestoreRunView, from: int) -> Seq<ActionView<RestoreView>> {
    Seq::new(
        (s.deployments.len() - from) as nat,
        |k: int| scale_call(s, from + k, s.replicas[from + k]),
    )
}

/// The stages before the restored data is ready.
pub open spec fn before_ready(stage: RestoreStageView) -> bool {
    stage is Start || stage is ReadingDest || stage is PatchingDest || stage is ResettingStatus
        || stage is Starting || stage is Checking || stage is Sleeping || stage is Polling
}

/// Whether a poll answer shows the sync of the restore's trigger with a
/// successful result.
pub open spec fn sees_success(s: RestoreRunView, e: EventView) -> bool {
    &&& s.stage is Polling
    &&& e matches EventView::Answer(Ok(d))
    &&& text_of(field_of(field(d, "status"@), "lastManualSync"@)) == Some(s.trigger)
    &&& successful(text_of(field_of(field_of(field(d, "status"@), "latestMoverStatus"@), "result"@)))
}

/// Before the restored data is ready, the restore calls nothing but the
/// ReplicationDestination, except that the poll which sees the sync of its
/// trigger with a successful result suspends the HelmRelease.
pub proof fn law_untouched_until_ready(s: RestoreRunView, e: EventView)
    requires
        before_ready(s.stage),
        restore_expects(s, e),
    ensures
        match restore_step(s, e).1 {
            ActionView::Call { verb, path, body } => path == s.dest_path || path == s.status_path
                || sees_success(s, e) && restore_step(s, e).1 == release_call(s, true),
            _ => true,
        },
{
}

/// A restore reports success only once the HelmRelease was resumed after
/// the PVC was deleted.
pub proof fn law_success_after_resume(s: RestoreRunView, e: EventView)
    requires
        restore_step(s, e).1 matches ActionView::Finish(Ok(_)),
    ensures
        s.stage is Unsuspending,
        e matches EventView::Answer(Ok(_)),
{
}

proof fn lemma_rolling_back(b: RestoreRunView, i: int, failure: ErrorView, events: Seq<EventView>)
    requires
        0 <= i < b.deployments.len(),
        b.deployments.len() <= usize::MAX,
        b.replicas.len() == b.deployments.len(),
        events.len() == b.deployments.len() - i + 1,
        all_answers(events),
    ensures
        restore_run(RestoreRunView { stage: RestoreStageView::RollingBack(i as usize, failure), ..b }, events).1
            == scale_backs(b, i + 1) + seq![release_call(b, false), ActionView::Finish(Err(failure))],
    decreases b.deployments.len() - i,
{
    let n = b.deployments.len();
    let s = RestoreRunView { stage: RestoreStageView::RollingBack(i as usize, failure), ..b };
    assert(events[0] is Answer);
    let rest = events.drop_first();
    assert(all_answers(rest)) by {
        assert forall|k: int| 0 <= k < rest.len() implies #[trigger] rest[k] is Answer by {
            assert(rest[k] == events[k + 1]);
        }
    }
    if i + 1 < n {
        lemma_rolling_back(b, i + 1, failure, rest);
        let s1 = RestoreRunView { stage: RestoreStageView::RollingBack((i + 1) as usize, failure), ..b };
        assert(restore_step(s, events[0]) == (s1, scale_call(b, i + 1, b.replicas[i + 1])));
        assert(scale_backs(b, i + 1) =~= seq![scale_call(b, i + 1, b.replicas[i + 1])] + scale_backs(b, i + 2));
        assert(seq![scale_call(b, i + 1, b.replicas[i + 1])] + (scale_backs(b, i + 2) + seq![
            release_call(b, false),
            ActionView::Finish(Err(failure)),
        ]) =~= scale_backs(b, i + 1) + seq![release_call(b, false), ActionView::Finish(Err(failure))]);
    } else {
        let s1 = RestoreRunView { stage: RestoreStageView::Releasing(failure), ..b };
        assert(restore_step(s, events[0]) == (s1, release_call(b, false)));
        assert(rest.len() == 1);
        assert(rest[0] is Answer);
        let s2 = RestoreRunView { stage: RestoreStageView::Done, ..b };
        assert(restore_step(s1, rest[0]) == (s2, ActionView::<RestoreView>::Finish(Err(failure))));
        assert(rest.drop_first().len() == 0);
        assert(restore_run(s2, rest.drop_first()).1 =~= seq![]);
        assert(restore_run(s1, rest).1 =~= seq![ActionView::<RestoreView>::Finish(Err(failure))]);
        assert(scale_backs(b, i + 1) =~= seq![]);
        assert(restore_run(s, events).1 =~= seq![release_call(b, false), ActionView::Finish(Err(failure))]);
        assert(scale_backs(b, i + 1) + seq![release_call(b, false), ActionView::Finish(Err(failure))]
            =~= seq![release_call(b, false), ActionView::Finish(Err(failure))]);
    }
}

/// When the PVC cannot be deleted, the restore puts every Deployment back
/// to the replica count it had, in order, then resumes the HelmRelease, and
/// only then reports the failure.
pub proof fn law_failed_delete_rolls_back(s: RestoreRunView, err: ErrorView, events: Seq<EventView>)
    requires
        s.stage is Deleting,
        restore_consistent(s),
        s.deployments.len() <= usize::MAX,
        events.len() == s.deployments.len() + 2,
        events[0] == EventView::Answer(Err(err)),
        all_answers(events),
    ensures
        restore_run(s, events).1 == scale_backs(s, 0) + seq![
            release_call(s, false),
            ActionView::Finish(Err(ErrorView::Api("Failed to delete PVC "@ + s.pvc_name + ": "@ + err.text()))),
        ],
{
    let n = s.deployments.len();
    let failure = ErrorView::Api("Failed to delete PVC "@ + s.pvc_name + ": "@ + err.text());
    let rest = events.drop_first();
    assert(all_answers(rest)) by {
        assert forall|k: int| 0 <= k < rest.len() implies #[trigger] rest[k] is Answer by {
            assert(rest[k] == events[k + 1]);
        }
    }
    if n > 0 {
        let s1 = RestoreRunView { stage: RestoreStageView::RollingBack(0, failure), ..s };
        assert(restore_step(s, events[0]) == (s1, scale_call(s, 0, s.replicas[0])));
        lemma_rolling_back(s, 0, failure, rest);
        assert(scale_backs(s, 0) =~= seq![scale_call(s, 0, s.replicas[0])] + scale_backs(s, 1));
        assert(seq![scale_call(s, 0, s.replicas[0])] + (scale_backs(s, 1) + seq![
            release_call(s, false),
            ActionView::Finish(Err(failure)),
        ]) =~= scale_backs(s, 0) + seq![release_call(s, false), ActionView::Finish(Err(failure))]);
    } else {
        let s1 = RestoreRunView { stage: RestoreStageView::Releasing(failure), ..s };
        assert(restore_step(s, events[0]) == (s1, release_call(s, false)));
        assert(rest.len() == 1);
        assert(rest[0] is Answer);
        let s2 = RestoreRunView { stage: RestoreStageView::Done, ..s };
        assert(restore_step(s1, rest[0]) == (s2, ActionView::<RestoreView>::Finish(Err(failure))));
        assert(restore_run(s2, rest.drop_first()).1 =~= seq![]);
        assert(restore_run(s1, rest).1 =~= seq![ActionView::<RestoreView>::Finish(Err(failure))]);
        assert(scale_backs(s, 0) =~= seq![]);
        assert(restore_run(s, events).1 =~= seq![release_call(s, false), ActionView::Finish(Err(failure))]);
        assert(scale_backs(s, 0) + seq![release_call(s, false), ActionView::Finish(Err(failure))]
            =~= seq![release_call(s, false), ActionView::Finish(Err(failure))]);
    }
}

/// Once the PVC is deleted the restore resumes the HelmRelease, so that
/// Flux recreates the PVC and scales the application back up, and then
/// reports the restore as completed with the mover's result.
pub proof fn law_delete_then_resume(s: RestoreRunView, deleted: JsonView, resumed: JsonView)
    requires
        s.stage is Deleting,
    ensures
        restore_run(s, seq![EventView::Answer(Ok(deleted)), EventView::Answer(Ok(resumed))]).1 == seq![
            release_call(s, false),
            ActionView::Finish(Ok(RestoreView { trigger: s.trigger, status: "completed"@, result: s.result })),
        ],
{
    let events = seq![EventView::Answer(Ok(deleted)), EventView::Answer(Ok(resumed))];
    let s1 = RestoreRunView { stage: RestoreStageView::Unsuspending, ..s };
    let s2 = RestoreRunView { stage: RestoreStageView::Done, ..s };
    assert(events.drop_first() =~= seq![EventView::Answer(Ok(resumed))]);
    assert(events.drop_first().drop_first() =~= Seq::<EventView>::empty());
    assert(restore_run(s2, events.drop_first().drop_first()).1 =~= seq![]);
    assert(restore_run(s1, events.drop_first()).1 =~= seq![
        ActionView::<RestoreView>::Finish(Ok(RestoreView { trigger: s.trigger, status: "completed"@, result: s.result })),
    ]);
    assert(restore_run(s, events).1 =~= seq![
        release_call(s, false),
        ActionView::Finish(Ok(RestoreView { trigger: s.trigger, status: "completed"@, result: s.result })),
    ]);
}

/// The call that scales the `k`-th Deployment of a restore down to zero.
pub open spec fn scale_to_zero(s: RestoreRunView, k: int) -> ActionView<RestoreView> {
    ActionView::Call {
        verb: Verb::Patch,
        path: deployment_scale_path(s.ns, s.deployments[k]),
        body: Some(scale_patch_spec(0)),
    }
}

/// The calls that scale the Deployments of a restore down to zero, from
/// the `from`-th on, in order.
pub open spec fn scale_downs(s: RestoreRunView, from: int) -> Seq<ActionView<RestoreView>> {
    Seq::new((s.deployments.len() - from) as nat, |k: int| scale_to_zero(s, from + k))
}

proof fn lemma_scaling_down(b: RestoreRunView, i: int, events: Seq<EventView>)
    requires
        0 <= i < b.deployments.len(),
        b.deployments.len() <= usize::MAX,
        b.replicas.len() == b.deployments.len(),
        events.len() == b.deployments.len() - i,
        all_answers(events),
    ensures
        restore_run(RestoreRunView { stage: RestoreStageView::Scaling(i as usize), ..b }, events).1
            == scale_downs(b, i + 1) + seq![
            ActionView::<RestoreView>::Call { verb: Verb::Delete, path: b.pvc_path, body: None },
        ],
    decreases b.deployments.len() - i,
{
    let n = b.deployments.len();
    let s = RestoreRunView { stage: RestoreStageView::Scaling(i as usize), ..b };
    let del = ActionView::<RestoreView>::Call { verb: Verb::Delete, path: b.pvc_path, body: None };
    assert(events[0] is Answer);
    let rest = events.drop_first();
    assert(all_answers(rest)) by {
        assert forall|k: int| 0 <= k < rest.len() implies #[trigger] rest[k] is Answer by {
            assert(rest[k] == events[k + 1]);
        }
    }
    if i + 1 < n {
        lemma_scaling_down(b, i + 1, rest);
        let s1 = RestoreRunView { stage: RestoreStageView::Scaling((i + 1) as usize), ..b };
        assert(restore_step(s, events[0]) == (s1, scale_to_zero(b, i + 1)));
        assert(scale_downs(b, i + 1) =~= seq![scale_to_zero(b, i + 1)] + scale_downs(b, i + 2));
        assert(seq![scale_to_zero(b, i + 1)] + (scale_downs(b, i + 2) + seq![del]) =~= scale_downs(b, i + 1)
            + seq![del]);
    } else {
        let s1 = RestoreRunView { stage: RestoreStageView::Deleting, ..b };
        assert(restore_step(s, events[0]) == (s1, del));
        assert(rest.len() == 0);
        assert(restore_run(s1, rest).1 =~= seq![]);
        assert(scale_downs(b, i + 1) =~= seq![]);
        assert(restore_run(s, events).1 =~= seq![del]);
        assert(scale_downs(b, i + 1) + seq![del] =~= seq![del]);
    }
}

/// Once the last Deployment's replica count is read, the restore scales
/// every Deployment the label selector found down to zero, one after
/// another in order, and only then deletes the application's PVC.
pub proof fn law_scale_down_before_delete(s: RestoreRunView, events: Seq<EventView>)
    requires
        s.deployments.len() > 0,
        s.deployments.len() <= usize::MAX,
        s.stage == RestoreStageView::Reading((s.deployments.len() - 1) as usize),
        restore_consistent(s),
        events.len() == s.deployments.len() + 1,
        all_answers(events),
    ensures
        restore_run(s, events).1 == scale_downs(s, 0) + seq![
            ActionView::<RestoreView>::Call { verb: Verb::Delete, path: s.pvc_path, body: None },
        ],
{
    let n = s.deployments.len();
    let del = ActionView::<RestoreView>::Call { verb: Verb::Delete, path: s.pvc_path, body: None };
    assert(events[0] is Answer);
    let r = events[0]->Answer_0;
    let s2 = RestoreRunView { replicas: s.replicas.push(replicas_spec(r)), ..s };
    let s3 = RestoreRunView { stage: RestoreStageView::Scaling(0), ..s2 };
    assert(restore_step(s, events[0]) == (s3, scale_to_zero(s, 0)));
    let rest = events.drop_first();
    assert(all_answers(rest)) by {
        assert forall|k: int| 0 <= k < rest.len() implies #[trigger] rest[k] is Answer by {
            assert(rest[k] == events[k + 1]);
        }
    }
    lemma_scaling_down(s2, 0, rest);
    assert(scale_downs(s2, 1) =~= scale_downs(s, 1));
    assert(scale_downs(s, 0) =~= seq![scale_to_zero(s, 0)] + scale_downs(s, 1));
    assert(seq![scale_to_zero(s, 0)] + (scale_downs(s, 1) + seq![del]) =~= scale_downs(s, 0) + seq![del]);
}

/// A restore gives up only once its poll timeout, not its poll interval,
/// has passed since it started: a clock reading while checking ends the
/// restore with a time-out exactly when more than `timeout_secs` seconds
/// have passed; before that it sleeps for `interval_secs`.
pub proof fn law_restore_timeout(s: RestoreRunView, t: u128)
    requires
        s.stage is Checking,
    ensures
        (t > s.started && t - s.started > s.timeout_secs * 1_000_000_000) ==> restore_step(
            s,
            EventView::Clock(t),
        ) == (
            RestoreRunView { stage: RestoreStageView::Done, ..s },
            ActionView::<RestoreView>::Finish(Err(ErrorView::Timeout("Restore polling timed out"@))),
        ),
        !(t > s.started && t - s.started > s.timeout_secs * 1_000_000_000) ==> restore_step(
            s,
            EventView::Clock(t),
        ) == (
            RestoreRunView { stage: RestoreStageView::Sleeping, ..s },
            ActionView::<RestoreView>::Sleep { secs: s.interval_secs },
        ),
{
    assert(secs_to_nanos(s.timeout_secs) == s.timeout_secs * 1_000_000_000);
}

/// Restores need a HelmRelease: when it cannot be suspended, the restore
/// ends with that error and touches nothing of the application.
pub proof fn law_release_required(s: RestoreRunView, err: ErrorView)
    requires
        s.stage is Suspending,
    ensures
        restore_step(s, EventView::Answer(Err(err))).1 == ActionView::<RestoreView>::Finish(Err(err)),
        restore_step(s, EventView::Answer(Err(err))).0.stage is Done,
{
}

/// When the PVC is gone but the HelmRelease cannot be resumed, the restore
/// fails with an error that asks for the HelmRelease to be resumed by hand.
pub proof fn law_stuck_release_asks_for_hand(s: RestoreRunView, err: ErrorView)
    requires
        s.stage is Unsuspending,
    ensures
        restore_step(s, EventView::Answer(Err(err))).1 == ActionView::<RestoreView>::Finish(
            Err(
                ErrorView::Api(
                    "Restore data is ready but the HelmRelease could not be unsuspended; unsuspend it manually to recreate the PVC: "@
                        + err.text(),
                ),
            ),
        ),
{
}

/// A restore of application `app` in namespace `ns` that has not started:
/// the paths of the objects it works on, derived from the settings, and the
/// time stamp a trigger is made from if the ReplicationDestination has none.
pub open spec fn fresh_restore(
    settings: Settings,
    app: Seq<char>,
    ns: Seq<char>,
    timestamp: Option<Seq<char>>,
    stamp: Seq<char>,
) -> RestoreRunView {
    let base = base_name_spec(app, settings.source_suffix@);
    let dest = dest_name_spec(app, settings.source_suffix@, settings.dest_suffix@);
    RestoreRunView {
        ns,
        dest_path: destination_path(settings.api_group@, ns, dest),
        status_path: destination_status_path(settings.api_group@, ns, dest),
        release_path: helm_release_path(ns, base),
        deployments_path: app_deployments_path(ns, base),
        pvc_name: base + settings.pvc_suffix@,
        pvc_path: pvc_path(ns, base + settings.pvc_suffix@),
        timestamp,
        stamp,
        trigger: Seq::empty(),
        result: None,
        deployments: Seq::empty(),
        replicas: Seq::empty(),
        timeout_secs: settings.poll_timeout_secs,
        interval_secs: settings.poll_interval_secs,
        started: 0,
        stage: RestoreStageView::Start,
    }
}

impl RestoreRun {
    #[verifier::type_invariant]
    spec fn consistent(&self) -> bool {
        restore_consistent(self@)
    }

    /// A restore of application `app` in namespace `ns` to the snapshot at
    /// `timestamp` (the latest when `None` or empty); `stamp` is the UTC
    /// time stamp a trigger is made from if the ReplicationDestination has
    /// none.
    pub fn new(settings: &Settings, app: &str, ns: &str, timestamp: Option<String>, stamp: String) -> (r: RestoreRun)
        ensures
            r@ == fresh_restore(*settings, app@, ns@, opt_text(timestamp), stamp@),
    {
        let base = settings.app_base_name(app);
        let dest = settings.dest_crd_name(app);
        let pvc_name = settings.pvc_name(app);
        let r = RestoreRun {
            ns: ns.to_owned(),
            dest_path: destination(settings.api_group.as_str(), ns, dest.as_str()),
            status_path: destination_status(settings.api_group.as_str(), ns, dest.as_str()),
            release_path: helm_release(ns, base.as_str()),
            deployments_path: app_deployments(ns, base.as_str()),
            pvc_path: pvc(ns, pvc_name.as_str()),
            pvc_name,
            timestamp,
            stamp,
            trigger: String::new(),
            result: None,
            deployments: Vec::new(),
            replicas: Vec::new(),
            timeout_secs: settings.poll_timeout_secs,
            interval_secs: settings.poll_interval_secs,
            started: 0,
            stage: RestoreStage::Start,
        };
        assert(texts_of(r.deployments@) =~= Seq::<Seq<char>>::empty());
        r
    }

    /// A restore that makes its trigger, when it needs one, from the current
    /// UTC time (`0` in its place when the clock stands before the epoch).
    pub fn now(settings: &Settings, app: &str, ns: &str, timestamp: Option<String>) -> (r: RestoreRun)
        ensures
            exists|nanos: Option<u128>|
                r@ == fresh_restore(*settings, app@, ns@, opt_text(timestamp), utc_stamp_of(nanos)),
    {
        let nanos = clock_nanos();
        RestoreRun::new(settings, app, ns, timestamp, utc_stamp(nanos))
    }

    fn release(&self, suspended: bool) -> (a: Action<RestoreResponse>)
        ensures
            a@ == release_call(self@, suspended),
    {
        Action::Call { verb: Verb::Patch, path: self.release_path.clone(), body: Some(suspend_patch(suspended)) }
    }

    fn scale(&self, i: usize, replicas: i64) -> (a: Action<RestoreResponse>)
        requires
            i < self@.deployments.len(),
        ensures
            a@ == scale_call(self@, i as int, replicas),
    {
        Action::Call {
            verb: Verb::Patch,
            path: deployment_scale(self.ns.as_str(), self.deployments[i].as_str()),
            body: Some(scale_patch(replicas)),
        }
    }

    fn delete_pvc(&self) -> (a: Action<RestoreResponse>)
        ensures
            a@ == delete_call(self@),
    {
        Action::Call { verb: Verb::Delete, path: self.pvc_path.clone(), body: None }
    }

    /// Hands the restore what came of its last action and gets the next one.
    pub fn step(&mut self, event: Event) -> (a: Action<RestoreResponse>)
        requires
            restore_expects(old(self)@, event@),
        ensures
            (final(self)@, a@) == restore_step(old(self)@, event@),
    {
        proof {
            use_type_invariant(&*self);
        }
        let ghost s0 = self@;
        let n = self.deployments.len();
        let mut stage = RestoreStage::Done;
        std::mem::swap(&mut stage, &mut self.stage);
        assert(self@ == RestoreRunView { stage: RestoreStageView::Done, ..s0 });
        match (stage, event) {
            (RestoreStage::Start, Event::Go) => {
                self.stage = RestoreStage::ReadingDest;
                Action::Call { verb: Verb::Get, path: self.dest_path.clone(), body: None }
            },
            (RestoreStage::ReadingDest, Event::Answer(Err(err))) => Action::Finish(Err(err)),
            (RestoreStage::ReadingDest, Event::Answer(Ok(rd))) => {
                let existing = match owned_text(get_of(get_of(rd.get("spec"), "trigger"), "manual")) {
                    Some(t) => if t.as_str().is_empty() {
                        None
                    } else {
                        Some(t)
                    },
                    None => None,
                };
                let body = match existing {
                    Some(t) => {
                        self.trigger = t;
                        restore_patch(
                            match &self.timestamp {
                                Some(x) => Some(x.as_str()),
                                None => None,
                            },
                            None,
                        )
                    },
                    None => {
                        let t = restore_trigger(self.stamp.as_str());
                        let b = restore_patch(
                            match &self.timestamp {
                                Some(x) => Some(x.as_str()),
                                None => None,
                            },
                            Some(t.as_str()),
                        );
                        self.trigger = t;
                        b
                    },
                };
                self.stage = RestoreStage::PatchingDest;
                Action::Call { verb: Verb::Patch, path: self.dest_path.clone(), body: Some(body) }
            },
            (RestoreStage::PatchingDest, Event::Answer(Err(err))) => {
                let m = join2("Failed to patch ReplicationDestination: ", err.message().as_str());
                Action::Finish(Err(KubeError::Api(m)))
            },
            (RestoreStage::PatchingDest, Event::Answer(Ok(_))) => {
                self.stage = RestoreStage::ResettingStatus;
                Action::Call { verb: Verb::Patch, path: self.status_path.clone(), body: Some(reset_sync_patch()) }
            },
            (RestoreStage::ResettingStatus, Event::Answer(Err(err))) => {
                let m = join2("Failed to patch ReplicationDestination status: ", err.message().as_str());
                Action::Finish(Err(KubeError::Api(m)))
            },
            (RestoreStage::ResettingStatus, Event::Answer(Ok(_))) => {
                self.stage = RestoreStage::Starting;
                Action::ReadClock
            },
            (RestoreStage::Starting, Event::Clock(t)) => {
                self.started = t;
                self.stage = RestoreStage::Checking;
                Action::ReadClock
            },
            (RestoreStage::Checking, Event::Clock(t)) => {
                if is_past(self.started, t, self.timeout_secs) {
                    Action::Finish(Err(KubeError::Timeout("Restore polling timed out".to_owned())))
                } else {
                    self.stage = RestoreStage::Sleeping;
                    Action::Sleep { secs: self.interval_secs }
                }
            },
            (RestoreStage::Sleeping, Event::Done) => {
                self.stage = RestoreStage::Polling;
                Action::Call { verb: Verb::Get, path: self.dest_path.clone(), body: None }
            },
            (RestoreStage::Polling, Event::Answer(Err(err))) => Action::Finish(Err(err)),
            (RestoreStage::Polling, Event::Answer(Ok(d))) => {
                let status = d.get("status");
                if text_is(get_of(status, "lastManualSync"), self.trigger.as_str()) {
                    let result = owned_text(get_of(get_of(status, "latestMoverStatus"), "result"));
                    let ok = match &result {
                        Some(r) => eq_ignore_ascii_case(r.as_str(), "successful"),
                        None => false,
                    };
                    if ok {
                        self.result = result;
                        self.stage = RestoreStage::Suspending;
                        self.release(true)
                    } else {
                        let m = join2("Restore failed with result: ", debug_option_text(&result).as_str());
                        Action::Finish(Err(KubeError::SnapshotFailed(m)))
                    }
                } else {
                    self.stage = RestoreStage::Checking;
                    Action::ReadClock
                }
            },
            (RestoreStage::Suspending, Event::Answer(Err(err))) => Action::Finish(Err(err)),
            (RestoreStage::Suspending, Event::Answer(Ok(_))) => {
                self.stage = RestoreStage::Listing;
                Action::Call { verb: Verb::Get, path: self.deployments_path.clone(), body: None }
            },
            (RestoreStage::Listing, Event::Answer(r)) => {
                self.deployments = deployment_names(&r);
                if self.deployments.len() == 0 {
                    self.stage = RestoreStage::Deleting;
                    self.delete_pvc()
                } else {
                    self.stage = RestoreStage::Reading(0);
                    Action::Call {
                        verb: Verb::Get,
                        path: deployment(self.ns.as_str(), self.deployments[0].as_str()),
                        body: None,
                    }
                }
            },
            (RestoreStage::Reading(i), Event::Answer(r)) => {
                let count = replicas(&r);
                let mut reps: Vec<i64> = Vec::new();
                std::mem::swap(&mut reps, &mut self.replicas);
                reps.push(count);
                self.replicas = reps;
                if i + 1 < n {
                    self.stage = RestoreStage::Reading(i + 1);
                    Action::Call {
                        verb: Verb::Get,
                        path: deployment(self.ns.as_str(), self.deployments[i + 1].as_str()),
                        body: None,
                    }
                } else {
                    self.stage = RestoreStage::Scaling(0);
                    self.scale(0, 0)
                }
            },
            (RestoreStage::Scaling(i), Event::Answer(_)) => {
                if i + 1 < n {
                    self.stage = RestoreStage::Scaling(i + 1);
                    self.scale(i + 1, 0)
                } else {
                    self.stage = RestoreStage::Deleting;
                    self.delete_pvc()
                }
            },
            (RestoreStage::Deleting, Event::Answer(Err(err))) => {
                let mut m = join2("Failed to delete PVC ", self.pvc_name.as_str());
                m.append(": ");
                m.append(err.message().as_str());
                let failure = KubeError::Api(m);
                if n > 0 {
                    let back = self.replicas[0];
                    self.stage = RestoreStage::RollingBack(0, failure);
                    self.scale(0, back)
                } else {
                    self.stage = RestoreStage::Releasing(failure);
                    self.release(false)
                }
            },
            (RestoreStage::Deleting, Event::Answer(Ok(_))) => {
                self.stage = RestoreStage::Unsuspending;
                self.release(false)
            },
            (RestoreStage::RollingBack(i, failure), Event::Answer(_)) => {
                if i + 1 < n {
                    let back = self.replicas[i + 1];
                    self.stage = RestoreStage::RollingBack(i + 1, failure);
                    self.scale(i + 1, back)
                } else {
                    self.stage = RestoreStage::Releasing(failure);
                    self.release(false)
                }
            },
            (RestoreStage::Releasing(failure), Event::Answer(_)) => Action::Finish(Err(failure)),
            (RestoreStage::Unsuspending, Event::Answer(Err(err))) => {
                let m = join2(
                    "Restore data is ready but the HelmRelease could not be unsuspended; unsuspend it manually to recreate the PVC: ",
                    err.message().as_str(),
                );
                Action::Finish(Err(KubeError::Api(m)))
            },
            (RestoreStage::Unsuspending, Event::Answer(Ok(_))) => {
                let result = match &self.result {
                    Some(r) => Some(r.clone()),
                    None => None,
                };
                Action::Finish(
                    Ok(RestoreResponse { trigger: self.trigger.clone(), status: "completed".to_owned(), result }),
                )
            },
            (stage, _) => {
                self.stage = stage;
                Action::ReadClock
            },
        }
    }

    /// Whether the restore waits for `event` now.
    pub fn expects(&self, event: &Event) -> (r: bool)
        ensures
            r == restore_expects(self@, event@),
    {
        match (&self.stage, event) {
            (RestoreStage::Start, Event::Go) => true,
            (RestoreStage::Starting, Event::Clock(_)) => true,
            (RestoreStage::Checking, Event::Clock(_)) => true,
            (RestoreStage::Sleeping, Event::Done) => true,
            (RestoreStage::Start, _) => false,
            (RestoreStage::Starting, _) => false,
            (RestoreStage::Checking, _) => false,
            (RestoreStage::Sleeping, _) => false,
            (RestoreStage::Done, _) => false,
            (_, Event::Answer(_)) => true,
            _ => false,
        }
    }
}

} // verus!
