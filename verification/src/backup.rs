//! A manual backup: ask VolSync for a sync of the ReplicationSource, wait
//! until it reports the outcome of that sync, then withdraw the request.
use crate::config::Settings;
use crate::error::{ErrorView, KubeError};
use crate::json::{field, field_of, get_of, items_of, owned_text, text_is, text_of, Json, JsonView};
use crate::models::BackupResponse;
use crate::paths::{source, source_path};
use crate::payloads::{clear_trigger_patch, clear_trigger_patch_spec, trigger_patch, trigger_patch_spec};
use crate::text::{contains, has_infix, join2, opt_text};
use crate::workflow::{is_past, past, secs_to_nanos, Action, ActionView, Event, EventView, Verb};
use vstd::prelude::*;

verus! {

/// The mathematical value of a `BackupResponse`.
pub struct BackupView {
    pub trigger: Seq<char>,
    pub status: Seq<char>,
    pub result: Option<Seq<char>>,
}

impl View for BackupResponse {
    type V = BackupView;

    open spec fn view(&self) -> BackupView {
        BackupView { trigger: self.trigger@, status: self.status@, result: opt_text(self.result) }
    }
}

/// Whether a status condition reports a failed backup: type `Ready`, status
/// `False`, and a reason that mentions `Error` or `Failed` or is
/// `BackupFailed`.
pub open spec fn is_failure(c: JsonView) -> bool {
    &&& text_of(field(c, "status"@)) == Some("False"@)
    &&& text_of(field(c, "type"@)) == Some("Ready"@)
    &&& match text_of(field(c, "reason"@)) {
        Some(r) => has_infix(r, "Error"@) || has_infix(r, "Failed"@) || r == "BackupFailed"@,
        None => false,
    }
}

/// The reason of the first condition that reports a failed backup.
pub open spec fn first_failure(cs: Seq<JsonView>) -> Option<Seq<char>>
    decreases cs.len(),
{
    if cs.len() == 0 {
        None
    } else if is_failure(cs[0]) {
        text_of(field(cs[0], "reason"@))
    } else {
        first_failure(cs.drop_first())
    }
}

/// What a poll of the ReplicationSource shows.
pub enum BackupPoll {
    /// The sync asked for with the trigger ran; this is the mover's result.
    Completed(String),
    /// A condition reports a failed backup, for this reason.
    Failed(String),
    /// Neither yet.
    Pending,
}

/// The mathematical value of a `BackupPoll`.
pub enum PollView {
    Completed(Seq<char>),
    Failed(Seq<char>),
    Pending,
}

impl View for BackupPoll {
    type V = PollView;

    open spec fn view(&self) -> PollView {
        match self {
            BackupPoll::Completed(r) => PollView::Completed(r@),
            BackupPoll::Failed(r) => PollView::Failed(r@),
            BackupPoll::Pending => PollView::Pending,
        }
    }
}

/// What a ReplicationSource shows about the sync asked for with `trigger`:
/// completed once `lastManualSync` equals the trigger and the mover reported
/// a result; otherwise failed when a condition reports a failure; otherwise
/// pending.
pub open spec fn backup_poll_spec(rs: JsonView, trigger: Seq<char>) -> PollView {
    let status = field(rs, "status"@);
    let result = text_of(field_of(field_of(status, "latestMoverStatus"@), "result"@));
    if text_of(field_of(status, "lastManualSync"@)) == Some(trigger) && result is Some {
        PollView::Completed(result->0)
    } else {
        match items_of(field_of(status, "conditions"@)) {
            Some(cs) => match first_failure(cs) {
                Some(r) => PollView::Failed(r),
                None => PollView::Pending,
            },
            None => PollView::Pending,
        }
    }
}

fn failure_reason(c: &Json) -> (r: Option<String>)
    ensures
        match r {
            Some(s) => is_failure(c@) && text_of(field(c@, "reason"@)) == Some(s@),
            None => !is_failure(c@),
        },
{
    if !(text_is(c.get("status"), "False") && text_is(c.get("type"), "Ready")) {
        return None;
    }
    match owned_text(c.get("reason")) {
        Some(reason) => {
            let s = reason.as_str();
            if contains(s, "Error") || contains(s, "Failed") || reason == "BackupFailed".to_owned() {
                Some(reason)
            } else {
                None
            }
        },
        None => None,
    }
}

/// Reads what a ReplicationSource shows about the sync asked for with `trigger`.
pub fn backup_poll(rs: &Json, trigger: &str) -> (r: BackupPoll)
    ensures
        r@ == backup_poll_spec(rs@, trigger@),
{
    let status = rs.get("status");
    if text_is(get_of(status, "lastManualSync"), trigger) {
        match owned_text(get_of(get_of(status, "latestMoverStatus"), "result")) {
            Some(result) => return BackupPoll::Completed(result),
            None => {},
        }
    }
    match get_of(status, "conditions") {
        Some(c) => match c.as_array() {
            Some(cs) => {
                let ghost cv = cs@.map_values(|x: Json| x@);
                let mut i: usize = 0;
                assert(cv.skip(0) =~= cv);
                while i < cs.len()
                    invariant
                        i <= cs.len(),
                        cv == cs@.map_values(|x: Json| x@),
                        first_failure(cv) == first_failure(cv.skip(i as int)),
                        backup_poll_spec(rs@, trigger@) == (match first_failure(cv) {
                            Some(r) => PollView::Failed(r),
                            None => PollView::Pending,
                        }),
                    decreases cs.len() - i,
                {
                    assert(cv.skip(i as int)[0] == cs@[i as int]@);
                    assert(cv.skip(i as int).drop_first() =~= cv.skip(i + 1));
                    match failure_reason(&cs[i]) {
                        Some(reason) => return BackupPoll::Failed(reason),
                        None => {},
                    }
                    i = i + 1;
                }
                BackupPoll::Pending
            },
            None => BackupPoll::Pending,
        },
        None => BackupPoll::Pending,
    }
}

/// Where a backup run stands.
pub enum BackupStage {
    Start,
    Patching,
    Starting,
    Checking,
    Sleeping,
    Polling,
    Clearing(Result<BackupResponse, KubeError>),
    Done,
}

/// The mathematical value of a `BackupStage`.
pub enum BackupStageView {
    Start,
    Patching,
    Starting,
    Checking,
    Sleeping,
    Polling,
    Clearing(Result<BackupView, ErrorView>),
    Done,
}

/// A backup of one application, driven step by step.
pub struct BackupRun {
    path: String,
    trigger: String,
    timeout_secs: u64,
    interval_secs: u64,
    started: u128,
    stage: BackupStage,
}

/// The mathematical value of a `BackupRun`.
pub struct BackupRunView {
    pub path: Seq<char>,
    pub trigger: Seq<char>,
    pub timeout_secs: u64,
    pub interval_secs: u64,
    pub started: u128,
    pub stage: BackupStageView,
}

impl View for BackupRun {
    type V = BackupRunView;

    closed spec fn view(&self) -> BackupRunView {
        BackupRunView {
            path: self.path@,
            trigger: self.trigger@,
            timeout_secs: self.timeout_secs,
            interval_secs: self.interval_secs,
            started: self.started,
            stage: match self.stage {
                BackupStage::Start => BackupStageView::Start,
                BackupStage::Patching => BackupStageView::Patching,
                BackupStage::Starting => BackupStageView::Starting,
                BackupStage::Checking => BackupStageView::Checking,
                BackupStage::Sleeping => BackupStageView::Sleeping,
                BackupStage::Polling => BackupStageView::Polling,
                BackupStage::Clearing(o) => BackupStageView::Clearing(
                    match o {
                        Ok(b) => Ok(b@),
                        Err(e) => Err(e@),
                    },
                ),
                BackupStage::Done => BackupStageView::Done,
            },
        }
    }
}

/// Which event a backup run waits for in each stage.
pub open spec fn backup_expects(s: BackupRunView, e: EventView) -> bool {
    match s.stage {
        BackupStageView::Start => e is Go,
        BackupStageView::Patching | BackupStageView::Polling | BackupStageView::Clearing(_) => e is Answer,
        BackupStageView::Starting | BackupStageView::Checking => e is Clock,
        BackupStageView::Sleeping => e is Done,
        BackupStageView::Done => false,
    }
}

/// The patch that withdraws the manual trigger, then the outcome.
pub open spec fn clearing(s: BackupRunView, outcome: Result<BackupView, ErrorView>) -> (BackupRunView, ActionView<BackupView>) {
    (
        BackupRunView { stage: BackupStageView::Clearing(outcome), ..s },
        ActionView::Call { verb: Verb::Patch, path: s.path, body: Some(clear_trigger_patch_spec()) },
    )
}

/// One step of a backup run: set the manual trigger; start the clock; then,
/// until the time is up, sleep, read the ReplicationSource and judge it;
/// withdraw the trigger before reporting completion, failure or time-out.
pub open spec fn backup_step(s: BackupRunView, e: EventView) -> (BackupRunView, ActionView<BackupView>) {
    match (s.stage, e) {
        (BackupStageView::Start, EventView::Go) => (
            BackupRunView { stage: BackupStageView::Patching, ..s },
            ActionView::Call { verb: Verb::Patch, path: s.path, body: Some(trigger_patch_spec(s.trigger)) },
        ),
        (BackupStageView::Patching, EventView::Answer(Err(err))) => (
            BackupRunView { stage: BackupStageView::Done, ..s },
            ActionView::Finish(Err(err)),
        ),
        (BackupStageView::Patching, EventView::Answer(Ok(_))) => (
            BackupRunView { stage: BackupStageView::Starting, ..s },
            ActionView::ReadClock,
        ),
        (BackupStageView::Starting, EventView::Clock(t)) => (
            BackupRunView { stage: BackupStageView::Checking, started: t, ..s },
            ActionView::ReadClock,
        ),
        (BackupStageView::Checking, EventView::Clock(t)) => if past(s.started, t, s.timeout_secs) {
            clearing(s, Err(ErrorView::Timeout("Backup polling timed out"@)))
        } else {
            (
                BackupRunView { stage: BackupStageView::Sleeping, ..s },
                ActionView::Sleep { secs: s.interval_secs },
            )
        },
        (BackupStageView::Sleeping, EventView::Done) => (
            BackupRunView { stage: BackupStageView::Polling, ..s },
            ActionView::Call { verb: Verb::Get, path: s.path, body: None },
        ),
        (BackupStageView::Polling, EventView::Answer(Err(err))) => (
            BackupRunView { stage: BackupStageView::Done, ..s },
            ActionView::Finish(Err(err)),
        ),
        (BackupStageView::Polling, EventView::Answer(Ok(rs))) => match backup_poll_spec(rs, s.trigger) {
            PollView::Completed(result) => clearing(
                s,
                Ok(BackupView { trigger: s.trigger, status: "completed"@, result: Some(result) }),
            ),
            PollView::Failed(reason) => clearing(
                s,
                Err(ErrorView::SnapshotFailed("Backup failed: "@ + reason)),
            ),
            PollView::Pending => (
                BackupRunView { stage: BackupStageView::Checking, ..s },
                ActionView::ReadClock,
            ),
        },
        (BackupStageView::Clearing(outcome), EventView::Answer(_)) => (
            BackupRunView { stage: BackupStageView::Done, ..s },
            ActionView::Finish(outcome),
        ),
        _ => (s, ActionView::ReadClock),
    }
}

impl BackupRun {
    /// A backup of application `app` in namespace `ns`, asked for with
    /// `trigger`, with the poll timeout and interval of `settings`.
    pub fn new(settings: &Settings, app: &str, ns: &str, trigger: &str) -> (r: BackupRun)
        ensures
            r@ == (BackupRunView {
                path: source_path(settings.api_group@, ns@, app@),
                trigger: trigger@,
                timeout_secs: settings.poll_timeout_secs,
                interval_secs: settings.poll_interval_secs,
                started: 0,
                stage: BackupStageView::Start,
            }),
    {
        BackupRun {
            path: source(settings.api_group.as_str(), ns, app),
            trigger: trigger.to_owned(),
            timeout_secs: settings.poll_timeout_secs,
            interval_secs: settings.poll_interval_secs,
            started: 0,
            stage: BackupStage::Start,
        }
    }

    /// Whether the run waits for `event` now.
    pub fn expects(&self, event: &Event) -> (r: bool)
        ensures
            r == backup_expects(self@, event@),
    {
        match (&self.stage, event) {
            (BackupStage::Start, Event::Go) => true,
            (BackupStage::Patching, Event::Answer(_)) => true,
            (BackupStage::Polling, Event::Answer(_)) => true,
            (BackupStage::Clearing(_), Event::Answer(_)) => true,
            (BackupStage::Starting, Event::Clock(_)) => true,
            (BackupStage::Checking, Event::Clock(_)) => true,
            (BackupStage::Sleeping, Event::Done) => true,
            _ => false,
        }
    }

    fn clear(&mut self, outcome: Result<BackupResponse, KubeError>) -> (a: Action<BackupResponse>)
        ensures
            (final(self)@, a@) == clearing(old(self)@, match outcome {
                Ok(b) => Ok(b@),
                Err(e) => Err(e@),
            }),
    {
        self.stage = BackupStage::Clearing(outcome);
        Action::Call { verb: Verb::Patch, path: self.path.clone(), body: Some(clear_trigger_patch()) }
    }

    /// Hands the run what came of its last action and gets the next one.
    pub fn step(&mut self, event: Event) -> (a: Action<BackupResponse>)
        requires
            backup_expects(old(self)@, event@),
        ensures
            (final(self)@, a@) == backup_step(old(self)@, event@),
    {
        let mut stage = BackupStage::Done;
        std::mem::swap(&mut stage, &mut self.stage);
        match (stage, event) {
            (BackupStage::Start, Event::Go) => {
                self.stage = BackupStage::Patching;
                Action::Call {
                    verb: Verb::Patch,
                    path: self.path.clone(),
                    body: Some(trigger_patch(self.trigger.as_str())),
                }
            },
            (BackupStage::Patching, Event::Answer(Err(err))) => {
                self.stage = BackupStage::Done;
                Action::Finish(Err(err))
            },
            (BackupStage::Patching, Event::Answer(Ok(_))) => {
                self.stage = BackupStage::Starting;
                Action::ReadClock
            },
            (BackupStage::Starting, Event::Clock(t)) => {
                self.started = t;
                self.stage = BackupStage::Checking;
                Action::ReadClock
            },
            (BackupStage::Checking, Event::Clock(t)) => {
                if is_past(self.started, t, self.timeout_secs) {
                    self.stage = BackupStage::Checking;
                    self.clear(Err(KubeError::Timeout("Backup polling timed out".to_owned())))
                } else {
                    self.stage = BackupStage::Sleeping;
                    Action::Sleep { secs: self.interval_secs }
                }
            },
            (BackupStage::Sleeping, Event::Done) => {
                self.stage = BackupStage::Polling;
                Action::Call { verb: Verb::Get, path: self.path.clone(), body: None }
            },
            (BackupStage::Polling, Event::Answer(Err(err))) => {
                self.stage = BackupStage::Done;
                Action::Finish(Err(err))
            },
            (BackupStage::Polling, Event::Answer(Ok(rs))) => {
                self.stage = BackupStage::Polling;
                match backup_poll(&rs, self.trigger.as_str()) {
                    BackupPoll::Completed(result) => {
                        let resp = BackupResponse {
                            trigger: self.trigger.clone(),
                            status: "completed".to_owned(),
                            result: Some(result),
                        };
                        self.clear(Ok(resp))
                    },
                    BackupPoll::Failed(reason) => {
                        self.clear(Err(KubeError::SnapshotFailed(join2("Backup failed: ", reason.as_str()))))
                    },
                    BackupPoll::Pending => {
                        self.stage = BackupStage::Checking;
                        Action::ReadClock
                    },
                }
            },
            (BackupStage::Clearing(outcome), Event::Answer(_)) => {
                self.stage = BackupStage::Done;
                Action::Finish(outcome)
            },
            (stage, _) => {
                self.stage = stage;
                Action::ReadClock
            },
        }
    }
}

/// Once the manual trigger is set, every way a run ends but a failed read
/// of the ReplicationSource goes through withdrawing the trigger: a run
/// never reports completion, failure or time-out straight from polling.
pub proof fn law_trigger_withdrawn(s: BackupRunView, e: EventView)
    requires
        s.stage is Checking || s.stage is Polling,
        backup_expects(s, e),
        backup_step(s, e).1 is Finish,
    ensures
        s.stage is Polling,
        e matches EventView::Answer(r) && r is Err,
{
}

/// A run reports completion only for the sync its own trigger asked for,
/// with the mover's result.
pub proof fn law_completion_matches_trigger(s: BackupRunView, rs: JsonView)
    requires
        s.stage is Polling,
        backup_poll_spec(rs, s.trigger) is Completed,
    ensures
        text_of(field_of(field(rs, "status"@), "lastManualSync"@)) == Some(s.trigger),
        backup_step(s, EventView::Answer(Ok(rs))).0.stage == BackupStageView::Clearing(
            Ok(
                BackupView {
                    trigger: s.trigger,
                    status: "completed"@,
                    result: text_of(field_of(field_of(field(rs, "status"@), "latestMoverStatus"@), "result"@)),
                },
            ),
        ),
{
}

/// A backup gives up only once its poll timeout, not its poll interval, has
/// passed since it started: a clock reading while checking withdraws the
/// trigger and records a time-out exactly when more than `timeout_secs`
/// seconds have passed; before that the run sleeps for `interval_secs`.
pub proof fn law_timeout_after_poll_timeout(s: BackupRunView, t: u128)
    requires
        s.stage is Checking,
    ensures
        (t > s.started && t - s.started > s.timeout_secs * 1_000_000_000) ==> backup_step(
            s,
            EventView::Clock(t),
        ) == (
            BackupRunView {
                stage: BackupStageView::Clearing(Err(ErrorView::Timeout("Backup polling timed out"@))),
                ..s
            },
            ActionView::<BackupView>::Call {
                verb: Verb::Patch,
                path: s.path,
                body: Some(clear_trigger_patch_spec()),
            },
        ),
        !(t > s.started && t - s.started > s.timeout_secs * 1_000_000_000) ==> backup_step(
            s,
            EventView::Clock(t),
        ) == (
            BackupRunView { stage: BackupStageView::Sleeping, ..s },
            ActionView::<BackupView>::Sleep { secs: s.interval_secs },
        ),
{
    assert(s.timeout_secs * 1_000_000_000 <= 18_446_744_073_709_551_615 * 1_000_000_000);
    assert(secs_to_nanos(s.timeout_secs) == s.timeout_secs * 1_000_000_000);
}

} // verus!
