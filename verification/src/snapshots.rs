//! Listing an application's restic snapshots: a short-lived Pod runs
//! `restic snapshots --json` against the application's repository, and its
//! log is read back into snapshot records.
use crate::config::Settings;
use crate::error::{ErrorView, KubeError};
use crate::inventory::{repository, repository_spec};
use crate::json::{field, field_of, lookup, get_of, int_of, items_of, opt_json, opt_ref, parse_json, parsed_json, owned_text, text_is, text_of, Json, JsonView};
use crate::models::{texts, Snapshot, SnapshotView};
use crate::paths::{pod, pod_log, pod_log_path, pod_path, pods, pods_path, source, source_path};
use crate::payloads::{snapshot_pod, snapshot_pod_spec};
use crate::stamps::{snapshot_pod_name, snapshot_pod_name_spec};
use crate::text::{blank, is_blank, join2, lines, lines_spec};
use crate::workflow::{is_past, past, secs_to_nanos, Action, ActionView, Event, EventView, Verb};
use vstd::prelude::*;
use vstd::string::*;

verus! {

/// A text field of a snapshot; empty when missing.
pub open spec fn text_or_empty(o: Option<JsonView>) -> Seq<char> {
    match text_of(o) {
        Some(t) => t,
        None => Seq::empty(),
    }
}

/// The strings of an optional array, in order; other elements are left out.
pub open spec fn strings_in(o: Option<JsonView>) -> Seq<Seq<char>> {
    match items_of(o) {
        Some(vs) => vs.filter_map(|v: JsonView| text_of(Some(v))),
        None => seq![],
    }
}

/// A counter of the snapshot summary; 0 when missing.
pub open spec fn count_or_zero(summary: Option<JsonView>, key: Seq<char>) -> i64 {
    match int_of(field_of(summary, key)) {
        Some(n) => n,
        None => 0,
    }
}

/// The snapshot a JSON object of `restic snapshots --json` describes; one
/// needs a non-empty string `id`.
pub open spec fn snapshot_of(j: JsonView) -> Option<SnapshotView> {
    let summary = field(j, "summary"@);
    match text_of(field(j, "id"@)) {
        Some(id) => if id.len() > 0 {
            Some(
                SnapshotView {
                    id,
                    short_id: text_or_empty(field(j, "short_id"@)),
                    time: text_or_empty(field(j, "time"@)),
                    tags: strings_in(field(j, "tags"@)),
                    paths: strings_in(field(j, "paths"@)),
                    hostname: text_or_empty(field(j, "hostname"@)),
                    files_new: count_or_zero(summary, "files_new"@),
                    files_changed: count_or_zero(summary, "files_changed"@),
                    files_unmodified: count_or_zero(summary, "files_unmodified"@),
                    data_added: count_or_zero(summary, "data_added"@),
                    total_files_processed: count_or_zero(summary, "total_files_processed"@),
                    total_bytes_processed: count_or_zero(summary, "total_bytes_processed"@),
                },
            )
        } else {
            None
        },
        None => None,
    }
}

/// The snapshot one log line describes: none for a blank line or a line
/// that is not JSON.
pub open spec fn line_snapshot(line: Seq<char>) -> Option<SnapshotView> {
    if is_blank(line) {
        None
    } else {
        match parsed_json(line) {
            Some(j) => snapshot_of(j),
            None => None,
        }
    }
}

/// The snapshots of a restic log whose whole text parsed as `whole`: the
/// objects of that JSON array when it is one, or else the objects on the
/// log's lines, one JSON document per line.
pub open spec fn snapshots_in(logs: Seq<char>, whole: Option<JsonView>) -> Seq<SnapshotView> {
    match whole {
        Some(JsonView::Array(items)) => items.filter_map(|j: JsonView| snapshot_of(j)),
        _ => lines_spec(logs).filter_map(|l: Seq<char>| line_snapshot(l)),
    }
}

/// The snapshots a restic log lists: the objects of the JSON array it holds,
/// or else the objects on its lines, one JSON document per line.
pub open spec fn parse_snapshots_spec(logs: Seq<char>) -> Seq<SnapshotView> {
    snapshots_in(logs, parsed_json(logs))
}

/// The views of a sequence of snapshots.
pub open spec fn snapshot_views(v: Seq<Snapshot>) -> Seq<SnapshotView> {
    v.map_values(|s: Snapshot| s@)
}

fn text_or_empty_exec(o: Option<&Json>) -> (r: String)
    ensures
        r@ == text_or_empty(opt_ref(o)),
{
    match owned_text(o) {
        Some(t) => t,
        None => String::new(),
    }
}

fn strings_in_exec(o: Option<&Json>) -> (r: Vec<String>)
    ensures
        texts(r@) == strings_in(opt_ref(o)),
{
    let mut out: Vec<String> = Vec::new();
    match o {
        Some(j) => match j.as_array() {
            Some(vs) => {
                let ghost vv = vs@.map_values(|x: Json| x@);
                let mut i: usize = 0;
                while i < vs.len()
                    invariant
                        i <= vs.len(),
                        vv == vs@.map_values(|x: Json| x@),
                        texts(out@) == vv.take(i as int).filter_map(|v: JsonView| text_of(Some(v))),
                    decreases vs.len() - i,
                {
                    let ghost before = texts(out@);
                    assert(vv.take(i + 1).drop_last() =~= vv.take(i as int));
                    assert(vv.take(i + 1).last() == vs@[i as int]@);
                    match vs[i].as_str() {
                        Some(s) => {
                            out.push(s.clone());
                            assert(texts(out@) =~= before.push(s@));
                            assert(vv.take(i + 1).filter_map(|v: JsonView| text_of(Some(v))) =~= before + seq![s@]);
                        },
                        None => {
                            assert(texts(out@) =~= before);
                            assert(vv.take(i + 1).filter_map(|v: JsonView| text_of(Some(v))) =~= before);
                        },
                    }
                    i = i + 1;
                }
                assert(vv.take(vs.len() as int) =~= vv);
                out
            },
            None => {
                assert(texts(out@) =~= seq![]);
                out
            },
        },
        None => {
            assert(texts(out@) =~= seq![]);
            out
        },
    }
}

fn count_exec(summary: Option<&Json>, key: &str) -> (r: i64)
    ensures
        r == count_or_zero(opt_ref(summary), key@),
{
    match get_of(summary, key) {
        Some(n) => match n.as_i64() {
            Some(x) => x,
            None => 0,
        },
        None => 0,
    }
}

/// Reads the snapshot a JSON object describes.
pub fn snapshot_from_json(j: &Json) -> (r: Option<Snapshot>)
    ensures
        match r {
            Some(s) => snapshot_of(j@) == Some(s@),
            None => snapshot_of(j@) is None,
        },
{
    let id = match owned_text(j.get("id")) {
        Some(id) => id,
        None => return None,
    };
    if id.as_str().is_empty() {
        return None;
    }
    let summary = j.get("summary");
    Some(
        Snapshot {
            id,
            short_id: text_or_empty_exec(j.get("short_id")),
            time: text_or_empty_exec(j.get("time")),
            tags: strings_in_exec(j.get("tags")),
            paths: strings_in_exec(j.get("paths")),
            hostname: text_or_empty_exec(j.get("hostname")),
            files_new: count_exec(summary, "files_new"),
            files_changed: count_exec(summary, "files_changed"),
            files_unmodified: count_exec(summary, "files_unmodified"),
            data_added: count_exec(summary, "data_added"),
            total_files_processed: count_exec(summary, "total_files_processed"),
            total_bytes_processed: count_exec(summary, "total_bytes_processed"),
        },
    )
}

/// Reads the snapshots of a restic log.
pub fn parse_snapshots(logs: &str) -> (r: Vec<Snapshot>)
    ensures
        snapshot_views(r@) == parse_snapshots_spec(logs@),
{
    snapshots_from_log(logs, parse_json(logs))
}

/// Reads the snapshots of a restic log whose whole text parsed as `whole`
/// (`None` when it is not one JSON document): a JSON array lists them;
/// otherwise each line of the log holds one.
pub fn snapshots_from_log(logs: &str, whole: Option<Json>) -> (r: Vec<Snapshot>)
    ensures
        snapshot_views(r@) == snapshots_in(logs@, opt_json(whole)),
{
    let ghost w = opt_json(whole);
    let mut out: Vec<Snapshot> = Vec::new();
    match whole {
        Some(Json::Array(items)) => {
            let ghost iv = items@.map_values(|x: Json| x@);
            assert(Json::Array(items)@ == JsonView::Array(iv)) by {
                assert(Json::Array(items)@->Array_0 =~= iv);
            }
            let mut i: usize = 0;
            while i < items.len()
                invariant
                    i <= items.len(),
                    iv == items@.map_values(|x: Json| x@),
                    w == Some(JsonView::Array(iv)),
                    snapshot_views(out@) == iv.take(i as int).filter_map(|j: JsonView| snapshot_of(j)),
                decreases items.len() - i,
            {
                let ghost before = snapshot_views(out@);
                assert(iv.take(i + 1).drop_last() =~= iv.take(i as int));
                assert(iv.take(i + 1).last() == items@[i as int]@);
                match snapshot_from_json(&items[i]) {
                    Some(s) => {
                        out.push(s);
                        assert(snapshot_views(out@) =~= before.push(s@));
                        assert(iv.take(i + 1).filter_map(|j: JsonView| snapshot_of(j)) =~= before + seq![s@]);
                    },
                    None => {
                        assert(snapshot_views(out@) =~= before);
                        assert(iv.take(i + 1).filter_map(|j: JsonView| snapshot_of(j)) =~= before);
                    },
                }
                i = i + 1;
            }
            assert(iv.take(items.len() as int) =~= iv);
            out
        },
        other => {
            proof {
                match other {
                    Some(j) => {
                        assert(!(j@ is Array));
                    },
                    None => {},
                }
            }
            let ls = lines(logs);
            let ghost lv = ls@.map_values(|l: String| l@);
            let mut i: usize = 0;
            while i < ls.len()
                invariant
                    i <= ls.len(),
                    lv == ls@.map_values(|l: String| l@),
                    lv == lines_spec(logs@),
                    snapshot_views(out@) == lv.take(i as int).filter_map(|l: Seq<char>| line_snapshot(l)),
                decreases ls.len() - i,
            {
                let ghost before = snapshot_views(out@);
                assert(lv.take(i + 1).drop_last() =~= lv.take(i as int));
                assert(lv.take(i + 1).last() == ls@[i as int]@);
                let line = ls[i].as_str();
                let found = if blank(line) {
                    None
                } else {
                    match parse_json(line) {
                        Some(j) => snapshot_from_json(&j),
                        None => None,
                    }
                };
                match found {
                    Some(s) => {
                        out.push(s);
                        assert(snapshot_views(out@) =~= before.push(s@));
                        assert(lv.take(i + 1).filter_map(|l: Seq<char>| line_snapshot(l)) =~= before + seq![s@]);
                    },
                    None => {
                        assert(snapshot_views(out@) =~= before);
                        assert(lv.take(i + 1).filter_map(|l: Seq<char>| line_snapshot(l)) =~= before);
                    },
                }
                i = i + 1;
            }
            assert(lv.take(ls.len() as int) =~= lv);
            out
        },
    }
}

/// The snapshots a listing found.
pub struct SnapshotList {
    pub items: Vec<Snapshot>,
}

impl View for SnapshotList {
    type V = Seq<SnapshotView>;

    open spec fn view(&self) -> Seq<SnapshotView> {
        snapshot_views(self.items@)
    }
}

/// Where a snapshot listing stands.
pub enum ListingStage {
    Start,
    ReadingSource,
    Creating,
    Starting,
    Checking,
    Sleeping,
    Watching,
    Fetching,
    Cleaning(Result<SnapshotList, KubeError>),
    Done,
}

/// The mathematical value of a `ListingStage`.
pub enum ListingStageView {
    Start,
    ReadingSource,
    Creating,
    Starting,
    Checking,
    Sleeping,
    Watching,
    Fetching,
    Cleaning(Result<Seq<SnapshotView>, ErrorView>),
    Done,
}

/// A listing of one application's snapshots, driven step by step.
pub struct SnapshotListing {
    app: String,
    ns: String,
    source_path: String,
    pod_name: String,
    image: String,
    startup_timeout_secs: u64,
    interval_secs: u64,
    started: u128,
    stage: ListingStage,
}

/// The mathematical value of a `SnapshotListing`.
pub struct ListingView {
    pub app: Seq<char>,
    pub ns: Seq<char>,
    pub source_path: Seq<char>,
    pub pod_name: Seq<char>,
    pub image: Seq<char>,
    pub startup_timeout_secs: u64,
    pub interval_secs: u64,
    pub started: u128,
    pub stage: ListingStageView,
}

impl View for SnapshotListing {
    type V = ListingView;

    closed spec fn view(&self) -> ListingView {
        ListingView {
            app: self.app@,
            ns: self.ns@,
            source_path: self.source_path@,
            pod_name: self.pod_name@,
            image: self.image@,
            startup_timeout_secs: self.startup_timeout_secs,
            interval_secs: self.interval_secs,
            started: self.started,
            stage: match self.stage {
                ListingStage::Start => ListingStageView::Start,
                ListingStage::ReadingSource => ListingStageView::ReadingSource,
                ListingStage::Creating => ListingStageView::Creating,
                ListingStage::Starting => ListingStageView::Starting,
                ListingStage::Checking => ListingStageView::Checking,
                ListingStage::Sleeping => ListingStageView::Sleeping,
                ListingStage::Watching => ListingStageView::Watching,
                ListingStage::Fetching => ListingStageView::Fetching,
                ListingStage::Cleaning(o) => ListingStageView::Cleaning(
                    match o {
                        Ok(v) => Ok(v@),
                        Err(e) => Err(e@),
                    },
                ),
                ListingStage::Done => ListingStageView::Done,
            },
        }
    }
}

/// Which event a listing waits for in each stage.
pub open spec fn listing_expects(s: ListingView, e: EventView) -> bool {
    match s.stage {
        ListingStageView::Start => e is Go,
        ListingStageView::ReadingSource | ListingStageView::Creating | ListingStageView::Watching => e is Answer,
        ListingStageView::Starting | ListingStageView::Checking => e is Clock,
        ListingStageView::Sleeping | ListingStageView::Cleaning(_) => e is Done,
        ListingStageView::Fetching => e is Text,
        ListingStageView::Done => false,
    }
}

/// Deleting the Pod, then the outcome.
pub open spec fn cleaning(s: ListingView, outcome: Result<Seq<SnapshotView>, ErrorView>) -> (ListingView, ActionView<Seq<SnapshotView>>) {
    (
        ListingView { stage: ListingStageView::Cleaning(outcome), ..s },
        ActionView::Discard { path: pod_path(s.ns, s.pod_name) },
    )
}

/// The phase a Pod answer reports.
pub open spec fn pod_phase(p: JsonView) -> Option<Seq<char>> {
    text_of(field_of(field(p, "status"@), "phase"@))
}

/// One step of a snapshot listing: read the ReplicationSource for the
/// repository secret; create the Pod; until the start-up time is up, sleep
/// and read the Pod's phase; once it succeeded, read its log; delete the
/// Pod before reporting anything once it was created.
pub open spec fn listing_step(s: ListingView, e: EventView) -> (ListingView, ActionView<Seq<SnapshotView>>) {
    match (s.stage, e) {
        (ListingStageView::Start, EventView::Go) => (
            ListingView { stage: ListingStageView::ReadingSource, ..s },
            ActionView::Call { verb: Verb::Get, path: s.source_path, body: None },
        ),
        (ListingStageView::ReadingSource, EventView::Answer(Err(err))) => (
            ListingView { stage: ListingStageView::Done, ..s },
            ActionView::Finish(Err(err)),
        ),
        (ListingStageView::ReadingSource, EventView::Answer(Ok(rs))) => match repository_spec(rs) {
            Some(secret) => (
                ListingView { stage: ListingStageView::Creating, ..s },
                ActionView::Call {
                    verb: Verb::Post,
                    path: pods_path(s.ns),
                    body: Some(snapshot_pod_spec(s.pod_name, s.ns, s.image, secret)),
                },
            ),
            None => (
                ListingView { stage: ListingStageView::Done, ..s },
                ActionView::Finish(
                    Err(
                        ErrorView::Api(
                            "spec.restic.repository not found in ReplicationSource "@ + s.ns + "/"@
                                + s.app,
                        ),
                    ),
                ),
            ),
        },
        (ListingStageView::Creating, EventView::Answer(Err(err))) => (
            ListingView { stage: ListingStageView::Done, ..s },
            ActionView::Finish(Err(err)),
        ),
        (ListingStageView::Creating, EventView::Answer(Ok(_))) => (
            ListingView { stage: ListingStageView::Starting, ..s },
            ActionView::ReadClock,
        ),
        (ListingStageView::Starting, EventView::Clock(t)) => (
            ListingView { stage: ListingStageView::Checking, started: t, ..s },
            ActionView::ReadClock,
        ),
        (ListingStageView::Checking, EventView::Clock(t)) => if past(s.started, t, s.startup_timeout_secs) {
            cleaning(s, Err(ErrorView::Timeout("Pod startup timed out"@)))
        } else {
            (
                ListingView { stage: ListingStageView::Sleeping, ..s },
                ActionView::Sleep { secs: s.interval_secs },
            )
        },
        (ListingStageView::Sleeping, EventView::Done) => (
            ListingView { stage: ListingStageView::Watching, ..s },
            ActionView::Call { verb: Verb::Get, path: pod_path(s.ns, s.pod_name), body: None },
        ),
        (ListingStageView::Watching, EventView::Answer(Ok(p))) => if pod_phase(p) == Some("Succeeded"@) {
            (
                ListingView { stage: ListingStageView::Fetching, ..s },
                ActionView::Fetch { path: pod_log_path(s.ns, s.pod_name) },
            )
        } else if pod_phase(p) == Some("Failed"@) {
            cleaning(s, Err(ErrorView::SnapshotFailed("Pod failed"@)))
        } else {
            (ListingView { stage: ListingStageView::Checking, ..s }, ActionView::ReadClock)
        },
        (ListingStageView::Watching, EventView::Answer(Err(_))) => (
            ListingView { stage: ListingStageView::Checking, ..s },
            ActionView::ReadClock,
        ),
        (ListingStageView::Fetching, EventView::Text(Err(err))) => cleaning(s, Err(err)),
        (ListingStageView::Fetching, EventView::Text(Ok(logs))) => cleaning(s, Ok(parse_snapshots_spec(logs))),
        (ListingStageView::Cleaning(outcome), EventView::Done) => (
            ListingView { stage: ListingStageView::Done, ..s },
            ActionView::Finish(outcome),
        ),
        _ => (s, ActionView::ReadClock),
    }
}

/// The view of a listing's outcome.
pub open spec fn listing_outcome(o: Result<SnapshotList, KubeError>) -> Result<Seq<SnapshotView>, ErrorView> {
    match o {
        Ok(v) => Ok(v@),
        Err(e) => Err(e@),
    }
}

impl SnapshotListing {
    /// A listing of the snapshots of application `app` in namespace `ns`,
    /// with a Pod named after the clock reading `nanos` (nanoseconds since
    /// the Unix epoch, `None` before it).
    pub fn new(settings: &Settings, app: &str, ns: &str, nanos: Option<u128>) -> (r: SnapshotListing)
        ensures
            r@ == (ListingView {
                app: app@,
                ns: ns@,
                source_path: source_path(settings.api_group@, ns@, app@),
                pod_name: snapshot_pod_name_spec(app@, nanos),
                image: settings.restic_image@,
                startup_timeout_secs: settings.pod_startup_timeout_secs,
                interval_secs: settings.poll_interval_secs,
                started: 0,
                stage: ListingStageView::Start,
            }),
    {
        SnapshotListing {
            app: app.to_owned(),
            ns: ns.to_owned(),
            source_path: source(settings.api_group.as_str(), ns, app),
            pod_name: snapshot_pod_name(app, nanos),
            image: settings.restic_image.clone(),
            startup_timeout_secs: settings.pod_startup_timeout_secs,
            interval_secs: settings.poll_interval_secs,
            started: 0,
            stage: ListingStage::Start,
        }
    }

    /// Whether the listing waits for `event` now.
    pub fn expects(&self, event: &Event) -> (r: bool)
        ensures
            r == listing_expects(self@, event@),
    {
        match (&self.stage, event) {
            (ListingStage::Start, Event::Go) => true,
            (ListingStage::ReadingSource, Event::Answer(_)) => true,
            (ListingStage::Creating, Event::Answer(_)) => true,
            (ListingStage::Watching, Event::Answer(_)) => true,
            (ListingStage::Starting, Event::Clock(_)) => true,
            (ListingStage::Checking, Event::Clock(_)) => true,
            (ListingStage::Sleeping, Event::Done) => true,
            (ListingStage::Cleaning(_), Event::Done) => true,
            (ListingStage::Fetching, Event::Text(_)) => true,
            _ => false,
        }
    }

    fn clean(&mut self, outcome: Result<SnapshotList, KubeError>) -> (a: Action<SnapshotList>)
        ensures
            (final(self)@, a@) == cleaning(old(self)@, listing_outcome(outcome)),
    {
        self.stage = ListingStage::Cleaning(outcome);
        Action::Discard { path: pod(self.ns.as_str(), self.pod_name.as_str()) }
    }

    /// Hands the listing what came of its last action and gets the next one.
    pub fn step(&mut self, event: Event) -> (a: Action<SnapshotList>)
        requires
            listing_expects(old(self)@, event@),
        ensures
            (final(self)@, a@) == listing_step(old(self)@, event@),
    {
        let mut stage = ListingStage::Done;
        std::mem::swap(&mut stage, &mut self.stage);
        match (stage, event) {
            (ListingStage::Start, Event::Go) => {
                self.stage = ListingStage::ReadingSource;
                Action::Call { verb: Verb::Get, path: self.source_path.clone(), body: None }
            },
            (ListingStage::ReadingSource, Event::Answer(Err(err))) => {
                self.stage = ListingStage::Done;
                Action::Finish(Err(err))
            },
            (ListingStage::ReadingSource, Event::Answer(Ok(rs))) => match repository(&rs) {
                Some(secret) => {
                    self.stage = ListingStage::Creating;
                    Action::Call {
                        verb: Verb::Post,
                        path: pods(self.ns.as_str()),
                        body: Some(
                            snapshot_pod(
                                self.pod_name.as_str(),
                                self.ns.as_str(),
                                self.image.as_str(),
                                secret.as_str(),
                            ),
                        ),
                    }
                },
                None => {
                    self.stage = ListingStage::Done;
                    let mut m = "spec.restic.repository not found in ReplicationSource ".to_owned();
                    m.append(self.ns.as_str());
                    m.append("/");
                    m.append(self.app.as_str());
                    Action::Finish(Err(KubeError::Api(m)))
                },
            },
            (ListingStage::Creating, Event::Answer(Err(err))) => {
                self.stage = ListingStage::Done;
                Action::Finish(Err(err))
            },
            (ListingStage::Creating, Event::Answer(Ok(_))) => {
                self.stage = ListingStage::Starting;
                Action::ReadClock
            },
            (ListingStage::Starting, Event::Clock(t)) => {
                self.started = t;
                self.stage = ListingStage::Checking;
                Action::ReadClock
            },
            (ListingStage::Checking, Event::Clock(t)) => {
                self.stage = ListingStage::Checking;
                if is_past(self.started, t, self.startup_timeout_secs) {
                    self.clean(Err(KubeError::Timeout("Pod startup timed out".to_owned())))
                } else {
                    self.stage = ListingStage::Sleeping;
                    Action::Sleep { secs: self.interval_secs }
                }
            },
            (ListingStage::Sleeping, Event::Done) => {
                self.stage = ListingStage::Watching;
                Action::Call { verb: Verb::Get, path: pod(self.ns.as_str(), self.pod_name.as_str()), body: None }
            },
            (ListingStage::Watching, Event::Answer(Ok(p))) => {
                self.stage = ListingStage::Watching;
                let phase = get_of(p.get("status"), "phase");
                if text_is(phase, "Succeeded") {
                    self.stage = ListingStage::Fetching;
                    Action::Fetch { path: pod_log(self.ns.as_str(), self.pod_name.as_str()) }
                } else if text_is(phase, "Failed") {
                    self.clean(Err(KubeError::SnapshotFailed("Pod failed".to_owned())))
                } else {
                    self.stage = ListingStage::Checking;
                    Action::ReadClock
                }
            },
            (ListingStage::Watching, Event::Answer(Err(_))) => {
                self.stage = ListingStage::Checking;
                Action::ReadClock
            },
            (ListingStage::Fetching, Event::Text(Err(err))) => {
                self.stage = ListingStage::Fetching;
                self.clean(Err(err))
            },
            (ListingStage::Fetching, Event::Text(Ok(logs))) => {
                self.stage = ListingStage::Fetching;
                let found = parse_snapshots(logs.as_str());
                self.clean(Ok(SnapshotList { items: found }))
            },
            (ListingStage::Cleaning(outcome), Event::Done) => {
                self.stage = ListingStage::Done;
                Action::Finish(outcome)
            },
            (stage, _) => {
                self.stage = stage;
                Action::ReadClock
            },
        }
    }
}

/// Once the Pod was created, the listing never reports its outcome without
/// deleting the Pod first: from the stages that follow its creation, no
/// step finishes, and entering the cleaning stage deletes that Pod.
pub proof fn law_pod_always_deleted(s: ListingView, e: EventView)
    requires
        s.stage is Starting || s.stage is Checking || s.stage is Sleeping || s.stage is Watching
            || s.stage is Fetching,
        listing_expects(s, e),
    ensures
        !(listing_step(s, e).1 is Finish),
        listing_step(s, e).0.stage is Cleaning ==> listing_step(s, e).1 == (ActionView::<
            Seq<SnapshotView>,
        >::Discard { path: pod_path(s.ns, s.pod_name) }),
{
}

/// The state and the actions of a listing after a sequence of events.
pub open spec fn listing_run(s: ListingView, events: Seq<EventView>) -> (ListingView, Seq<ActionView<Seq<SnapshotView>>>)
    decreases events.len(),
{
    if events.len() == 0 {
        (s, seq![])
    } else {
        let (s1, a) = listing_step(s, events[0]);
        let (s2, rest) = listing_run(s1, events.drop_first());
        (s2, seq![a] + rest)
    }
}

/// How many of the actions delete the Pod.
pub open spec fn discards(actions: Seq<ActionView<Seq<SnapshotView>>>) -> nat
    decreases actions.len(),
{
    if actions.len() == 0 {
        0
    } else {
        (if actions[0] is Discard {
            1nat
        } else {
            0nat
        }) + discards(actions.drop_first())
    }
}

/// The stages in which the Pod exists and has not been deleted.
pub open spec fn pod_created(stage: ListingStageView) -> bool {
    stage is Starting || stage is Checking || stage is Sleeping || stage is Watching || stage is Fetching
}

/// The stages after the Pod was deleted.
pub open spec fn pod_gone(stage: ListingStageView) -> bool {
    stage is Cleaning || stage is Done
}

proof fn lemma_discards_at_most(s: ListingView, events: Seq<EventView>)
    ensures
        discards(listing_run(s, events).1) <= (if pod_gone(s.stage) {
            0nat
        } else {
            1nat
        }),
    decreases events.len(),
{
    if events.len() > 0 {
        let (s1, a) = listing_step(s, events[0]);
        let rest = listing_run(s1, events.drop_first()).1;
        lemma_discards_at_most(s1, events.drop_first());
        let acts = listing_run(s, events).1;
        assert(acts == seq![a] + rest);
        assert(acts.drop_first() =~= rest);
        assert(a is Discard ==> s1.stage is Cleaning);
        assert(pod_gone(s.stage) ==> pod_gone(s1.stage) && !(a is Discard));
    }
}

proof fn lemma_discards_once(s: ListingView, events: Seq<EventView>, i: int)
    requires
        pod_created(s.stage),
        0 <= i < listing_run(s, events).1.len(),
        listing_run(s, events).1[i] is Finish,
    ensures
        discards(listing_run(s, events).1) == 1,
    decreases events.len(),
{
    let (s1, a) = listing_step(s, events[0]);
    let rest = listing_run(s1, events.drop_first()).1;
    let acts = listing_run(s, events).1;
    assert(acts == seq![a] + rest);
    assert(acts.drop_first() =~= rest);
    assert(!(a is Finish));
    if a is Discard {
        lemma_discards_at_most(s1, events.drop_first());
    } else {
        assert(pod_created(s1.stage));
        assert(i >= 1);
        assert(rest[i - 1] == acts[i]);
        lemma_discards_once(s1, events.drop_first(), i - 1);
    }
}

/// The listing deletes its Pod at most once, whatever happens; and once the
/// Pod was created, a listing that reports its outcome has deleted the Pod
/// exactly once.
pub proof fn law_pod_deleted_once(s: ListingView, events: Seq<EventView>)
    ensures
        discards(listing_run(s, events).1) <= 1,
        pod_created(s.stage) && (exists|i: int|
            0 <= i < listing_run(s, events).1.len() && (#[trigger] listing_run(s, events).1[i]) is Finish)
            ==> discards(listing_run(s, events).1) == 1,
{
    lemma_discards_at_most(s, events);
    if pod_created(s.stage) && (exists|i: int|
        0 <= i < listing_run(s, events).1.len() && (#[trigger] listing_run(s, events).1[i]) is Finish) {
        let i = choose|i: int| 0 <= i < listing_run(s, events).1.len() && (#[trigger] listing_run(s, events).1[i]) is Finish;
        lemma_discards_once(s, events, i);
    }
}

/// A counter of a restic snapshot's summary, read under its own key: the
/// integer stored there, 0 when it is missing or not an integer.
pub open spec fn summary_counter(j: JsonView, key: Seq<char>) -> i64 {
    match field(j, "summary"@) {
        Some(JsonView::Object(entries)) => match lookup(entries, key) {
            Some(JsonView::Int(n)) => n,
            _ => 0,
        },
        _ => 0,
    }
}

/// Each field of a listed snapshot comes from the key of the same name in
/// restic's JSON object: the texts `id`, `short_id`, `time` and `hostname`
/// (empty when missing), and each summary counter from the summary entry of
/// the same name (0 when missing); an object without a non-empty `id`
/// lists no snapshot.
pub proof fn law_snapshot_fields_by_name(j: JsonView)
    ensures
        match snapshot_of(j) {
            Some(v) => {
                &&& field(j, "id"@) == Some(JsonView::Str(v.id))
                &&& v.id.len() > 0
                &&& (field(j, "short_id"@) matches Some(JsonView::Str(t)) ==> v.short_id == t)
                &&& (field(j, "time"@) matches Some(JsonView::Str(t)) ==> v.time == t)
                &&& (field(j, "hostname"@) matches Some(JsonView::Str(t)) ==> v.hostname == t)
                &&& v.files_new == summary_counter(j, "files_new"@)
                &&& v.files_changed == summary_counter(j, "files_changed"@)
                &&& v.files_unmodified == summary_counter(j, "files_unmodified"@)
                &&& v.data_added == summary_counter(j, "data_added"@)
                &&& v.total_files_processed == summary_counter(j, "total_files_processed"@)
                &&& v.total_bytes_processed == summary_counter(j, "total_bytes_processed"@)
            },
            None => !(field(j, "id"@) matches Some(JsonView::Str(id)) && id.len() > 0),
        },
{
}

/// A listing gives up on its Pod only once the start-up timeout, not the
/// poll interval, has passed since the Pod was created: a clock reading
/// while checking deletes the Pod and records a time-out exactly when more
/// than `startup_timeout_secs` seconds have passed; before that it sleeps
/// for `interval_secs`.
pub proof fn law_startup_timeout(s: ListingView, t: u128)
    requires
        s.stage is Checking,
    ensures
        (t > s.started && t - s.started > s.startup_timeout_secs * 1_000_000_000) ==> listing_step(
            s,
            EventView::Clock(t),
        ) == (
            ListingView {
                stage: ListingStageView::Cleaning(Err(ErrorView::Timeout("Pod startup timed out"@))),
                ..s
            },
            ActionView::<Seq<SnapshotView>>::Discard { path: pod_path(s.ns, s.pod_name) },
        ),
        !(t > s.started && t - s.started > s.startup_timeout_secs * 1_000_000_000) ==> listing_step(
            s,
            EventView::Clock(t),
        ) == (
            ListingView { stage: ListingStageView::Sleeping, ..s },
            ActionView::<Seq<SnapshotView>>::Sleep { secs: s.interval_secs },
        ),
{
    assert(secs_to_nanos(s.startup_timeout_secs) == s.startup_timeout_secs * 1_000_000_000);
}

} // verus!
