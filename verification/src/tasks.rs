//! The table of background backup and restore tasks: which ones run, what
//! became of them, and the rule that one application never has a backup and
//! a restore in progress at once.
use crate::error::KubeError;
use crate::models::{App, AppView, TaskStatus, TaskView};
use crate::stamps::{clock_nanos, started_at, started_at_of};
use crate::text::{join2, opt_text};
use vstd::prelude::*;
use vstd::string::*;

verus! {

/// How long a finished task stays in the table before it is forgotten.
pub const TASK_RETENTION_SECS: u64 = 30;

/// The two kinds of background task.
#[derive(PartialEq, Eq, Structural, Clone, Copy)]
pub enum TaskKind {
    Backup,
    Restore,
}

impl TaskKind {
    /// The name of the kind, as it appears in task keys and records.
    pub open spec fn name(self) -> Seq<char> {
        match self {
            TaskKind::Backup => "backup"@,
            TaskKind::Restore => "restore"@,
        }
    }

    /// The other kind.
    pub open spec fn other(self) -> TaskKind {
        match self {
            TaskKind::Backup => TaskKind::Restore,
            TaskKind::Restore => TaskKind::Backup,
        }
    }

    /// The name of the kind.
    pub fn label(self) -> (r: &'static str)
        ensures
            r@ == self.name(),
    {
        match self {
            TaskKind::Backup => "backup",
            TaskKind::Restore => "restore",
        }
    }
}

/// The key a task is filed under: namespace, application and kind, joined by `/`.
pub open spec fn task_key(ns: Seq<char>, app: Seq<char>, kind: Seq<char>) -> Seq<char> {
    ns + "/"@ + app + "/"@ + kind
}

/// Whether a task status counts as in progress.
pub open spec fn is_active_status(status: Seq<char>) -> bool {
    status == "pending"@ || status == "running"@
}

/// Whether the task filed under `key` is in progress.
pub open spec fn active(m: Map<Seq<char>, TaskView>, key: Seq<char>) -> bool {
    m.contains_key(key) && is_active_status(m[key].status)
}

/// The record of a task that was just accepted.
pub open spec fn pending_task(kind: TaskKind, app: Seq<char>, ns: Seq<char>, started_at: Seq<char>) -> TaskView {
    TaskView {
        task_type: kind.name(),
        app,
        namespace: ns,
        status: "pending"@,
        result: None,
        error: None,
        started_at,
    }
}

/// Why a task of `kind` cannot start now, if it cannot: one of its kind is
/// in progress for the application, or one of the other kind.
pub open spec fn refusal(m: Map<Seq<char>, TaskView>, kind: TaskKind, ns: Seq<char>, app: Seq<char>) -> Option<Seq<char>> {
    if active(m, task_key(ns, app, kind.name())) {
        Some(
            match kind {
                TaskKind::Backup => "Backup already in progress for "@,
                TaskKind::Restore => "Restore already in progress for "@,
            } + app,
        )
    } else if active(m, task_key(ns, app, kind.other().name())) {
        Some(
            match kind {
                TaskKind::Backup => "Backup cannot start while restore is in progress for "@,
                TaskKind::Restore => "Restore cannot start while backup is in progress for "@,
            } + app,
        )
    } else {
        None
    }
}

/// The table after a task of `kind` was accepted.
pub open spec fn accepted(m: Map<Seq<char>, TaskView>, kind: TaskKind, ns: Seq<char>, app: Seq<char>, started_at: Seq<char>) -> Map<Seq<char>, TaskView> {
    m.insert(task_key(ns, app, kind.name()), pending_task(kind, app, ns, started_at))
}

/// The table after the task under `key` started running: a pending task
/// becomes running; any other table stays as it is.
pub open spec fn started(m: Map<Seq<char>, TaskView>, key: Seq<char>) -> Map<Seq<char>, TaskView> {
    if m.contains_key(key) && m[key].status == "pending"@ {
        m.insert(key, TaskView { status: "running"@, ..m[key] })
    } else {
        m
    }
}

/// The table after the task under `key` ended: a task in progress is, with
/// `Ok(result)`, completed and keeps the result, and with `Err(message)`
/// failed and keeps the message; any other table stays as it is.
pub open spec fn ended(m: Map<Seq<char>, TaskView>, key: Seq<char>, outcome: Result<Option<Seq<char>>, Seq<char>>) -> Map<Seq<char>, TaskView> {
    if active(m, key) {
        match outcome {
            Ok(result) => m.insert(key, TaskView { status: "completed"@, result, ..m[key] }),
            Err(message) => m.insert(key, TaskView { status: "failed"@, error: Some(message), ..m[key] }),
        }
    } else {
        m
    }
}

/// The table after the finished task under `key` that was started at
/// `started_at` is forgotten; a task in progress, or one started at another
/// time, stays.
pub open spec fn retired(m: Map<Seq<char>, TaskView>, key: Seq<char>, started_at: Seq<char>) -> Map<Seq<char>, TaskView> {
    if m.contains_key(key) && !active(m, key) && m[key].started_at == started_at {
        m.remove(key)
    } else {
        m
    }
}

/// An application as listed, with the flags of its in-progress tasks raised.
pub open spec fn flagged(m: Map<Seq<char>, TaskView>, a: AppView) -> AppView {
    AppView {
        backup_pending: a.backup_pending || active(m, task_key(a.namespace, a.name, "backup"@)),
        restore_pending: a.restore_pending || active(m, task_key(a.namespace, a.name, "restore"@)),
        ..a
    }
}

/// No application has a backup and a restore in progress at once.
pub open spec fn exclusive(m: Map<Seq<char>, TaskView>) -> bool {
    forall|ns: Seq<char>, app: Seq<char>|
        !(#[trigger] active(m, task_key(ns, app, "backup"@)) && #[trigger] active(
            m,
            task_key(ns, app, "restore"@),
        ))
}

/// The entries' keys are pairwise distinct.
pub open spec fn distinct_keys(es: Seq<(String, TaskStatus)>) -> bool {
    forall|i: int, j: int| 0 <= i < es.len() && 0 <= j < es.len() && i != j ==> es[i].0@ != es[j].0@
}

/// Whether some entry is filed under `key`.
pub open spec fn has_key(es: Seq<(String, TaskStatus)>, key: Seq<char>) -> bool {
    exists|i: int| 0 <= i < es.len() && #[trigger] es[i].0@ == key
}

/// The map of keys to task records that the entries hold.
pub open spec fn entries_map(es: Seq<(String, TaskStatus)>) -> Map<Seq<char>, TaskView> {
    Map::new(
        |k: Seq<char>| has_key(es, k),
        |k: Seq<char>| es[choose|i: int| 0 <= i < es.len() && #[trigger] es[i].0@ == k].1@,
    )
}

proof fn lemma_entry_value(es: Seq<(String, TaskStatus)>, i: int)
    requires
        distinct_keys(es),
        0 <= i < es.len(),
    ensures
        entries_map(es).contains_key(es[i].0@),
        entries_map(es)[es[i].0@] == es[i].1@,
{
    let k = es[i].0@;
    assert(has_key(es, k));
    let j = choose|j: int| 0 <= j < es.len() && #[trigger] es[j].0@ == k;
    assert(j == i);
}

/// The tasks of the service, filed by namespace, application and kind.
pub struct TaskTable {
    entries: Vec<(String, TaskStatus)>,
}

impl View for TaskTable {
    type V = Map<Seq<char>, TaskView>;

    closed spec fn view(&self) -> Map<Seq<char>, TaskView> {
        entries_map(self.entries@)
    }
}

impl TaskTable {
    #[verifier::type_invariant]
    spec fn keys_unique(&self) -> bool {
        distinct_keys(self.entries@)
    }

    /// An empty table.
    pub fn new() -> (t: TaskTable)
        ensures
            t@ == Map::<Seq<char>, TaskView>::empty(),
    {
        let t = TaskTable { entries: Vec::new() };
        assert(t@ =~= Map::<Seq<char>, TaskView>::empty());
        t
    }

    /// The record of the task filed under a key.
    pub fn lookup(&self, key: &String) -> (r: Option<TaskStatus>)
        ensures
            match r {
                Some(t) => self@.contains_key(key@) && self@[key@] == t@,
                None => !self@.contains_key(key@),
            },
    {
        proof {
            use_type_invariant(self);
        }
        match find_entry(&self.entries, key) {
            Some(i) => {
                proof {
                    lemma_entry_value(self.entries@, i as int);
                }
                Some(self.entries[i].1.duplicate())
            },
            None => None,
        }
    }

    /// The key of a task.
    pub fn key(ns: &str, app: &str, kind: &str) -> (k: String)
        ensures
            k@ == task_key(ns@, app@, kind@),
    {
        let mut k = ns.to_owned();
        k.append("/");
        k.append(app);
        k.append("/");
        k.append(kind);
        k
    }

    /// The record of a task, looked up by namespace, application and kind
    /// (`backup` or `restore`).
    pub fn task_status(&self, app: &str, ns: &str, task_type: &str) -> (r: Option<TaskStatus>)
        ensures
            match r {
                Some(t) => self@.contains_key(task_key(ns@, app@, task_type@)) && self@[task_key(
                    ns@,
                    app@,
                    task_type@,
                )] == t@,
                None => !self@.contains_key(task_key(ns@, app@, task_type@)),
            },
    {
        let key = TaskTable::key(ns, app, task_type);
        self.lookup(&key)
    }

    /// Whether the task filed under a key is in progress.
    pub fn is_active(&self, key: &String) -> (r: bool)
        ensures
            r == active(self@, key@),
    {
        match self.lookup(key) {
            Some(t) => t.status == "pending".to_owned() || t.status == "running".to_owned(),
            None => false,
        }
    }


    /// Accepts a new task of `kind` for an application, stamped `started_at`,
    /// unless one of its kind or of the other kind is in progress for it.
    pub fn begin_at(&mut self, kind: TaskKind, app: &str, ns: &str, started_at: String) -> (r: Result<TaskStatus, KubeError>)
        ensures
            match refusal(old(self)@, kind, ns@, app@) {
                Some(message) => r matches Err(e) && e == KubeError::Api(e->Api_0) && e->Api_0@ == message
                    && final(self)@ == old(self)@,
                None => r matches Ok(t) && t@ == pending_task(kind, app@, ns@, started_at@)
                    && final(self)@ == accepted(old(self)@, kind, ns@, app@, started_at@),
            },
    {
        let own = TaskTable::key(ns, app, kind.label());
        let other_kind = match kind {
            TaskKind::Backup => TaskKind::Restore,
            TaskKind::Restore => TaskKind::Backup,
        };
        let other = TaskTable::key(ns, app, other_kind.label());
        if self.is_active(&own) {
            let prefix = match kind {
                TaskKind::Backup => "Backup already in progress for ",
                TaskKind::Restore => "Restore already in progress for ",
            };
            return Err(KubeError::Api(join2(prefix, app)));
        }
        if self.is_active(&other) {
            let prefix = match kind {
                TaskKind::Backup => "Backup cannot start while restore is in progress for ",
                TaskKind::Restore => "Restore cannot start while backup is in progress for ",
            };
            return Err(KubeError::Api(join2(prefix, app)));
        }
        let task = TaskStatus {
            task_type: kind.label().to_owned(),
            app: app.to_owned(),
            namespace: ns.to_owned(),
            status: "pending".to_owned(),
            result: None,
            error: None,
            started_at,
        };
        let record = task.duplicate();
        self.put(own, record);
        Ok(task)
    }

    /// Accepts a new task of `kind` for an application, stamped with the
    /// current time in RFC 3339 form (empty when the clock stands before the
    /// Unix epoch), unless one of its kind or of the other kind is in
    /// progress for it.
    pub fn begin(&mut self, kind: TaskKind, app: &str, ns: &str) -> (r: Result<TaskStatus, KubeError>)
        ensures
            match refusal(old(self)@, kind, ns@, app@) {
                Some(message) => r matches Err(e) && e == KubeError::Api(e->Api_0) && e->Api_0@ == message
                    && final(self)@ == old(self)@,
                None => r matches Ok(t) && exists|nanos: Option<u128>|
                    t@ == pending_task(kind, app@, ns@, started_at_of(nanos)) && final(self)@ == accepted(
                        old(self)@,
                        kind,
                        ns@,
                        app@,
                        started_at_of(nanos),
                    ),
            },
    {
        let nanos = clock_nanos();
        let now = started_at(nanos);
        self.begin_at(kind, app, ns, now)
    }

    /// Marks the task of `kind` for an application as running, when it is
    /// pending.
    pub fn start(&mut self, kind: TaskKind, app: &str, ns: &str)
        ensures
            final(self)@ == started(old(self)@, task_key(ns@, app@, kind.name())),
    {
        let key = TaskTable::key(ns, app, kind.label());
        match self.lookup(&key) {
            Some(mut t) => {
                if t.status == "pending".to_owned() {
                    t.status = "running".to_owned();
                    self.put(key, t);
                }
            },
            None => {},
        }
    }

    /// Records how the task of `kind` for an application ended, when it is
    /// in progress: completed with its result, or failed with the error's
    /// message.
    pub fn finish(&mut self, kind: TaskKind, app: &str, ns: &str, outcome: Result<Option<String>, KubeError>)
        ensures
            final(self)@ == ended(
                old(self)@,
                task_key(ns@, app@, kind.name()),
                match outcome {
                    Ok(result) => Ok(opt_text(result)),
                    Err(e) => Err(e.text()),
                },
            ),
    {
        let key = TaskTable::key(ns, app, kind.label());
        match self.lookup(&key) {
            Some(mut t) => {
                if !(t.status == "pending".to_owned() || t.status == "running".to_owned()) {
                    return;
                }
                match outcome {
                    Ok(result) => {
                        t.status = "completed".to_owned();
                        t.result = result;
                    },
                    Err(e) => {
                        t.status = "failed".to_owned();
                        t.error = Some(e.message());
                    },
                }
                self.put(key, t);
            },
            None => {},
        }
    }

    /// Forgets the task of `kind` for an application.
    pub fn forget(&mut self, kind: TaskKind, app: &str, ns: &str)
        ensures
            final(self)@ == old(self)@.remove(task_key(ns@, app@, kind.name())),
    {
        let key = TaskTable::key(ns, app, kind.label());
        self.drop_key(&key);
    }

    /// Forgets the finished task of `kind` for an application that was
    /// started at `started_at`; a task in progress, or a newer task filed
    /// under the same key, stays.
    pub fn forget_finished(&mut self, kind: TaskKind, app: &str, ns: &str, started_at: &str)
        ensures
            final(self)@ == retired(old(self)@, task_key(ns@, app@, kind.name()), started_at@),
    {
        let key = TaskTable::key(ns, app, kind.label());
        match self.lookup(&key) {
            Some(t) => {
                let in_progress = t.status == "pending".to_owned() || t.status == "running".to_owned();
                if !in_progress && t.started_at == started_at.to_owned() {
                    self.drop_key(&key);
                }
            },
            None => {},
        }
    }

    /// Flags the applications that have a backup or a restore in progress.
    pub fn mark_pending(&self, apps: &mut Vec<App>)
        ensures
            final(apps)@.len() == old(apps)@.len(),
            forall|i: int|
                0 <= i < final(apps)@.len() ==> #[trigger] final(apps)@[i]@ == flagged(
                    self@,
                    old(apps)@[i]@,
                ),
    {
        let mut i: usize = 0;
        while i < apps.len()
            invariant
                i <= apps.len(),
                apps@.len() == old(apps)@.len(),
                forall|k: int| 0 <= k < i ==> #[trigger] apps@[k]@ == flagged(self@, old(apps)@[k]@),
                forall|k: int| i <= k < apps@.len() ==> #[trigger] apps@[k] == old(apps)@[k],
            decreases apps.len() - i,
        {
            let bk = TaskTable::key(apps[i].namespace.as_str(), apps[i].name.as_str(), "backup");
            let rk = TaskTable::key(apps[i].namespace.as_str(), apps[i].name.as_str(), "restore");
            let b = self.is_active(&bk);
            let r = self.is_active(&rk);
            let mut a = apps.remove(i);
            a.backup_pending = a.backup_pending || b;
            a.restore_pending = a.restore_pending || r;
            apps.insert(i, a);
            i = i + 1;
        }
    }

    /// Replaces or adds the record under `key`.
    fn put(&mut self, key: String, task: TaskStatus)
        ensures
            final(self)@ == old(self)@.insert(key@, task@),
    {
        proof {
            use_type_invariant(&*self);
        }
        let mut es: Vec<(String, TaskStatus)> = Vec::new();
        std::mem::swap(&mut es, &mut self.entries);
        put_entry(&mut es, key, task);
        self.entries = es;
    }

    /// Removes the record under `key`, if there is one.
    fn drop_key(&mut self, key: &String)
        ensures
            final(self)@ == old(self)@.remove(key@),
    {
        proof {
            use_type_invariant(&*self);
        }
        let mut es: Vec<(String, TaskStatus)> = Vec::new();
        std::mem::swap(&mut es, &mut self.entries);
        remove_entry(&mut es, key);
        self.entries = es;
    }
}

fn find_entry(es: &Vec<(String, TaskStatus)>, key: &String) -> (r: Option<usize>)
    ensures
        match r {
            Some(i) => i < es@.len() && es@[i as int].0@ == key@,
            None => !has_key(es@, key@),
        },
{
    let mut i: usize = 0;
    while i < es.len()
        invariant
            i <= es.len(),
            forall|k: int| 0 <= k < i ==> es@[k].0@ != key@,
        decreases es.len() - i,
    {
        if es[i].0 == *key {
            return Some(i);
        }
        i = i + 1;
    }
    None
}

fn put_entry(es: &mut Vec<(String, TaskStatus)>, key: String, task: TaskStatus)
    requires
        distinct_keys(old(es)@),
    ensures
        distinct_keys(final(es)@),
        entries_map(final(es)@) == entries_map(old(es)@).insert(key@, task@),
{
    let ghost old_es = es@;
    let ghost k = key@;
    let ghost v = task@;
    match find_entry(es, &key) {
        Some(i) => {
            es.set(i, (key, task));
            proof {
                let es = es@;
                assert(distinct_keys(es)) by {
                    assert forall|a: int, b: int| 0 <= a < es.len() && 0 <= b < es.len() && a != b implies es[a].0@ != es[b].0@ by {
                        if a != i && b != i {
                            assert(old_es[a] == es[a] && old_es[b] == es[b]);
                        }
                        if a == i {
                            assert(old_es[i as int].0@ == es[a].0@);
                            assert(old_es[b] == es[b]);
                        }
                        if b == i {
                            assert(old_es[i as int].0@ == es[b].0@);
                            assert(old_es[a] == es[a]);
                        }
                    }
                }
                assert forall|q: Seq<char>| #[trigger] has_key(es, q) == has_key(old_es, q) by {
                    if has_key(es, q) {
                        let j = choose|j: int| 0 <= j < es.len() && #[trigger] es[j].0@ == q;
                        if j == i {
                            assert(old_es[i as int].0@ == q);
                        } else {
                            assert(old_es[j].0@ == q);
                        }
                    }
                    if has_key(old_es, q) {
                        let j = choose|j: int| 0 <= j < old_es.len() && #[trigger] old_es[j].0@ == q;
                        if j == i {
                            assert(es[i as int].0@ == q);
                        } else {
                            assert(es[j].0@ == q);
                        }
                    }
                }
                assert forall|q: Seq<char>| has_key(es, q) implies #[trigger] entries_map(es)[q] == (if q == k {
                    v
                } else {
                    entries_map(old_es)[q]
                }) by {
                    let j = choose|j: int| 0 <= j < es.len() && #[trigger] es[j].0@ == q;
                    lemma_entry_value(es, j);
                    if j != i {
                        assert(old_es[j] == es[j]);
                        lemma_entry_value(old_es, j);
                    }
                }
                assert(entries_map(es) =~= entries_map(old_es).insert(k, v));
            }
        },
        None => {
            es.push((key, task));
            proof {
                let es = es@;
                let n = old_es.len() as int;
                assert(es[n].0@ == k);
                assert(distinct_keys(es)) by {
                    assert forall|a: int, b: int| 0 <= a < es.len() && 0 <= b < es.len() && a != b implies es[a].0@ != es[b].0@ by {
                        if a < n && b < n {
                            assert(old_es[a] == es[a] && old_es[b] == es[b]);
                        } else if a == n {
                            assert(old_es[b] == es[b]);
                            assert(!(old_es[b].0@ == k));
                        } else {
                            assert(old_es[a] == es[a]);
                            assert(!(old_es[a].0@ == k));
                        }
                    }
                }
                assert forall|q: Seq<char>| #[trigger] has_key(es, q) == (has_key(old_es, q) || q == k) by {
                    if has_key(es, q) {
                        let j = choose|j: int| 0 <= j < es.len() && #[trigger] es[j].0@ == q;
                        if j < n {
                            assert(old_es[j].0@ == q);
                        }
                    }
                    if has_key(old_es, q) {
                        let j = choose|j: int| 0 <= j < old_es.len() && #[trigger] old_es[j].0@ == q;
                        assert(es[j].0@ == q);
                    }
                    if q == k {
                        assert(es[n].0@ == q);
                    }
                }
                assert forall|q: Seq<char>| has_key(es, q) implies #[trigger] entries_map(es)[q] == (if q == k {
                    v
                } else {
                    entries_map(old_es)[q]
                }) by {
                    let j = choose|j: int| 0 <= j < es.len() && #[trigger] es[j].0@ == q;
                    lemma_entry_value(es, j);
                    if j != n {
                        assert(old_es[j] == es[j]);
                        lemma_entry_value(old_es, j);
                    }
                }
                assert(entries_map(es) =~= entries_map(old_es).insert(k, v));
            }
        },
    }
}

fn remove_entry(es: &mut Vec<(String, TaskStatus)>, key: &String)
    requires
        distinct_keys(old(es)@),
    ensures
        distinct_keys(final(es)@),
        entries_map(final(es)@) == entries_map(old(es)@).remove(key@),
{
    let ghost old_es = es@;
    let ghost k = key@;
    match find_entry(es, key) {
        Some(i) => {
            es.remove(i);
            proof {
                let es = es@;
                assert forall|a: int| 0 <= a < es.len() implies #[trigger] es[a] == (if a < i {
                    old_es[a]
                } else {
                    old_es[a + 1]
                }) by {}
                assert(distinct_keys(es)) by {
                    assert forall|a: int, b: int| 0 <= a < es.len() && 0 <= b < es.len() && a != b implies es[a].0@ != es[b].0@ by {
                        let oa = if a < i { a } else { a + 1 };
                        let ob = if b < i { b } else { b + 1 };
                        assert(es[a] == old_es[oa] && es[b] == old_es[ob]);
                    }
                }
                assert forall|q: Seq<char>| #[trigger] has_key(es, q) == (has_key(old_es, q) && q != k) by {
                    if has_key(es, q) {
                        let j = choose|j: int| 0 <= j < es.len() && #[trigger] es[j].0@ == q;
                        let oj = if j < i { j } else { j + 1 };
                        assert(old_es[oj].0@ == q);
                        assert(oj != i);
                    }
                    if has_key(old_es, q) && q != k {
                        let j = choose|j: int| 0 <= j < old_es.len() && #[trigger] old_es[j].0@ == q;
                        assert(j != i);
                        if j < i {
                            assert(es[j].0@ == q);
                        } else {
                            assert(es[j - 1].0@ == q);
                        }
                    }
                }
                assert forall|q: Seq<char>| has_key(es, q) implies #[trigger] entries_map(es)[q] == entries_map(old_es)[q] by {
                    let j = choose|j: int| 0 <= j < es.len() && #[trigger] es[j].0@ == q;
                    lemma_entry_value(es, j);
                    let oj = if j < i { j } else { j + 1 };
                    assert(old_es[oj] == es[j]);
                    lemma_entry_value(old_es, oj);
                }
                assert(entries_map(es) =~= entries_map(old_es).remove(k));
            }
        },
        None => {
            assert(entries_map(old_es) =~= entries_map(old_es).remove(k));
        },
    }
}

proof fn lemma_key_prefix(ns: Seq<char>, app: Seq<char>, ns2: Seq<char>, app2: Seq<char>, kind: Seq<char>, kind2: Seq<char>)
    requires
        task_key(ns, app, kind) == task_key(ns2, app2, kind),
    ensures
        task_key(ns, app, kind2) == task_key(ns2, app2, kind2),
{
    let p = ns + "/"@ + app + "/"@;
    let q = ns2 + "/"@ + app2 + "/"@;
    assert((p + kind).take(p.len() as int) =~= p);
    assert((q + kind).take(q.len() as int) =~= q);
    assert(p.len() == q.len());
    assert(p =~= q);
}

proof fn lemma_kinds_apart(ns: Seq<char>, app: Seq<char>, ns2: Seq<char>, app2: Seq<char>)
    ensures
        task_key(ns, app, "backup"@) != task_key(ns2, app2, "restore"@),
{
    reveal_strlit("backup");
    reveal_strlit("restore");
    let a = task_key(ns, app, "backup"@);
    let b = task_key(ns2, app2, "restore"@);
    assert(a.last() == 'p');
    assert(b.last() == 'e');
}

/// Accepting a task keeps the rule that no application has a backup and a
/// restore in progress at once.
pub proof fn law_accept_keeps_exclusive(m: Map<Seq<char>, TaskView>, kind: TaskKind, ns: Seq<char>, app: Seq<char>, at: Seq<char>)
    requires
        exclusive(m),
        refusal(m, kind, ns, app) is None,
    ensures
        exclusive(accepted(m, kind, ns, app, at)),
        active(accepted(m, kind, ns, app, at), task_key(ns, app, kind.name())),
        accepted(m, kind, ns, app, at)[task_key(ns, app, kind.name())] == pending_task(kind, app, ns, at),
{
    let m2 = accepted(m, kind, ns, app, at);
    let k = task_key(ns, app, kind.name());
    reveal_strlit("pending");
    assert forall|n: Seq<char>, a: Seq<char>|
        !(#[trigger] active(m2, task_key(n, a, "backup"@)) && #[trigger] active(m2, task_key(n, a, "restore"@))) by {
        let kb = task_key(n, a, "backup"@);
        let kr = task_key(n, a, "restore"@);
        lemma_kinds_apart(n, a, ns, app);
        lemma_kinds_apart(ns, app, n, a);
        if kb == k {
            lemma_key_prefix(n, a, ns, app, "backup"@, "restore"@);
        }
        if kr == k {
            lemma_key_prefix(n, a, ns, app, "restore"@, "backup"@);
        }
        if active(m2, kb) && active(m2, kr) {
            if kb != k && kr != k {
                assert(active(m, kb) && active(m, kr));
            }
        }
    }
}

/// Starting a task never breaks the rule that no application has a backup
/// and a restore in progress at once, and a task in progress stays so.
pub proof fn law_start_keeps_exclusive(m: Map<Seq<char>, TaskView>, key: Seq<char>)
    requires
        exclusive(m),
    ensures
        exclusive(started(m, key)),
        active(m, key) ==> active(started(m, key), key),
{
    let m2 = started(m, key);
    reveal_strlit("running");
    reveal_strlit("pending");
    assert forall|n: Seq<char>, a: Seq<char>|
        !(#[trigger] active(m2, task_key(n, a, "backup"@)) && #[trigger] active(m2, task_key(n, a, "restore"@))) by {
        let kb = task_key(n, a, "backup"@);
        let kr = task_key(n, a, "restore"@);
        assert(active(m2, kb) ==> active(m, kb));
        assert(active(m2, kr) ==> active(m, kr));
    }
}

/// A task that ends is no longer in progress, and the rule that no
/// application has a backup and a restore in progress at once still holds.
pub proof fn law_end_keeps_exclusive(m: Map<Seq<char>, TaskView>, key: Seq<char>, outcome: Result<Option<Seq<char>>, Seq<char>>)
    requires
        exclusive(m),
    ensures
        exclusive(ended(m, key, outcome)),
        m.contains_key(key) ==> !active(ended(m, key, outcome), key),
{
    let m2 = ended(m, key, outcome);
    reveal_strlit("completed");
    reveal_strlit("failed");
    reveal_strlit("pending");
    reveal_strlit("running");
    assert("completed"@[0] != "pending"@[0] && "completed"@[0] != "running"@[0]);
    assert("failed"@[0] != "pending"@[0] && "failed"@[0] != "running"@[0]);
    assert forall|n: Seq<char>, a: Seq<char>|
        !(#[trigger] active(m2, task_key(n, a, "backup"@)) && #[trigger] active(m2, task_key(n, a, "restore"@))) by {
        let kb = task_key(n, a, "backup"@);
        let kr = task_key(n, a, "restore"@);
        assert(active(m2, kb) ==> active(m, kb));
        assert(active(m2, kr) ==> active(m, kr));
    }
}

/// Forgetting a task keeps the rule that no application has a backup and a
/// restore in progress at once.
pub proof fn law_forget_keeps_exclusive(m: Map<Seq<char>, TaskView>, key: Seq<char>)
    requires
        exclusive(m),
    ensures
        exclusive(m.remove(key)),
        !m.remove(key).contains_key(key),
{
    let m2 = m.remove(key);
    assert forall|n: Seq<char>, a: Seq<char>|
        !(#[trigger] active(m2, task_key(n, a, "backup"@)) && #[trigger] active(m2, task_key(n, a, "restore"@))) by {
        let kb = task_key(n, a, "backup"@);
        let kr = task_key(n, a, "restore"@);
        assert(active(m2, kb) ==> active(m, kb));
        assert(active(m2, kr) ==> active(m, kr));
    }
}

/// While a task is in progress for an application, no other task of either
/// kind is accepted for it.
pub proof fn law_busy_refuses(m: Map<Seq<char>, TaskView>, kind: TaskKind, ns: Seq<char>, app: Seq<char>)
    requires
        active(m, task_key(ns, app, kind.name())),
    ensures
        refusal(m, kind, ns, app) is Some,
        refusal(m, kind.other(), ns, app) is Some,
{
    assert(kind.other().other() == kind);
}

/// A table with no task in progress satisfies the rule trivially; so does
/// the empty table.
pub proof fn law_empty_exclusive()
    ensures
        exclusive(Map::<Seq<char>, TaskView>::empty()),
{
}

/// A task's record reads back as it was last written: pending once
/// accepted, running once started, completed with its result or failed
/// with its message once ended, and gone once forgotten.
pub proof fn law_records_read_back(
    m: Map<Seq<char>, TaskView>,
    kind: TaskKind,
    ns: Seq<char>,
    app: Seq<char>,
    at: Seq<char>,
    outcome: Result<Option<Seq<char>>, Seq<char>>,
)
    ensures
        ({
            let key = task_key(ns, app, kind.name());
            let a = accepted(m, kind, ns, app, at);
            let r = started(a, key);
            let e = ended(r, key, outcome);
            &&& a[key] == pending_task(kind, app, ns, at)
            &&& r[key] == TaskView { status: "running"@, ..pending_task(kind, app, ns, at) }
            &&& e[key] == match outcome {
                Ok(result) => TaskView { status: "completed"@, result, ..r[key] },
                Err(message) => TaskView { status: "failed"@, error: Some(message), ..r[key] },
            }
            &&& !e.remove(key).contains_key(key)
        }),
{
}

/// Where a status stands in a task's life: pending, then running, then
/// completed or failed.
pub open spec fn status_rank(status: Seq<char>) -> int {
    if status == "pending"@ {
        0
    } else if status == "running"@ {
        1
    } else {
        2
    }
}

/// A task's status only moves forward: starting turns pending into running
/// and changes nothing else; ending turns a task in progress into completed
/// or failed and changes nothing else.  No record goes back to an earlier
/// status, and no record disappears, until the task is forgotten.
pub proof fn law_status_moves_forward(
    m: Map<Seq<char>, TaskView>,
    key: Seq<char>,
    outcome: Result<Option<Seq<char>>, Seq<char>>,
    k: Seq<char>,
)
    requires
        m.contains_key(k),
    ensures
        started(m, key).contains_key(k),
        status_rank(started(m, key)[k].status) >= status_rank(m[k].status),
        started(m, key)[k] != m[k] ==> k == key && m[k].status == "pending"@ && started(m, key)[k].status
            == "running"@,
        ended(m, key, outcome).contains_key(k),
        status_rank(ended(m, key, outcome)[k].status) >= status_rank(m[k].status),
        ended(m, key, outcome)[k] != m[k] ==> k == key && is_active_status(m[k].status) && (ended(
            m,
            key,
            outcome,
        )[k].status == "completed"@ || ended(m, key, outcome)[k].status == "failed"@),
{
    reveal_strlit("completed");
    reveal_strlit("failed");
    reveal_strlit("pending");
    reveal_strlit("running");
    assert("completed"@[0] != "pending"@[0] && "completed"@[0] != "running"@[0]);
    assert("failed"@[0] != "pending"@[0] && "failed"@[0] != "running"@[0]);
    assert("running"@[0] != "pending"@[0]);
}

/// Forgetting finished tasks never removes a task in progress, nor a task
/// started at another time than the one being forgotten.
pub proof fn law_retire_keeps_newer(m: Map<Seq<char>, TaskView>, key: Seq<char>, started_at: Seq<char>)
    requires
        m.contains_key(key),
        active(m, key) || m[key].started_at != started_at,
    ensures
        retired(m, key, started_at) == m,
{
}

} // verus!
