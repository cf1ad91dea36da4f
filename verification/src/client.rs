//! The web front end's side: the records it reads from the service, the
//! addresses it calls, and the texts it shows.
use crate::text::{clone_opt, debug_option, debug_option_text, decimal, decimal_text, join2, join3, opt_text, same_text_owned};
use vstd::prelude::*;
use vstd::string::*;

verus! {

/// An application as the front end lists it.
pub struct App {
    pub name: String,
    pub namespace: String,
}

/// A snapshot as the front end lists it.
pub struct Snapshot {
    pub id: String,
    pub time: String,
    pub tags: Vec<String>,
}

/// The outcome of a backup as the front end reads it.
pub struct BackupResponse {
    pub trigger: String,
    pub status: String,
    pub result: Option<String>,
}

/// What the front end asks a restore for.
pub struct RestoreRequest {
    pub trigger: String,
    pub timestamp: Option<String>,
}

/// The outcome of a restore as the front end reads it.
pub struct RestoreResponse {
    pub trigger: String,
    pub status: String,
    pub result: Option<String>,
}

/// How many backups of a backup-all run there were, and how they went.
pub struct BackupSummary {
    pub total: usize,
    pub success: usize,
    pub failed: usize,
}

/// The outcome of one application's backup in a backup-all run.
pub struct AppBackupStatus {
    pub app: String,
    pub namespace: String,
    pub success: bool,
    pub error: Option<String>,
}

/// The outcome of a backup-all run.
pub struct BackupAllResponse {
    pub trigger: String,
    pub apps: Vec<AppBackupStatus>,
    pub summary: Option<BackupSummary>,
}

/// The address of the service: the page's origin, or
/// `http://localhost:8080` when the page has none.
pub fn base_url(origin: Option<String>) -> (r: String)
    ensures
        r@ == match origin {
            Some(o) => o@,
            None => "http://localhost:8080"@,
        },
{
    match origin {
        Some(o) => o,
        None => "http://localhost:8080".to_owned(),
    }
}

/// The address that lists the namespaces.
pub fn namespaces_url(base: &str) -> (r: String)
    ensures
        r@ == base@ + "/api/namespaces"@,
{
    join2(base, "/api/namespaces")
}

/// The address that lists the applications: of one namespace, or of all
/// (no namespace, or `all`).
pub open spec fn apps_url_spec(base: Seq<char>, namespace: Option<Seq<char>>) -> Seq<char> {
    match namespace {
        Some(ns) => if ns != "all"@ {
            base + "/api/apps?namespace="@ + ns
        } else {
            base + "/api/apps"@
        },
        None => base + "/api/apps"@,
    }
}

/// The address that lists the applications.
pub fn apps_url(base: &str, namespace: Option<&str>) -> (r: String)
    ensures
        r@ == apps_url_spec(base@, match namespace {
            Some(n) => Some(n@),
            None => None,
        }),
{
    match namespace {
        Some(ns) => if ns.to_owned() != "all".to_owned() {
            join3(base, "/api/apps?namespace=", ns)
        } else {
            join2(base, "/api/apps")
        },
        None => join2(base, "/api/apps"),
    }
}

/// The address of an application's resource `what` (`snapshots`, `backup`, `restore`).
pub open spec fn app_url_spec(base: Seq<char>, app: Seq<char>, ns: Seq<char>, what: Seq<char>) -> Seq<char> {
    base + "/api/apps/"@ + app + "/"@ + ns + "/"@ + what
}

fn app_url(base: &str, app: &str, ns: &str, what: &str) -> (r: String)
    ensures
        r@ == app_url_spec(base@, app@, ns@, what@),
{
    let mut r = join3(base, "/api/apps/", app);
    r.append("/");
    r.append(ns);
    r.append("/");
    r.append(what);
    r
}

/// The address that lists an application's snapshots.
pub fn snapshots_url(base: &str, app: &str, ns: &str) -> (r: String)
    ensures
        r@ == app_url_spec(base@, app@, ns@, "snapshots"@),
{
    app_url(base, app, ns, "snapshots")
}

/// The address that starts an application's backup.
pub fn backup_url(base: &str, app: &str, ns: &str) -> (r: String)
    ensures
        r@ == app_url_spec(base@, app@, ns@, "backup"@),
{
    app_url(base, app, ns, "backup")
}

/// The address that starts an application's restore.
pub fn restore_url(base: &str, app: &str, ns: &str) -> (r: String)
    ensures
        r@ == app_url_spec(base@, app@, ns@, "restore"@),
{
    app_url(base, app, ns, "restore")
}

/// The address that reads the record of an application's backup task.
pub fn backup_status_url(base: &str, app: &str, ns: &str) -> (r: String)
    ensures
        r@ == app_url_spec(base@, app@, ns@, "backup/status"@),
{
    app_url(base, app, ns, "backup/status")
}

/// The address that reads the record of an application's restore task.
pub fn restore_status_url(base: &str, app: &str, ns: &str) -> (r: String)
    ensures
        r@ == app_url_spec(base@, app@, ns@, "restore/status"@),
{
    app_url(base, app, ns, "restore/status")
}

/// How a task whose record reads `status`, `result` and `error` ended: none
/// while it is pending or running; its result once completed; its error
/// (`Task failed` when it has none) once failed.
pub open spec fn task_outcome_spec(
    status: Seq<char>,
    result: Option<Seq<char>>,
    error: Option<Seq<char>>,
) -> Option<Result<Option<Seq<char>>, Seq<char>>> {
    if status == "completed"@ {
        Some(Ok(result))
    } else if status == "failed"@ {
        Some(
            Err(
                match error {
                    Some(e) => e,
                    None => "Task failed"@,
                },
            ),
        )
    } else {
        None
    }
}

/// How a task ended, by its record; none while it is still in progress.
pub fn task_outcome(status: &str, result: &Option<String>, error: &Option<String>) -> (r: Option<
    Result<Option<String>, String>,
>)
    ensures
        task_outcome_spec(status@, opt_text(*result), opt_text(*error)) == match r {
            Some(Ok(o)) => Some(Ok::<Option<Seq<char>>, Seq<char>>(opt_text(o))),
            Some(Err(e)) => Some(Err::<Option<Seq<char>>, Seq<char>>(e@)),
            None => None,
        },
{
    if status.to_owned() == "completed".to_owned() {
        Some(Ok(clone_opt(result)))
    } else if status.to_owned() == "failed".to_owned() {
        match error {
            Some(e) => Some(Err(e.clone())),
            None => Some(Err("Task failed".to_owned())),
        }
    } else {
        None
    }
}

/// The address that backs up all applications.
pub fn backup_all_url(base: &str) -> (r: String)
    ensures
        r@ == base@ + "/api/apps/backup-all"@,
{
    join2(base, "/api/apps/backup-all")
}

/// The body of an answer, or the error the front end reports for an HTTP
/// status of 400 or more: `HTTP <status>: <body>`.
pub fn check_status(status: u16, body: String) -> (r: Result<String, String>)
    ensures
        status >= 400 ==> (r matches Err(m) && m@ == "HTTP "@ + decimal(status as nat) + ": "@ + body@),
        status < 400 ==> (r matches Ok(b) && b@ == body@),
{
    if status >= 400 {
        let mut m = join2("HTTP ", decimal_text(status as u64).as_str());
        m.append(": ");
        m.append(body.as_str());
        Err(m)
    } else {
        Ok(body)
    }
}

/// Whether an optional result is `Successful`.
pub open spec fn is_successful(result: Option<Seq<char>>) -> bool {
    result == Some("Successful"@)
}

fn successful_result(result: &Option<String>) -> (r: bool)
    ensures
        r == is_successful(opt_text(*result)),
{
    match result {
        Some(s) => same_text_owned(s, "Successful"),
        None => false,
    }
}

/// The status line after a backup request.
pub open spec fn backup_message_spec(r: Result<Option<Seq<char>>, Seq<char>>) -> Seq<char> {
    match r {
        Ok(result) => if is_successful(result) {
            "Backup completed successfully"@
        } else {
            "Backup failed: "@ + debug_option(result)
        },
        Err(e) => "Backup error: "@ + e,
    }
}

/// The status line after a backup request.
pub fn backup_message(r: &Result<BackupResponse, String>) -> (m: String)
    ensures
        m@ == backup_message_spec(match r {
            Ok(b) => Ok(opt_text(b.result)),
            Err(e) => Err(e@),
        }),
{
    match r {
        Ok(b) => if successful_result(&b.result) {
            "Backup completed successfully".to_owned()
        } else {
            join2("Backup failed: ", debug_option_text(&b.result).as_str())
        },
        Err(e) => join2("Backup error: ", e.as_str()),
    }
}

/// The status line after a restore request.
pub open spec fn restore_message_spec(r: Result<Option<Seq<char>>, Seq<char>>) -> Seq<char> {
    match r {
        Ok(result) => if is_successful(result) {
            "Restore completed successfully"@
        } else {
            "Restore completed with result: "@ + debug_option(result)
        },
        Err(e) => "Restore error: "@ + e,
    }
}

/// The status line after a restore request.
pub fn restore_message(r: &Result<RestoreResponse, String>) -> (m: String)
    ensures
        m@ == restore_message_spec(match r {
            Ok(b) => Ok(opt_text(b.result)),
            Err(e) => Err(e@),
        }),
{
    match r {
        Ok(b) => if successful_result(&b.result) {
            "Restore completed successfully".to_owned()
        } else {
            join2("Restore completed with result: ", debug_option_text(&b.result).as_str())
        },
        Err(e) => join2("Restore error: ", e.as_str()),
    }
}

/// How many backups of a run failed.
pub open spec fn failures(apps: Seq<AppBackupStatus>) -> nat
    decreases apps.len(),
{
    if apps.len() == 0 {
        0
    } else {
        failures(apps.drop_last()) + if apps.last().success {
            0nat
        } else {
            1nat
        }
    }
}

proof fn lemma_failures_bounded(apps: Seq<AppBackupStatus>)
    ensures
        failures(apps) <= apps.len(),
    decreases apps.len(),
{
    if apps.len() > 0 {
        lemma_failures_bounded(apps.drop_last());
    }
}

fn count_failures(apps: &Vec<AppBackupStatus>) -> (r: usize)
    ensures
        r == failures(apps@),
{
    let mut n: usize = 0;
    let mut i: usize = 0;
    while i < apps.len()
        invariant
            i <= apps.len(),
            n == failures(apps@.take(i as int)),
        decreases apps.len() - i,
    {
        assert(apps@.take(i + 1).drop_last() =~= apps@.take(i as int));
        proof {
            lemma_failures_bounded(apps@.take(i as int));
        }
        if !apps[i].success {
            n = n + 1;
        }
        i = i + 1;
    }
    assert(apps@.take(apps.len() as int) =~= apps@);
    n
}

/// The counts of a backup-all run.
pub fn summarize(apps: &Vec<AppBackupStatus>) -> (s: BackupSummary)
    ensures
        s.total == apps@.len(),
        s.failed == failures(apps@),
        s.success + s.failed == s.total,
{
    proof {
        lemma_failures_bounded(apps@);
    }
    let failed = count_failures(apps);
    BackupSummary { total: apps.len(), success: apps.len() - failed, failed }
}

/// The status line after a backup-all request.
pub open spec fn backup_all_message_spec(r: Result<Seq<AppBackupStatus>, Seq<char>>) -> Seq<char> {
    match r {
        Ok(apps) => if failures(apps) == 0 {
            "All backups completed successfully"@
        } else {
            decimal(failures(apps)) + " of "@ + decimal(apps.len()) + " backups failed"@
        },
        Err(e) => "Backup-all error: "@ + e,
    }
}

/// The status line after a backup-all request.
pub fn backup_all_message(r: &Result<BackupAllResponse, String>) -> (m: String)
    ensures
        m@ == backup_all_message_spec(match r {
            Ok(b) => Ok(b.apps@),
            Err(e) => Err(e@),
        }),
{
    match r {
        Ok(b) => {
            let failed = count_failures(&b.apps);
            if failed == 0 {
                "All backups completed successfully".to_owned()
            } else {
                let mut m = decimal_text(failed as u64);
                m.append(" of ");
                m.append(decimal_text(b.apps.len() as u64).as_str());
                m.append(" backups failed");
                m
            }
        },
        Err(e) => join2("Backup-all error: ", e.as_str()),
    }
}

/// The value that stands for an application in the selector: `name/namespace`.
pub open spec fn choice_value_spec(name: Seq<char>, ns: Seq<char>) -> Seq<char> {
    name + "/"@ + ns
}

/// The value that stands for an application in the selector.
pub fn choice_value(app: &App) -> (r: String)
    ensures
        r@ == choice_value_spec(app.name@, app.namespace@),
{
    join3(app.name.as_str(), "/", app.namespace.as_str())
}

/// The label of an application in the selector: `name (namespace)`.
pub fn choice_label(app: &App) -> (r: String)
    ensures
        r@ == app.name@ + " ("@ + app.namespace@ + ")"@,
{
    let mut r = join3(app.name.as_str(), " (", app.namespace.as_str());
    r.append(")");
    r
}

/// The first application whose selector value is `value`.
pub fn find_app(apps: &Vec<App>, value: &str) -> (r: Option<usize>)
    ensures
        match r {
            Some(i) => i < apps@.len() && choice_value_spec(apps@[i as int].name@, apps@[i as int].namespace@)
                == value@ && forall|k: int|
                0 <= k < i ==> choice_value_spec(#[trigger] apps@[k].name@, apps@[k].namespace@)
                    != value@,
            None => forall|k: int|
                0 <= k < apps@.len() ==> choice_value_spec(#[trigger] apps@[k].name@, apps@[k].namespace@)
                    != value@,
        },
{
    let mut i: usize = 0;
    while i < apps.len()
        invariant
            i <= apps.len(),
            forall|k: int|
                0 <= k < i ==> choice_value_spec(#[trigger] apps@[k].name@, apps@[k].namespace@)
                    != value@,
        decreases apps.len() - i,
    {
        let v = choice_value(&apps[i]);
        if same_text_owned(&v, value) {
            return Some(i);
        }
        i = i + 1;
    }
    None
}

/// The label of a snapshot in the restore selector: `id - time`.
pub fn snapshot_label(snap: &Snapshot) -> (r: String)
    ensures
        r@ == snap.id@ + " - "@ + snap.time@,
{
    join3(snap.id.as_str(), " - ", snap.time.as_str())
}

/// The namespace filter of the application list: none for the empty choice.
pub fn namespace_filter(selected: &str) -> (r: Option<&str>)
    ensures
        selected@.len() == 0 ==> r is None,
        selected@.len() > 0 ==> (r matches Some(s) && s@ == selected@),
{
    if selected.is_empty() {
        None
    } else {
        Some(selected)
    }
}

/// The snapshot time a restore asks for: none for the empty choice
/// ("Latest (no timestamp)"), which restores the latest snapshot; otherwise
/// the chosen time.
pub fn restore_choice(timestamp: &str) -> (r: Option<String>)
    ensures
        timestamp@.len() == 0 ==> r is None,
        timestamp@.len() > 0 ==> (r matches Some(t) && t@ == timestamp@),
{
    if timestamp.is_empty() {
        None
    } else {
        Some(timestamp.to_owned())
    }
}

} // verus!
