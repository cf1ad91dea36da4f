//! Settings of the service, as read from its environment, and the names the
//! VolSync objects of an application are derived from.
use crate::text::{opt_text, contains, has_infix, join2, parse_u64, parse_u64_spec, strip_suffix, strip_suffix_spec};
use crate::models::AppConfig;
use vstd::prelude::*;
use vstd::string::*;

verus! {

/// The raw environment variables the service reads; `None` where a variable
/// is unset or not valid Unicode.
pub struct Environment {
    pub kubernetes_service_host: Option<String>,
    pub kubernetes_service_port: Option<String>,
    pub volsync_api_group: Option<String>,
    pub volsync_source_suffix: Option<String>,
    pub volsync_dest_suffix: Option<String>,
    pub volsync_pvc_suffix: Option<String>,
    pub refresh_interval_secs: Option<String>,
    pub backup_all_concurrency: Option<String>,
    pub poll_timeout_secs: Option<String>,
    pub poll_interval_secs: Option<String>,
    pub pod_startup_timeout_secs: Option<String>,
    pub restic_image: Option<String>,
}

/// The settings the service runs with.
pub struct Settings {
    pub base_url: String,
    pub api_group: String,
    pub source_suffix: String,
    pub dest_suffix: String,
    pub pvc_suffix: String,
    pub refresh_interval_secs: u64,
    pub backup_all_concurrency: u64,
    pub poll_timeout_secs: u64,
    pub poll_interval_secs: u64,
    pub pod_startup_timeout_secs: u64,
    pub restic_image: String,
}

/// A text setting: the variable's value, or `default` when it is unset.
pub open spec fn text_setting(raw: Option<Seq<char>>, default: Seq<char>) -> Seq<char> {
    match raw {
        Some(v) => v,
        None => default,
    }
}

/// A number-of-seconds setting: the variable read as a `u64`, or `default`
/// when it is unset or does not read as one.
pub open spec fn seconds_setting(raw: Option<Seq<char>>, default: u64) -> u64 {
    match raw {
        Some(v) => match parse_u64_spec(v) {
            Some(n) => n,
            None => default,
        },
        None => default,
    }
}

/// The port the Kubernetes API is reached on when none is configured.
pub open spec fn default_port(host: Seq<char>) -> Seq<char> {
    if host.len() == 0 {
        "8080"@
    } else {
        "443"@
    }
}

/// The address of the Kubernetes API: plain HTTP on localhost when no host
/// is known, otherwise HTTPS, with an IPv6 host put in brackets.
pub open spec fn base_url_spec(host: Seq<char>, port: Seq<char>) -> Seq<char> {
    if host.len() == 0 {
        "http://localhost:"@ + port
    } else if has_infix(host, ":"@) {
        "https://["@ + host + "]:"@ + port
    } else {
        "https://"@ + host + ":"@ + port
    }
}

fn text_or(raw: &Option<String>, default: &str) -> (r: String)
    ensures
        r@ == text_setting(opt_text(*raw), default@),
{
    match raw {
        Some(v) => v.clone(),
        None => default.to_owned(),
    }
}

/// Reads a number-of-seconds setting.
pub fn seconds_or(raw: &Option<String>, default: u64) -> (r: u64)
    ensures
        r == seconds_setting(opt_text(*raw), default),
{
    match raw {
        Some(v) => match parse_u64(v.as_str()) {
            Some(n) => n,
            None => default,
        },
        None => default,
    }
}

/// The address of the Kubernetes API for a host and port.
pub fn base_url(host: &str, port: &str) -> (r: String)
    ensures
        r@ == base_url_spec(host@, port@),
{
    if host.is_empty() {
        join2("http://localhost:", port)
    } else if contains(host, ":") {
        let mut r = "https://[".to_owned();
        r.append(host);
        r.append("]:");
        r.append(port);
        r
    } else {
        let mut r = "https://".to_owned();
        r.append(host);
        r.append(":");
        r.append(port);
        r
    }
}

impl Settings {
    /// The settings for an environment, with the documented defaults:
    /// API group `volsync.backube`, suffixes `-backup`, `-bootstrap` and
    /// `-pvc`, refresh every 3600 s, 5 concurrent backups, poll timeout
    /// 300 s, poll interval 2 s, pod start-up timeout 60 s, image
    /// `restic/restic:latest`.
    pub fn from_environment(env: &Environment) -> (s: Settings)
        ensures
            ({
                let host = text_setting(opt_text(env.kubernetes_service_host), ""@);
                let port = text_setting(opt_text(env.kubernetes_service_port), default_port(host));
                &&& s.base_url@ == base_url_spec(host, port)
                &&& s.api_group@ == text_setting(opt_text(env.volsync_api_group), "volsync.backube"@)
                &&& s.source_suffix@ == text_setting(opt_text(env.volsync_source_suffix), "-backup"@)
                &&& s.dest_suffix@ == text_setting(opt_text(env.volsync_dest_suffix), "-bootstrap"@)
                &&& s.pvc_suffix@ == text_setting(opt_text(env.volsync_pvc_suffix), "-pvc"@)
                &&& s.restic_image@ == text_setting(opt_text(env.restic_image), "restic/restic:latest"@)
                &&& s.refresh_interval_secs == seconds_setting(opt_text(env.refresh_interval_secs), 3600)
                &&& s.backup_all_concurrency == seconds_setting(opt_text(env.backup_all_concurrency), 5)
                &&& s.poll_timeout_secs == seconds_setting(opt_text(env.poll_timeout_secs), 300)
                &&& s.poll_interval_secs == seconds_setting(opt_text(env.poll_interval_secs), 2)
                &&& s.pod_startup_timeout_secs == seconds_setting(opt_text(env.pod_startup_timeout_secs), 60)
            }),
    {
        proof {
            reveal_strlit("");
        }
        let host = text_or(&env.kubernetes_service_host, "");
        let default = if host.as_str().is_empty() {
            "8080"
        } else {
            "443"
        };
        let port = text_or(&env.kubernetes_service_port, default);
        Settings {
            base_url: base_url(host.as_str(), port.as_str()),
            api_group: text_or(&env.volsync_api_group, "volsync.backube"),
            source_suffix: text_or(&env.volsync_source_suffix, "-backup"),
            dest_suffix: text_or(&env.volsync_dest_suffix, "-bootstrap"),
            pvc_suffix: text_or(&env.volsync_pvc_suffix, "-pvc"),
            refresh_interval_secs: seconds_or(&env.refresh_interval_secs, 3600),
            backup_all_concurrency: seconds_or(&env.backup_all_concurrency, 5),
            poll_timeout_secs: seconds_or(&env.poll_timeout_secs, 300),
            poll_interval_secs: seconds_or(&env.poll_interval_secs, 2),
            pod_startup_timeout_secs: seconds_or(&env.pod_startup_timeout_secs, 60),
            restic_image: text_or(&env.restic_image, "restic/restic:latest"),
        }
    }
}

/// The application's name without the ReplicationSource suffix; the name
/// itself where it does not end with the suffix or is nothing but it.
pub open spec fn base_name_spec(app: Seq<char>, source_suffix: Seq<char>) -> Seq<char> {
    match strip_suffix_spec(app, source_suffix) {
        Some(b) => if b.len() > 0 {
            b
        } else {
            app
        },
        None => app,
    }
}

/// The name of the ReplicationDestination of an application: the name
/// without the source suffix (where it has it), then the destination suffix.
pub open spec fn dest_name_spec(app: Seq<char>, source_suffix: Seq<char>, dest_suffix: Seq<char>) -> Seq<char> {
    match strip_suffix_spec(app, source_suffix) {
        Some(b) => b + dest_suffix,
        None => app + dest_suffix,
    }
}

/// Names derive from the ReplicationSource name as documented: for a base
/// name `b`, the source `b` + source suffix has the destination `b` +
/// destination suffix, and (when `b` is not empty) the base name `b`, so
/// its PVC is `b` + PVC suffix.
pub proof fn law_names_from_source_name(b: Seq<char>, source_suffix: Seq<char>, dest_suffix: Seq<char>)
    ensures
        dest_name_spec(b + source_suffix, source_suffix, dest_suffix) == b + dest_suffix,
        b.len() > 0 ==> base_name_spec(b + source_suffix, source_suffix) == b,
{
    let app = b + source_suffix;
    assert(app.skip(app.len() - source_suffix.len()) =~= source_suffix);
    assert(app.take(app.len() - source_suffix.len()) =~= b);
    assert(strip_suffix_spec(app, source_suffix) == Some(b));
}

impl Settings {
    /// The configuration the front end reads.
    pub fn app_config(&self) -> (c: AppConfig)
        ensures
            c.refresh_interval_secs == self.refresh_interval_secs,
    {
        AppConfig { refresh_interval_secs: self.refresh_interval_secs }
    }

    /// The base name of an application (`gitea-backup` gives `gitea`).
    pub fn app_base_name(&self, app: &str) -> (r: String)
        ensures
            r@ == base_name_spec(app@, self.source_suffix@),
    {
        match strip_suffix(app, self.source_suffix.as_str()) {
            Some(b) => if b.as_str().is_empty() {
                app.to_owned()
            } else {
                b
            },
            None => app.to_owned(),
        }
    }

    /// The ReplicationDestination name of an application
    /// (`gitea-backup` gives `gitea-bootstrap`).
    pub fn dest_crd_name(&self, app: &str) -> (r: String)
        ensures
            r@ == dest_name_spec(app@, self.source_suffix@, self.dest_suffix@),
    {
        match strip_suffix(app, self.source_suffix.as_str()) {
            Some(b) => join2(b.as_str(), self.dest_suffix.as_str()),
            None => join2(app, self.dest_suffix.as_str()),
        }
    }

    /// The name of the application's PVC: its base name and the PVC suffix.
    pub fn pvc_name(&self, app: &str) -> (r: String)
        ensures
            r@ == base_name_spec(app@, self.source_suffix@) + self.pvc_suffix@,
    {
        let b = self.app_base_name(app);
        join2(b.as_str(), self.pvc_suffix.as_str())
    }
}

} // verus!
