//! Names and time stamps made up from the clock: manual-sync triggers,
//! snapshot pods, and the start times of tasks.
use crate::text::{hex_text, hexadecimal, join2, join3, opt_text};
use vstd::string::*;
use vstd::prelude::*;

verus! {

/// Reads the system clock: nanoseconds since the Unix epoch
/// (`SystemTime::now()` measured from `UNIX_EPOCH`), `None` when the clock
/// stands before the epoch.  Nothing is claimed of the reading.
#[verifier::external_body]
pub(crate) fn clock_nanos() -> Option<u128> {
    match std::time::SystemTime::now().duration_since(std::time::UNIX_EPOCH) {
        Ok(d) => Some(d.as_nanos()),
        Err(_) => None,
    }
}

/// What `chrono::DateTime::from_timestamp(secs, 0)` formatted with
/// `%Y%m%d-%H%M%S` gives: the UTC time stamp of `secs` seconds after the
/// epoch, `None` where chrono has no date for it.
pub uninterp spec fn utc_stamp_text(secs: i64) -> Option<Seq<char>>;

/// What `chrono::DateTime::from_timestamp(secs, nanos)` in RFC 3339 form
/// (`to_rfc3339`) gives, `None` where chrono has no date for it.
pub uninterp spec fn rfc3339_text(secs: i64, nanos: u32) -> Option<Seq<char>>;

/// The UTC time stamp `YYYYmmdd-HHMMSS` of a time after the epoch
/// (`chrono::DateTime::from_timestamp` then `format("%Y%m%d-%H%M%S")`),
/// `None` where chrono has no date for it.  The contract names the outcome.
#[verifier::external_body]
fn utc_stamp_at(secs: i64) -> (r: Option<String>)
    ensures
        opt_text(r) == utc_stamp_text(secs),
{
    match chrono::DateTime::from_timestamp(secs, 0) {
        Some(t) => Some(t.format("%Y%m%d-%H%M%S").to_string()),
        None => None,
    }
}

/// The RFC 3339 text of a time after the epoch
/// (`chrono::DateTime::from_timestamp` then `to_rfc3339`), `None` where
/// chrono has no date for it.  The contract names the outcome.
#[verifier::external_body]
fn rfc3339_at(secs: i64, nanos: u32) -> (r: Option<String>)
    ensures
        opt_text(r) == rfc3339_text(secs, nanos),
{
    match chrono::DateTime::from_timestamp(secs, nanos) {
        Some(t) => Some(t.to_rfc3339()),
        None => None,
    }
}

/// A clock reading in nanoseconds split into whole seconds and the
/// nanoseconds of the second, when the seconds fit in an `i64`.
pub open spec fn epoch_secs(n: u128) -> Option<(i64, u32)> {
    if n / 1_000_000_000 <= i64::MAX {
        Some(((n / 1_000_000_000) as i64, (n % 1_000_000_000) as u32))
    } else {
        None
    }
}

fn split_nanos(n: u128) -> (r: Option<(i64, u32)>)
    ensures
        r == epoch_secs(n),
{
    let secs = n / 1_000_000_000;
    if secs <= i64::MAX as u128 {
        Some((secs as i64, (n % 1_000_000_000) as u32))
    } else {
        None
    }
}

/// The UTC time stamp of a clock reading; `0` when there is no reading or
/// no date for it.
pub open spec fn utc_stamp_of(nanos: Option<u128>) -> Seq<char> {
    match nanos {
        Some(n) => match epoch_secs(n) {
            Some((s, _)) => match utc_stamp_text(s) {
                Some(t) => t,
                None => "0"@,
            },
            None => "0"@,
        },
        None => "0"@,
    }
}

/// The UTC time stamp `YYYYmmdd-HHMMSS` of a clock reading (nanoseconds
/// since the Unix epoch); `0` when there is no reading or no date for it.
pub fn utc_stamp(nanos: Option<u128>) -> (r: String)
    ensures
        r@ == utc_stamp_of(nanos),
{
    proof {
        reveal_strlit("0");
    }
    match nanos {
        Some(n) => match split_nanos(n) {
            Some((s, _)) => match utc_stamp_at(s) {
                Some(t) => t,
                None => "0".to_owned(),
            },
            None => "0".to_owned(),
        },
        None => "0".to_owned(),
    }
}

/// The RFC 3339 time of a clock reading; empty when there is no reading or
/// no date for it.
pub open spec fn started_at_of(nanos: Option<u128>) -> Seq<char> {
    match nanos {
        Some(n) => match epoch_secs(n) {
            Some((s, ns)) => match rfc3339_text(s, ns) {
                Some(t) => t,
                None => Seq::empty(),
            },
            None => Seq::empty(),
        },
        None => Seq::empty(),
    }
}

/// The RFC 3339 time of a clock reading (nanoseconds since the Unix epoch);
/// empty when there is no reading or no date for it.
pub fn started_at(nanos: Option<u128>) -> (r: String)
    ensures
        r@ == started_at_of(nanos),
{
    match nanos {
        Some(n) => match split_nanos(n) {
            Some((s, ns)) => match rfc3339_at(s, ns) {
                Some(t) => t,
                None => String::new(),
            },
            None => String::new(),
        },
        None => String::new(),
    }
}

/// The trigger of a manual backup: `backup-` and the nanoseconds since the
/// Unix epoch in hexadecimal, or `backup-0` when the clock stands before
/// the epoch (`nanos` is `None`).
pub fn backup_trigger(nanos: Option<u128>) -> (r: String)
    ensures
        nanos matches Some(n) ==> r@ == "backup-"@ + hexadecimal(n as nat),
        nanos is None ==> r@ == "backup-0"@,
{
    match nanos {
        Some(n) => join2("backup-", hex_text(n).as_str()),
        None => "backup-0".to_owned(),
    }
}

/// The trigger a restore generates when the ReplicationDestination has none:
/// `restore-` and the UTC time stamp.
pub fn restore_trigger(stamp: &str) -> (r: String)
    ensures
        r@ == "restore-"@ + stamp@,
{
    join2("restore-", stamp)
}

/// The name of the Pod that lists an application's snapshots:
/// `volsync-snapshots-`, the application, `-`, and the nanoseconds since
/// the Unix epoch in hexadecimal (`0` when the clock stands before it).
pub open spec fn snapshot_pod_name_spec(app: Seq<char>, nanos: Option<u128>) -> Seq<char> {
    "volsync-snapshots-"@ + app + "-"@ + match nanos {
        Some(n) => hexadecimal(n as nat),
        None => "0"@,
    }
}

/// The name of the Pod that lists an application's snapshots.
pub fn snapshot_pod_name(app: &str, nanos: Option<u128>) -> (r: String)
    ensures
        r@ == snapshot_pod_name_spec(app@, nanos),
{
    let id = match nanos {
        Some(n) => hex_text(n),
        None => "0".to_owned(),
    };
    let mut r = join3("volsync-snapshots-", app, "-");
    r.append(id.as_str());
    r
}

} // verus!
