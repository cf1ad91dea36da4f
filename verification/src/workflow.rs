//! The vocabulary shared by the long-running workflows (backup, restore,
//! snapshot listing): each is a state machine that the service drives by
//! performing the action it asks for and handing back what came of it.
use crate::error::{ErrorView, KubeError};
use crate::json::{opt_json, Json, JsonView};
use vstd::prelude::*;

verus! {

/// The HTTP methods the workflows use.
#[derive(PartialEq, Eq, Structural, Clone, Copy)]
pub enum Verb {
    Get,
    Post,
    Patch,
    Delete,
}

impl Verb {
    /// The method's name.
    pub open spec fn name(self) -> Seq<char> {
        match self {
            Verb::Get => "GET"@,
            Verb::Post => "POST"@,
            Verb::Patch => "PATCH"@,
            Verb::Delete => "DELETE"@,
        }
    }

    /// The method's name.
    pub fn method(&self) -> (r: &'static str)
        ensures
            r@ == self.name(),
    {
        match self {
            Verb::Get => "GET",
            Verb::Post => "POST",
            Verb::Patch => "PATCH",
            Verb::Delete => "DELETE",
        }
    }
}

/// What a workflow asks the service to do next.
pub enum Action<T> {
    /// Make the request (with retries) and hand back its JSON answer as
    /// `Event::Answer`.
    Call { verb: Verb, path: String, body: Option<Json> },
    /// Make a `GET` request (with retries) and hand back its body text as
    /// `Event::Text`.
    Fetch { path: String },
    /// Send one `DELETE` for `path`, ignore how it went, then hand back
    /// `Event::Done`.
    Discard { path: String },
    /// Read the monotonic clock and hand back `Event::Clock`.
    ReadClock,
    /// Sleep this many seconds, then hand back `Event::Done`.
    Sleep { secs: u64 },
    /// The workflow is over, with this outcome.
    Finish(Result<T, KubeError>),
}

/// What the service hands back to a workflow.
pub enum Event {
    /// Start the workflow.
    Go,
    /// The JSON answer of a `Call`.
    Answer(Result<Json, KubeError>),
    /// The body of a `Fetch`.
    Text(Result<String, KubeError>),
    /// The monotonic clock, in nanoseconds.
    Clock(u128),
    /// A `Discard` or `Sleep` is over.
    Done,
}

/// The mathematical value of an `Action`.
pub enum ActionView<V> {
    Call { verb: Verb, path: Seq<char>, body: Option<JsonView> },
    Fetch { path: Seq<char> },
    Discard { path: Seq<char> },
    ReadClock,
    Sleep { secs: u64 },
    Finish(Result<V, ErrorView>),
}

/// The mathematical value of an `Event`.
pub enum EventView {
    Go,
    Answer(Result<JsonView, ErrorView>),
    Text(Result<Seq<char>, ErrorView>),
    Clock(u128),
    Done,
}

impl<T: View> View for Action<T> {
    type V = ActionView<T::V>;

    open spec fn view(&self) -> ActionView<T::V> {
        match self {
            Action::Call { verb, path, body } => ActionView::Call {
                verb: *verb,
                path: path@,
                body: opt_json(*body),
            },
            Action::Fetch { path } => ActionView::Fetch { path: path@ },
            Action::Discard { path } => ActionView::Discard { path: path@ },
            Action::ReadClock => ActionView::ReadClock,
            Action::Sleep { secs } => ActionView::Sleep { secs: *secs },
            Action::Finish(r) => ActionView::Finish(
                match r {
                    Ok(v) => Ok(v@),
                    Err(e) => Err(e@),
                },
            ),
        }
    }
}

impl View for Event {
    type V = EventView;

    open spec fn view(&self) -> EventView {
        match self {
            Event::Go => EventView::Go,
            Event::Answer(r) => EventView::Answer(
                match r {
                    Ok(j) => Ok(j@),
                    Err(e) => Err(e@),
                },
            ),
            Event::Text(r) => EventView::Text(
                match r {
                    Ok(t) => Ok(t@),
                    Err(e) => Err(e@),
                },
            ),
            Event::Clock(t) => EventView::Clock(*t),
            Event::Done => EventView::Done,
        }
    }
}

/// Nanoseconds in `secs` seconds.
pub open spec fn secs_to_nanos(secs: u64) -> u128 {
    (secs * 1_000_000_000) as u128
}

/// Whether more than `secs` seconds passed from `start` to `now`.
pub open spec fn past(start: u128, now: u128, secs: u64) -> bool {
    now > start && now - start > secs_to_nanos(secs)
}

/// Whether more than `secs` seconds passed from `start` to `now` (the
/// comparison `Instant::elapsed() > Duration::from_secs(secs)` makes).
pub fn is_past(start: u128, now: u128, secs: u64) -> (r: bool)
    ensures
        r == past(start, now, secs),
{
    let limit = (secs as u128) * 1_000_000_000u128;
    now > start && now - start > limit
}

} // verus!
