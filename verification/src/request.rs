//! How one call to the Kubernetes API is made and retried: the HTTP method
//! and headers, and what each attempt's outcome leads to.
use crate::error::{ErrorView, KubeError};
use crate::json::{json_from_str, json_from_str_spec, Json, JsonView};
use crate::text::{decimal, decimal_text, join2};
use vstd::prelude::*;
use vstd::string::*;

verus! {

#[verifier::external_type_specification]
#[verifier::external_body]
pub struct ExMethod(reqwest::Method);

/// A byte that may stand in an HTTP method token (RFC 9110 `tchar`).
pub open spec fn is_token_byte(b: u8) -> bool {
    (48 <= b && b <= 57) || (65 <= b && b <= 90) || (97 <= b && b <= 122) || b == 33 || b == 35
        || b == 36 || b == 37 || b == 38 || b == 39 || b == 42 || b == 43 || b == 45 || b == 46
        || b == 94 || b == 95 || b == 96 || b == 124 || b == 126
}

/// The methods `reqwest::Method::from_bytes` accepts: one or more token bytes.
pub open spec fn method_bytes_ok(b: Seq<u8>) -> bool {
    b.len() > 0 && forall|i: int| 0 <= i < b.len() ==> is_token_byte(#[trigger] b[i])
}

/// The method `reqwest::Method::from_bytes` makes of a method name; it
/// depends on the bytes alone.
pub uninterp spec fn method_named(b: Seq<u8>) -> reqwest::Method;

/// `reqwest::Method::from_bytes`: a method for a non-empty run of token
/// bytes, and none otherwise (its source checks each byte against the token
/// table); the method it makes is the one the bytes name.
#[verifier::external_body]
fn method_from_bytes(b: &[u8]) -> (r: Option<reqwest::Method>)
    ensures
        r is Some <==> method_bytes_ok(b@),
        r matches Some(m) ==> m == method_named(b@),
{
    reqwest::Method::from_bytes(b).ok()
}

/// The HTTP method named `method`, or the error the request fails with when
/// it is not a valid method.
pub fn http_method(method: &str) -> (r: Result<reqwest::Method, KubeError>)
    ensures
        r is Ok <==> method_bytes_ok(method.spec_bytes()),
        r matches Ok(m) ==> m == method_named(method.spec_bytes()),
        r matches Err(e) ==> e@ == ErrorView::InvalidMethod("Invalid HTTP method: "@ + method@),
{
    match method_from_bytes(method.as_bytes()) {
        Some(m) => Ok(m),
        None => Err(KubeError::InvalidMethod(join2("Invalid HTTP method: ", method))),
    }
}

/// The content type of a request body: a merge patch for `PATCH`, plain JSON otherwise.
pub open spec fn content_type_spec(method: Seq<char>) -> Seq<char> {
    if method == "PATCH"@ {
        "application/merge-patch+json"@
    } else {
        "application/json"@
    }
}

/// The content type of a request body sent with `method`.
pub fn content_type(method: &str) -> (r: &'static str)
    ensures
        r@ == content_type_spec(method@),
{
    if method.to_owned() == "PATCH".to_owned() {
        "application/merge-patch+json"
    } else {
        "application/json"
    }
}

/// The `Authorization` header value for a ServiceAccount token.
pub fn bearer(token: &str) -> (r: String)
    ensures
        r@ == "Bearer "@ + token@,
{
    join2("Bearer ", token)
}

/// The reason phrase `reqwest::StatusCode` knows for a code
/// (`canonical_reason`, or `<unknown status code>`).
pub uninterp spec fn status_reason(code: u16) -> Seq<char>;

/// How `reqwest::StatusCode` displays: the code, a space, the reason phrase.
pub open spec fn status_text_spec(code: u16) -> Seq<char> {
    decimal(code as nat) + " "@ + status_reason(code)
}

/// The `Display` text of the status code `code` (valid codes are 100..=999).
#[verifier::external_body]
pub(crate) fn status_text(code: u16) -> (r: String)
    requires
        100 <= code <= 999,
    ensures
        r@ == decimal(code as nat) + " "@ + status_reason(code),
{
    match reqwest::StatusCode::from_u16(code) {
        Ok(s) => s.to_string(),
        Err(_) => String::new(),
    }
}

/// How many times a request is tried.
pub const MAX_ATTEMPTS: u32 = 3;

/// How one attempt at a request went.
pub enum Attempt {
    /// The request could not be sent, or no answer came.
    Unsent(KubeError),
    /// An answer came with this status; `body` is its text, or the message
    /// of the error that reading it gave.
    Answered { status: u16, body: Result<String, String> },
}

/// What to do after an attempt.
pub enum NextStep {
    /// Wait `delay_secs` seconds and try again.
    Retry { delay_secs: u64, error: KubeError },
    /// Give up with this error.
    Fail(KubeError),
    /// The request succeeded with this body.
    Done(String),
}

/// The mathematical value of an `Attempt`.
pub enum AttemptView {
    Unsent(ErrorView),
    Answered { status: u16, body: Result<Seq<char>, Seq<char>> },
}

/// The mathematical value of a `NextStep`.
pub enum NextView {
    Retry { delay_secs: u64, error: ErrorView },
    Fail(ErrorView),
    Done(Seq<char>),
}

impl View for Attempt {
    type V = AttemptView;

    open spec fn view(&self) -> AttemptView {
        match self {
            Attempt::Unsent(e) => AttemptView::Unsent(e@),
            Attempt::Answered { status, body } => AttemptView::Answered {
                status: *status,
                body: match body {
                    Ok(t) => Ok(t@),
                    Err(m) => Err(m@),
                },
            },
        }
    }
}

impl View for NextStep {
    type V = NextView;

    open spec fn view(&self) -> NextView {
        match self {
            NextStep::Retry { delay_secs, error } => NextView::Retry {
                delay_secs: *delay_secs,
                error: error@,
            },
            NextStep::Fail(e) => NextView::Fail(e@),
            NextStep::Done(t) => NextView::Done(t@),
        }
    }
}

/// Whether another attempt may follow attempt number `attempt` (counted from 0).
pub open spec fn may_retry(attempt: u32) -> bool {
    attempt + 1 < MAX_ATTEMPTS
}

/// The wait before the attempt after attempt number `attempt`: 1 s, then 2 s.
pub open spec fn backoff(attempt: u32) -> u64 {
    if attempt == 0 {
        1
    } else {
        2
    }
}

/// The body text of an error answer; nothing when it could not be read.
pub open spec fn body_or_empty(body: Result<Seq<char>, Seq<char>>) -> Seq<char> {
    match body {
        Ok(t) => t,
        Err(_) => Seq::empty(),
    }
}

/// What follows attempt number `attempt` at a request for `path`:
/// a missing resource fails at once; rate limiting, server errors and
/// failures to send are retried while attempts remain; other client errors
/// fail; any other answer succeeds with its body.
pub open spec fn next_step(attempt: u32, path: Seq<char>, outcome: AttemptView) -> NextView {
    match outcome {
        AttemptView::Unsent(e) => if may_retry(attempt) {
            NextView::Retry { delay_secs: backoff(attempt), error: e }
        } else {
            NextView::Fail(
                ErrorView::Api("Request failed after 3 retries for "@ + path + ": "@ + e.text()),
            )
        },
        AttemptView::Answered { status, body } => if status == 404 {
            NextView::Fail(ErrorView::NotFound("Resource not found at "@ + path))
        } else if status == 429 {
            if may_retry(attempt) {
                NextView::Retry {
                    delay_secs: backoff(attempt),
                    error: ErrorView::Api("Rate limited on "@ + path),
                }
            } else {
                NextView::Fail(ErrorView::Api("Rate limited on "@ + path + " after 3 retries"@))
            }
        } else if 400 <= status < 500 {
            NextView::Fail(
                ErrorView::Api(
                    "Client error "@ + status_text_spec(status) + " on "@ + path + ": "@
                        + body_or_empty(body),
                ),
            )
        } else if 500 <= status < 600 {
            let m = "Server error "@ + status_text_spec(status) + " on "@ + path + ": "@
                + body_or_empty(body);
            if may_retry(attempt) {
                NextView::Retry { delay_secs: backoff(attempt), error: ErrorView::Api(m) }
            } else {
                NextView::Fail(ErrorView::Api(m))
            }
        } else {
            match body {
                Ok(t) => NextView::Done(t),
                Err(m) => NextView::Fail(ErrorView::Api(m)),
            }
        },
    }
}

/// Whether the body of an answer with `status` is read at all: it is not
/// for a missing resource or rate limiting.
pub fn body_needed(status: u16) -> (r: bool)
    ensures
        r == (status != 404 && status != 429),
{
    status != 404 && status != 429
}

fn body_text(body: Result<String, String>) -> (r: String)
    ensures
        r@ == body_or_empty(match body {
            Ok(t) => Ok(t@),
            Err(m) => Err(m@),
        }),
{
    match body {
        Ok(t) => t,
        Err(_) => String::new(),
    }
}

/// Decides what follows attempt number `attempt` at a request for `path`.
pub fn after_attempt(attempt: u32, path: &str, outcome: Attempt) -> (r: NextStep)
    requires
        attempt < MAX_ATTEMPTS,
        outcome matches Attempt::Answered { status, .. } ==> 100 <= status <= 999,
    ensures
        r@ == next_step(attempt, path@, outcome@),
{
    let retry = attempt + 1 < MAX_ATTEMPTS;
    let delay: u64 = if attempt == 0 {
        1
    } else {
        2
    };
    match outcome {
        Attempt::Unsent(e) => if retry {
            NextStep::Retry { delay_secs: delay, error: e }
        } else {
            let mut m = "Request failed after 3 retries for ".to_owned();
            m.append(path);
            m.append(": ");
            m.append(e.message().as_str());
            NextStep::Fail(KubeError::Api(m))
        },
        Attempt::Answered { status, body } => if status == 404 {
            NextStep::Fail(KubeError::NotFound(join2("Resource not found at ", path)))
        } else if status == 429 {
            if retry {
                NextStep::Retry { delay_secs: delay, error: KubeError::Api(join2("Rate limited on ", path)) }
            } else {
                let mut m = join2("Rate limited on ", path);
                m.append(" after 3 retries");
                NextStep::Fail(KubeError::Api(m))
            }
        } else if 400 <= status && status < 500 {
            let mut m = "Client error ".to_owned();
            m.append(status_text(status).as_str());
            m.append(" on ");
            m.append(path);
            m.append(": ");
            m.append(body_text(body).as_str());
            NextStep::Fail(KubeError::Api(m))
        } else if 500 <= status && status < 600 {
            let mut m = "Server error ".to_owned();
            m.append(status_text(status).as_str());
            m.append(" on ");
            m.append(path);
            m.append(": ");
            m.append(body_text(body).as_str());
            if retry {
                NextStep::Retry { delay_secs: delay, error: KubeError::Api(m) }
            } else {
                NextStep::Fail(KubeError::Api(m))
            }
        } else {
            match body {
                Ok(t) => NextStep::Done(t),
                Err(m) => NextStep::Fail(KubeError::Api(m)),
            }
        },
    }
}

/// The JSON answer of a request: the body parsed as JSON, a parse failure
/// reported as an API error with the parser's message.
pub open spec fn json_answer_spec(text: Result<Seq<char>, ErrorView>) -> Result<JsonView, ErrorView> {
    match text {
        Ok(t) => match json_from_str_spec(t) {
            Ok(j) => Ok(j),
            Err(m) => Err(ErrorView::Api(m)),
        },
        Err(e) => Err(e),
    }
}

/// Reads the JSON answer of a request from its body.
pub fn json_answer(text: Result<String, KubeError>) -> (r: Result<Json, KubeError>)
    ensures
        match r {
            Ok(j) => json_answer_spec(match text {
                Ok(t) => Ok(t@),
                Err(e) => Err(e@),
            }) == Ok::<JsonView, ErrorView>(j@),
            Err(e) => json_answer_spec(match text {
                Ok(t) => Ok(t@),
                Err(e) => Err(e@),
            }) == Err::<JsonView, ErrorView>(e@),
        },
{
    match text {
        Ok(t) => match json_from_str(t.as_str()) {
            Ok(j) => Ok(j),
            Err(m) => Err(KubeError::Api(m)),
        },
        Err(e) => Err(e),
    }
}

/// No request is tried more than three times: after the third attempt
/// nothing is retried.
pub proof fn law_retries_bounded(attempt: u32, path: Seq<char>, outcome: AttemptView)
    requires
        attempt + 1 >= MAX_ATTEMPTS,
    ensures
        !(next_step(attempt, path, outcome) is Retry),
{
}

/// A retry waits 1 s after the first attempt and 2 s after the second.
pub proof fn law_backoff(attempt: u32, path: Seq<char>, outcome: AttemptView)
    requires
        next_step(attempt, path, outcome) is Retry,
    ensures
        attempt < 2,
        next_step(attempt, path, outcome)->delay_secs == (if attempt == 0 {
            1u64
        } else {
            2u64
        }),
{
}

/// A missing resource is never retried and is reported as not found.
pub proof fn law_not_found_is_final(attempt: u32, path: Seq<char>, body: Result<Seq<char>, Seq<char>>)
    ensures
        next_step(attempt, path, AttemptView::Answered { status: 404, body })
            == NextView::Fail(ErrorView::NotFound("Resource not found at "@ + path)),
{
}

/// Server errors (any status from 500 to 599), rate limiting and failures
/// to send are retried while attempts remain: after the first attempt with
/// a wait of 1 s, after the second with a wait of 2 s.
pub proof fn law_transient_failures_retried(attempt: u32, path: Seq<char>, outcome: AttemptView)
    requires
        attempt + 1 < 3,
        match outcome {
            AttemptView::Answered { status, .. } => (500 <= status <= 599) || status == 429,
            AttemptView::Unsent(_) => true,
        },
    ensures
        next_step(attempt, path, outcome) is Retry,
        next_step(attempt, path, outcome)->delay_secs == (if attempt == 0 {
            1u64
        } else {
            2u64
        }),
        match outcome {
            AttemptView::Answered { status, body } => 500 <= status <= 599 ==> next_step(
                attempt,
                path,
                outcome,
            )->error == ErrorView::Api(
                "Server error "@ + status_text_spec(status) + " on "@ + path + ": "@ + body_or_empty(body),
            ),
            AttemptView::Unsent(e) => next_step(attempt, path, outcome)->error == e,
        },
{
}

} // verus!
