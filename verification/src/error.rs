//! Errors of the Kubernetes calls and of the HTTP API.
use crate::json::{Json, JsonView};
use vstd::prelude::*;
use vstd::string::*;

verus! {

/// What went wrong while talking to the Kubernetes API or running a task.
pub enum KubeError {
    Api(String),
    Timeout(String),
    SnapshotFailed(String),
    NotFound(String),
    InvalidMethod(String),
}

/// The mathematical value of a `KubeError`.
pub enum ErrorView {
    Api(Seq<char>),
    Timeout(Seq<char>),
    SnapshotFailed(Seq<char>),
    NotFound(Seq<char>),
    InvalidMethod(Seq<char>),
}

impl View for KubeError {
    type V = ErrorView;

    open spec fn view(&self) -> ErrorView {
        match self {
            KubeError::Api(s) => ErrorView::Api(s@),
            KubeError::Timeout(s) => ErrorView::Timeout(s@),
            KubeError::SnapshotFailed(s) => ErrorView::SnapshotFailed(s@),
            KubeError::NotFound(s) => ErrorView::NotFound(s@),
            KubeError::InvalidMethod(s) => ErrorView::InvalidMethod(s@),
        }
    }
}

impl ErrorView {
    /// The text an error with this value reads as.
    pub open spec fn text(self) -> Seq<char> {
        match self {
            ErrorView::Api(s) => "Api error: "@ + s,
            ErrorView::Timeout(s) => "Timeout: "@ + s,
            ErrorView::SnapshotFailed(s) => "Snapshot failed: "@ + s,
            ErrorView::NotFound(s) => "Not found: "@ + s,
            ErrorView::InvalidMethod(s) => "Invalid HTTP method: "@ + s,
        }
    }
}

impl KubeError {
    /// The text this error reads as.
    pub open spec fn text(self) -> Seq<char> {
        match self {
            KubeError::Api(s) => "Api error: "@ + s@,
            KubeError::Timeout(s) => "Timeout: "@ + s@,
            KubeError::SnapshotFailed(s) => "Snapshot failed: "@ + s@,
            KubeError::NotFound(s) => "Not found: "@ + s@,
            KubeError::InvalidMethod(s) => "Invalid HTTP method: "@ + s@,
        }
    }

    /// The human-readable text of the error.
    pub fn message(&self) -> (r: String)
        ensures
            r@ == self.text(),
    {
        let (mut r, s) = match self {
            KubeError::Api(s) => ("Api error: ".to_owned(), s),
            KubeError::Timeout(s) => ("Timeout: ".to_owned(), s),
            KubeError::SnapshotFailed(s) => ("Snapshot failed: ".to_owned(), s),
            KubeError::NotFound(s) => ("Not found: ".to_owned(), s),
            KubeError::InvalidMethod(s) => ("Invalid HTTP method: ".to_owned(), s),
        };
        r.append(s.as_str());
        r
    }
}

/// The error an HTTP handler answers with.
pub enum ApiError {
    NotFound(String),
    Conflict(String),
    Error(String),
}

/// The HTTP error that a Kubernetes error is reported as.
pub open spec fn api_error_of(err: KubeError) -> ApiError {
    match err {
        KubeError::NotFound(m) => ApiError::NotFound(m),
        KubeError::SnapshotFailed(m) => ApiError::Conflict(m),
        KubeError::Timeout(m) => ApiError::Error(m),
        KubeError::Api(m) => ApiError::Error(m),
        KubeError::InvalidMethod(m) => ApiError::Error(m),
    }
}

impl From<KubeError> for ApiError {
    fn from(err: KubeError) -> (r: ApiError) {
        match err {
            KubeError::NotFound(m) => ApiError::NotFound(m),
            KubeError::SnapshotFailed(m) => ApiError::Conflict(m),
            KubeError::Timeout(m) => ApiError::Error(m),
            KubeError::Api(m) => ApiError::Error(m),
            KubeError::InvalidMethod(m) => ApiError::Error(m),
        }
    }
}

impl vstd::std_specs::convert::FromSpecImpl<KubeError> for ApiError {
    open spec fn obeys_from_spec() -> bool {
        true
    }

    open spec fn from_spec(v: KubeError) -> ApiError {
        api_error_of(v)
    }
}

impl ApiError {
    /// The message the error carries.
    pub open spec fn text(self) -> Seq<char> {
        match self {
            ApiError::NotFound(m) => m@,
            ApiError::Conflict(m) => m@,
            ApiError::Error(m) => m@,
        }
    }

    /// The HTTP status code of the answer.
    pub fn status_code(&self) -> (code: u16)
        ensures
            code == match self {
                ApiError::NotFound(_) => 404u16,
                ApiError::Conflict(_) => 409u16,
                ApiError::Error(_) => 500u16,
            },
    {
        match self {
            ApiError::NotFound(_) => 404,
            ApiError::Conflict(_) => 409,
            ApiError::Error(_) => 500,
        }
    }

    /// The message the answer carries.
    pub fn message(&self) -> (m: &String)
        ensures
            m@ == self.text(),
    {
        match self {
            ApiError::NotFound(m) => m,
            ApiError::Conflict(m) => m,
            ApiError::Error(m) => m,
        }
    }

    /// The JSON body of the answer: `{"error": message}`.
    pub fn body(&self) -> (j: Json)
        ensures
            j@ == JsonView::Object(seq![("error"@, JsonView::Str(self.text()))]),
    {
        let m = Json::Str(self.message().clone());
        assert(m@ == JsonView::Str(self.text()));
        let mut entries: Vec<(String, Json)> = Vec::new();
        entries.push(("error".to_owned(), m));
        let j = Json::Object(entries);
        assert(j@->Object_0[0] == ("error"@, JsonView::Str(self.text())));
        assert(j@->Object_0 =~= seq![("error"@, JsonView::Str(self.text()))]);
        j
    }
}

} // verus!
