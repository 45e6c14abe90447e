//! Failures of the adapter and how a failed blocking request is answered.

use crate::escape::{escape_json, is_control, json_decoded, json_escaped,
    lemma_json_escaped_is_clean, lemma_json_round_trip};
use vstd::prelude::*;
use vstd::std_specs::convert::FromSpecImpl;

verus! {

/// The status that every failed blocking request is answered with.
pub const ERROR_STATUS: u16 = 500;

/// The content type of the answer to a failed blocking request.
pub const ERROR_CONTENT_TYPE: &'static str = "application/json";

/// What an error body holds in front of the message.
pub const ERROR_BODY_HEAD: &'static str = "{\"error\": \"";

/// What an error body holds behind the message.
pub const ERROR_BODY_TAIL: &'static str = "\"}";

/// What went wrong.
#[derive(Debug, Clone, Copy, PartialEq, Eq, Structural)]
pub enum ErrorKind {
    /// The request is malformed or holds no message.
    Validation,
    /// The request carries no usable bearer token. Not fatal: the configured
    /// credential is used.
    AuthPassthroughAbsent,
    /// The backend answered with an error of its own.
    UpstreamApplication,
    /// The backend could not be reached or its answer not be read.
    Transport,
    /// A response could not be written as JSON.
    Serialization,
}

/// A failure of the backend call.
#[derive(Debug, Clone, PartialEq)]
pub enum BackendError {
    /// The backend answered with a structured error; `message` is its own.
    Application { message: String },
    /// Anything else: network, timeout, decoding.
    Transport { description: String },
}

/// The view of a [`BackendError`].
pub enum BackendErrorView {
    Application { message: Seq<char> },
    Transport { description: Seq<char> },
}

impl View for BackendError {
    type V = BackendErrorView;

    open spec fn view(&self) -> BackendErrorView {
        match *self {
            BackendError::Application { message } => BackendErrorView::Application {
                message: message@,
            },
            BackendError::Transport { description } => BackendErrorView::Transport {
                description: description@,
            },
        }
    }
}

/// A failure of the adapter.
#[derive(Debug, Clone, PartialEq)]
pub struct AppError {
    pub kind: ErrorKind,
    pub message: String,
}

/// The view of an [`AppError`].
pub struct AppErrorView {
    pub kind: ErrorKind,
    pub message: Seq<char>,
}

impl View for AppError {
    type V = AppErrorView;

    open spec fn view(&self) -> AppErrorView {
        AppErrorView { kind: self.kind, message: self.message@ }
    }
}

/// The answer to a failed blocking request.
#[derive(Debug, Clone, PartialEq)]
pub struct ErrorResponse {
    pub status: u16,
    pub content_type: String,
    pub body: String,
}

/// The body that renders a failure with the given message: a JSON object with
/// the one member `error`, whose value is the message as a JSON string, with
/// its quotes, backslashes and control characters escaped.
pub open spec fn error_body(message: Seq<char>) -> Seq<char> {
    ERROR_BODY_HEAD@ + json_escaped(message) + ERROR_BODY_TAIL@
}

/// The message that an error body carries: what the JSON string between the
/// head and the tail of the body stands for. `None` for a text that is no
/// error body.
pub open spec fn error_body_message(body: Seq<char>) -> Option<Seq<char>> {
    let head = ERROR_BODY_HEAD@;
    let tail = ERROR_BODY_TAIL@;
    if body.len() >= head.len() + tail.len() && body.take(head.len() as int) == head && body.skip(
        body.len() - tail.len(),
    ) == tail {
        json_decoded(body.subrange(head.len() as int, body.len() - tail.len()))
    } else {
        None
    }
}

/// The failure that a failed backend call becomes: a structured backend error
/// keeps the backend's own message, every other failure is a transport error
/// with its description.
pub open spec fn upstream_failure(err: BackendErrorView) -> AppErrorView {
    match err {
        BackendErrorView::Application { message } => AppErrorView {
            kind: ErrorKind::UpstreamApplication,
            message,
        },
        BackendErrorView::Transport { description } => AppErrorView {
            kind: ErrorKind::Transport,
            message: description,
        },
    }
}

impl AppError {
    /// A failure of the given kind with the given message.
    pub fn new(kind: ErrorKind, message: &str) -> (e: Self)
        ensures
            e@ == (AppErrorView { kind, message: message@ }),
    {
        AppError { kind, message: message.to_owned() }
    }

    /// Renders the failure as the answer to a blocking request. Status and
    /// content type are the same for every failure; the body is a JSON object
    /// that holds the message, whatever characters the message is made of.
    pub fn into_response(self) -> (r: ErrorResponse)
        ensures
            r.status == ERROR_STATUS,
            r.content_type@ == ERROR_CONTENT_TYPE@,
            r.body@ == error_body(self.message@),
    {
        let mut body = ERROR_BODY_HEAD.to_owned();
        body.append(escape_json(self.message.as_str()).as_str());
        body.append(ERROR_BODY_TAIL);
        ErrorResponse { status: ERROR_STATUS, content_type: ERROR_CONTENT_TYPE.to_owned(), body }
    }
}

impl From<BackendError> for AppError {
    /// A structured backend error keeps the backend's message; every other
    /// failure of the call is a transport error with its description.
    fn from(err: BackendError) -> (e: AppError)
        ensures
            e@ == upstream_failure(err@),
    {
        match err {
            BackendError::Application { message } => AppError {
                kind: ErrorKind::UpstreamApplication,
                message,
            },
            BackendError::Transport { description } => AppError {
                kind: ErrorKind::Transport,
                message: description,
            },
        }
    }
}

impl FromSpecImpl<BackendError> for AppError {
    open spec fn obeys_from_spec() -> bool {
        true
    }

    open spec fn from_spec(err: BackendError) -> AppError {
        match err {
            BackendError::Application { message } => AppError {
                kind: ErrorKind::UpstreamApplication,
                message,
            },
            BackendError::Transport { description } => AppError {
                kind: ErrorKind::Transport,
                message: description,
            },
        }
    }
}

/// The body of every failure carries its message: the JSON string in it
/// stands for the message, character for character, whatever the message
/// holds.
pub proof fn lemma_error_body_carries_message(message: Seq<char>)
    ensures
        error_body_message(error_body(message)) == Some(message),
{
    let head = ERROR_BODY_HEAD@;
    let tail = ERROR_BODY_TAIL@;
    let body = error_body(message);
    let escaped = json_escaped(message);
    assert(body.len() == head.len() + escaped.len() + tail.len());
    assert(body.take(head.len() as int) =~= head);
    assert(body.skip(body.len() - tail.len()) =~= tail);
    assert(body.subrange(head.len() as int, body.len() - tail.len()) =~= escaped);
    lemma_json_round_trip(message);
}

/// The body of a failure holds no control character, so that it is one
/// line, whatever the message holds.
pub proof fn lemma_error_body_has_no_control_character(message: Seq<char>)
    ensures
        forall|i: int|
            0 <= i < error_body(message).len() ==> !is_control(#[trigger] error_body(message)[i]),
{
    reveal_strlit("{\"error\": \"");
    reveal_strlit("\"}");
    let head = ERROR_BODY_HEAD@;
    let tail = ERROR_BODY_TAIL@;
    let escaped = json_escaped(message);
    let body = error_body(message);
    lemma_json_escaped_is_clean(message);
    assert forall|i: int| 0 <= i < body.len() implies !is_control(#[trigger] body[i]) by {
        if i < head.len() {
            assert(body[i] == head[i]);
        } else if i < head.len() + escaped.len() {
            assert(body[i] == escaped[i - head.len()]);
        } else {
            assert(body[i] == tail[i - head.len() - escaped.len()]);
        }
    }
}

} // verus!
