//! The data exchanged with the conversational backend: the query that is sent
//! to it, its blocking answer and the events of its stream.

use vstd::prelude::*;

verus! {

/// The user identifier sent to the backend when the request names none.
pub const DEFAULT_USER: &'static str = "unknow_user";

/// What is sent to the backend for one request.
#[derive(Debug, Clone, PartialEq)]
pub struct BackendQuery {
    /// The conversation as one text: the history, then the question.
    pub query: String,
    /// The end user on whose behalf the query is made.
    pub user: String,
    /// Whether the backend names the conversation by itself. Always `false`.
    pub auto_generate_name: bool,
}

/// The view of a [`BackendQuery`].
pub struct BackendQueryView {
    pub query: Seq<char>,
    pub user: Seq<char>,
    pub auto_generate_name: bool,
}

impl View for BackendQuery {
    type V = BackendQueryView;

    open spec fn view(&self) -> BackendQueryView {
        BackendQueryView {
            query: self.query@,
            user: self.user@,
            auto_generate_name: self.auto_generate_name,
        }
    }
}

/// What identifies a backend message.
#[derive(Debug, Clone, PartialEq)]
pub struct MessageBase {
    pub message_id: String,
    /// Unix time, in seconds.
    pub created_at: u64,
}

/// The view of a [`MessageBase`].
pub struct MessageBaseView {
    pub message_id: Seq<char>,
    pub created_at: u64,
}

impl View for MessageBase {
    type V = MessageBaseView;

    open spec fn view(&self) -> MessageBaseView {
        MessageBaseView { message_id: self.message_id@, created_at: self.created_at }
    }
}

/// The view of an optional [`MessageBase`].
pub open spec fn opt_base_view(base: Option<MessageBase>) -> Option<MessageBaseView> {
    match base {
        Some(b) => Some(b@),
        None => None,
    }
}

/// The backend's answer to a blocking call.
#[derive(Debug, PartialEq)]
pub struct BackendAnswer {
    pub base: MessageBase,
    /// The whole reply.
    pub answer: String,
    /// The backend's metadata, as a JSON object keyed by name.
    pub metadata: serde_json::Value,
}

/// The view of a [`BackendAnswer`].
pub struct BackendAnswerView {
    pub base: MessageBaseView,
    pub answer: Seq<char>,
    pub metadata: serde_json::Value,
}

impl View for BackendAnswer {
    type V = BackendAnswerView;

    open spec fn view(&self) -> BackendAnswerView {
        BackendAnswerView { base: self.base@, answer: self.answer@, metadata: self.metadata }
    }
}

/// One event of the backend's stream.
#[derive(Debug, PartialEq)]
pub enum BackendStreamEvent {
    /// A piece of the reply.
    Message { answer: String, id: String, base: Option<MessageBase> },
    /// A piece of the reply of an agent.
    AgentMessage { answer: String, id: String, base: Option<MessageBase> },
    /// The reply is complete. `metadata` is a JSON object keyed by name.
    MessageEnd { id: String, base: Option<MessageBase>, metadata: serde_json::Value },
    /// The backend reports a failure of its own.
    Error { message: String },
    /// Any other event, as the JSON object that the backend client writes it
    /// as; its member `event` names the kind.
    Other { payload: serde_json::Value },
}

/// The view of a [`BackendStreamEvent`].
pub enum BackendStreamEventView {
    Message { answer: Seq<char>, id: Seq<char>, base: Option<MessageBaseView> },
    AgentMessage { answer: Seq<char>, id: Seq<char>, base: Option<MessageBaseView> },
    MessageEnd { id: Seq<char>, base: Option<MessageBaseView>, metadata: serde_json::Value },
    Error { message: Seq<char> },
    Other { payload: serde_json::Value },
}

impl View for BackendStreamEvent {
    type V = BackendStreamEventView;

    open spec fn view(&self) -> BackendStreamEventView {
        match *self {
            BackendStreamEvent::Message { answer, id, base } => BackendStreamEventView::Message {
                answer: answer@,
                id: id@,
                base: opt_base_view(base),
            },
            BackendStreamEvent::AgentMessage {
                answer,
                id,
                base,
            } => BackendStreamEventView::AgentMessage {
                answer: answer@,
                id: id@,
                base: opt_base_view(base),
            },
            BackendStreamEvent::MessageEnd {
                id,
                base,
                metadata,
            } => BackendStreamEventView::MessageEnd { id: id@, base: opt_base_view(base), metadata },
            BackendStreamEvent::Error { message } => BackendStreamEventView::Error {
                message: message@,
            },
            BackendStreamEvent::Other { payload } => BackendStreamEventView::Other { payload },
        }
    }
}

/// What one pull from the backend's stream gives: an event, or the
/// description of a failure to read one.
pub type StreamItem = Result<BackendStreamEvent, String>;

/// The view of a [`StreamItem`].
pub open spec fn item_view(item: StreamItem) -> Result<BackendStreamEventView, Seq<char>> {
    match item {
        Ok(event) => Ok(event@),
        Err(description) => Err(description@),
    }
}

/// The views of a list of stream items, in order.
pub open spec fn item_views(items: Seq<StreamItem>) -> Seq<
    Result<BackendStreamEventView, Seq<char>>,
> {
    items.map_values(|i: StreamItem| item_view(i))
}

} // verus!
