//! The data carried on the OpenAI-compatible side of the adapter: the request,
//! the chat completion object and the streamed chunk, each with the
//! mathematical view that the contracts of the crate speak of.

use vstd::prelude::*;

verus! {

/// The tag that every response carries for the backend configuration.
pub const SYSTEM_FINGERPRINT: &'static str = "fp_44709d6fcb";

/// Who wrote a message.
#[derive(Debug, Clone, Copy, PartialEq, Eq, Structural)]
pub enum Role {
    User,
    System,
    Assistant,
    Tool,
    Function,
}

impl Role {
    /// The lower-case name of the role as it appears on the wire and in the
    /// history block of a backend query.
    pub open spec fn name(self) -> Seq<char> {
        match self {
            Role::User => "user"@,
            Role::System => "system"@,
            Role::Assistant => "assistant"@,
            Role::Tool => "tool"@,
            Role::Function => "function"@,
        }
    }

    /// Returns the lower-case name of the role.
    pub fn as_str(&self) -> (s: &'static str)
        ensures
            s@ == self.name(),
    {
        match self {
            Role::User => "user",
            Role::System => "system",
            Role::Assistant => "assistant",
            Role::Tool => "tool",
            Role::Function => "function",
        }
    }
}

/// The view of an optional string: the characters it holds, if any.
pub open spec fn opt_view(s: Option<String>) -> Option<Seq<char>> {
    match s {
        Some(t) => Some(t@),
        None => None,
    }
}

/// One message of a conversation.
#[derive(Debug, Clone, PartialEq)]
pub struct Message {
    /// Who wrote it.
    pub role: Role,
    /// What it says.
    pub content: String,
}

/// The view of a [`Message`].
pub struct MessageView {
    pub role: Role,
    pub content: Seq<char>,
}

impl View for Message {
    type V = MessageView;

    open spec fn view(&self) -> MessageView {
        MessageView { role: self.role, content: self.content@ }
    }
}

/// The views of a list of messages, in order.
pub open spec fn message_views(messages: Seq<Message>) -> Seq<MessageView> {
    messages.map_values(|m: Message| m@)
}

/// The output format that a request asks for.
#[derive(Debug, Clone, Copy, PartialEq, Eq, Structural)]
pub enum ResponseFormatType {
    JsonObject,
    Text,
}

/// An object that names the output format.
#[derive(Debug, Clone, Copy, PartialEq, Eq, Structural)]
pub struct ResponseFormat {
    pub type_: ResponseFormatType,
}

/// Options for a streamed response.
#[derive(Debug, Clone, Copy, PartialEq, Eq, Structural)]
pub struct StreamOptions {
    pub include_usage: Option<bool>,
}

/// A chat completion request. Only `messages`, `model`, `stream` and `user`
/// bear on what is sent to the backend; the other fields are accepted and
/// not forwarded. The sampling parameters of the wire format, which are
/// fractional numbers, are dropped before a request takes this form.
#[derive(Debug, Clone, PartialEq)]
pub struct ChatCompletionRequest {
    /// The conversation so far, oldest first. At least one message.
    pub messages: Vec<Message>,
    /// The model name, echoed in every response.
    pub model: String,
    pub logit_bias: Option<serde_json::Value>,
    pub logprobs: Option<bool>,
    pub top_logprobs: Option<u64>,
    pub max_tokens: Option<u64>,
    pub n: Option<u64>,
    pub response_format: Option<ResponseFormat>,
    pub seed: Option<u64>,
    pub stop: Option<serde_json::Value>,
    /// Whether the answer is streamed. Absent means no.
    pub stream: Option<bool>,
    pub stream_options: Option<StreamOptions>,
    pub tools: Option<serde_json::Value>,
    pub tool_choice: Option<serde_json::Value>,
    /// An identifier of the end user.
    pub user: Option<String>,
    pub function_call: Option<serde_json::Value>,
    pub functions: Option<serde_json::Value>,
}

/// The view of a [`ChatCompletionRequest`]: the fields that bear on what is
/// sent to the backend.
pub struct ChatCompletionRequestView {
    pub messages: Seq<MessageView>,
    pub model: Seq<char>,
    pub stream: Option<bool>,
    pub user: Option<Seq<char>>,
}

impl View for ChatCompletionRequest {
    type V = ChatCompletionRequestView;

    open spec fn view(&self) -> ChatCompletionRequestView {
        ChatCompletionRequestView {
            messages: message_views(self.messages@),
            model: self.model@,
            stream: self.stream,
            user: opt_view(self.user),
        }
    }
}

impl ChatCompletionRequest {
    /// A request for `model` with the given conversation and every optional
    /// field absent.
    pub fn new(messages: Vec<Message>, model: String) -> (r: Self)
        ensures
            r@ == (ChatCompletionRequestView {
                messages: message_views(messages@),
                model: model@,
                stream: None,
                user: None,
            }),
            r.messages == messages,
            r.model == model,
            r.logit_bias is None,
            r.logprobs is None,
            r.top_logprobs is None,
            r.max_tokens is None,
            r.n is None,
            r.response_format is None,
            r.seed is None,
            r.stop is None,
            r.stream is None,
            r.stream_options is None,
            r.tools is None,
            r.tool_choice is None,
            r.user is None,
            r.function_call is None,
            r.functions is None,
    {
        ChatCompletionRequest {
            messages,
            model,
            logit_bias: None,
            logprobs: None,
            top_logprobs: None,
            max_tokens: None,
            n: None,
            response_format: None,
            seed: None,
            stop: None,
            stream: None,
            stream_options: None,
            tools: None,
            tool_choice: None,
            user: None,
            function_call: None,
            functions: None,
        }
    }
}

/// The kind of object that a response is.
#[derive(Debug, Clone, Copy, PartialEq, Eq, Structural)]
pub enum ObjectKind {
    ChatCompletion,
    ChatCompletionChunk,
}

/// Why the model stopped.
#[derive(Debug, Clone, Copy, PartialEq, Eq, Structural)]
pub enum FinishReason {
    Stop,
    Length,
    ContentFilter,
    ToolCalls,
    FunctionCall,
}

/// Token counts of one request.
#[derive(Debug, Clone, Copy, PartialEq, Eq, Structural)]
pub struct Usage {
    pub completion_tokens: u64,
    pub prompt_tokens: u64,
    pub total_tokens: u64,
}

/// The one choice of a chat completion.
#[derive(Debug, Clone, PartialEq)]
pub struct ChatCompletionChoice {
    pub index: u64,
    pub finish_reason: FinishReason,
    pub logprobs: Option<serde_json::Value>,
    pub message: Message,
}

/// The view of a [`ChatCompletionChoice`].
pub struct ChatCompletionChoiceView {
    pub index: u64,
    pub finish_reason: FinishReason,
    pub logprobs: Option<serde_json::Value>,
    pub message: MessageView,
}

impl View for ChatCompletionChoice {
    type V = ChatCompletionChoiceView;

    open spec fn view(&self) -> ChatCompletionChoiceView {
        ChatCompletionChoiceView {
            index: self.index,
            finish_reason: self.finish_reason,
            logprobs: self.logprobs,
            message: self.message@,
        }
    }
}

/// A chat completion: the answer to a request that is not streamed.
#[derive(Debug, Clone, PartialEq)]
pub struct ChatCompletionResponse {
    pub id: String,
    pub choices: Vec<ChatCompletionChoice>,
    /// Unix time, in seconds.
    pub created: u64,
    pub model: String,
    pub system_fingerprint: String,
    pub object: ObjectKind,
    pub usage: Usage,
}

/// The view of a [`ChatCompletionResponse`].
pub struct ChatCompletionResponseView {
    pub id: Seq<char>,
    pub choices: Seq<ChatCompletionChoiceView>,
    pub created: u64,
    pub model: Seq<char>,
    pub system_fingerprint: Seq<char>,
    pub object: ObjectKind,
    pub usage: Usage,
}

impl ChatCompletionResponseView {
    /// What holds of every chat completion: exactly one choice, the fixed
    /// fingerprint, and the object kind of a whole completion.
    pub open spec fn well_formed(self) -> bool {
        &&& self.choices.len() == 1
        &&& self.system_fingerprint == SYSTEM_FINGERPRINT@
        &&& self.object == ObjectKind::ChatCompletion
    }
}

impl View for ChatCompletionResponse {
    type V = ChatCompletionResponseView;

    open spec fn view(&self) -> ChatCompletionResponseView {
        ChatCompletionResponseView {
            id: self.id@,
            choices: self.choices@.map_values(|c: ChatCompletionChoice| c@),
            created: self.created,
            model: self.model@,
            system_fingerprint: self.system_fingerprint@,
            object: self.object,
            usage: self.usage,
        }
    }
}

/// What a streamed chunk adds to the answer. Both fields absent is the empty
/// delta of the closing chunk.
#[derive(Debug, Clone, PartialEq)]
pub struct ChunkDelta {
    pub role: Option<Role>,
    pub content: Option<String>,
}

/// The view of a [`ChunkDelta`].
pub struct ChunkDeltaView {
    pub role: Option<Role>,
    pub content: Option<Seq<char>>,
}

impl View for ChunkDelta {
    type V = ChunkDeltaView;

    open spec fn view(&self) -> ChunkDeltaView {
        ChunkDeltaView { role: self.role, content: opt_view(self.content) }
    }
}

/// The one choice of a streamed chunk.
#[derive(Debug, Clone, PartialEq)]
pub struct ChatCompletionChunkChoice {
    pub index: u64,
    pub finish_reason: Option<FinishReason>,
    pub logprobs: Option<serde_json::Value>,
    pub delta: ChunkDelta,
}

/// The view of a [`ChatCompletionChunkChoice`].
pub struct ChatCompletionChunkChoiceView {
    pub index: u64,
    pub finish_reason: Option<FinishReason>,
    pub logprobs: Option<serde_json::Value>,
    pub delta: ChunkDeltaView,
}

impl View for ChatCompletionChunkChoice {
    type V = ChatCompletionChunkChoiceView;

    open spec fn view(&self) -> ChatCompletionChunkChoiceView {
        ChatCompletionChunkChoiceView {
            index: self.index,
            finish_reason: self.finish_reason,
            logprobs: self.logprobs,
            delta: self.delta@,
        }
    }
}

/// One chunk of a streamed chat completion.
#[derive(Debug, Clone, PartialEq)]
pub struct ChatCompletionChunkResponse {
    pub id: String,
    pub choices: Vec<ChatCompletionChunkChoice>,
    /// Unix time, in seconds.
    pub created: u64,
    pub model: String,
    pub system_fingerprint: String,
    pub object: ObjectKind,
    /// Present on the closing chunk only.
    pub usage: Option<Usage>,
}

/// The view of a [`ChatCompletionChunkResponse`].
pub struct ChatCompletionChunkResponseView {
    pub id: Seq<char>,
    pub choices: Seq<ChatCompletionChunkChoiceView>,
    pub created: u64,
    pub model: Seq<char>,
    pub system_fingerprint: Seq<char>,
    pub object: ObjectKind,
    pub usage: Option<Usage>,
}

impl ChatCompletionChunkResponseView {
    /// What holds of every chunk: exactly one choice, the fixed fingerprint,
    /// and the object kind of a chunk.
    pub open spec fn well_formed(self) -> bool {
        &&& self.choices.len() == 1
        &&& self.system_fingerprint == SYSTEM_FINGERPRINT@
        &&& self.object == ObjectKind::ChatCompletionChunk
    }
}

impl View for ChatCompletionChunkResponse {
    type V = ChatCompletionChunkResponseView;

    open spec fn view(&self) -> ChatCompletionChunkResponseView {
        ChatCompletionChunkResponseView {
            id: self.id@,
            choices: self.choices@.map_values(|c: ChatCompletionChunkChoice| c@),
            created: self.created,
            model: self.model@,
            system_fingerprint: self.system_fingerprint@,
            object: self.object,
            usage: self.usage,
        }
    }
}

impl Default for Role {
    /// The assistant.
    fn default() -> (r: Role)
        ensures
            r == Role::Assistant,
    {
        Role::Assistant
    }
}

impl Default for ObjectKind {
    /// A chat completion.
    fn default() -> (k: ObjectKind)
        ensures
            k == ObjectKind::ChatCompletion,
    {
        ObjectKind::ChatCompletion
    }
}

impl Default for FinishReason {
    /// A natural stop.
    fn default() -> (r: FinishReason)
        ensures
            r == FinishReason::Stop,
    {
        FinishReason::Stop
    }
}

impl Default for Message {
    /// An empty message of the assistant.
    fn default() -> (m: Message)
        ensures
            m@ == (MessageView { role: Role::Assistant, content: Seq::empty() }),
    {
        Message { role: Role::Assistant, content: String::new() }
    }
}

impl Default for ChunkDelta {
    /// The empty delta.
    fn default() -> (d: ChunkDelta)
        ensures
            d@ == (ChunkDeltaView { role: None, content: None }),
    {
        ChunkDelta { role: None, content: None }
    }
}

impl Default for ChatCompletionChoice {
    /// The first choice, stopped of its own accord, with an empty message of
    /// the assistant.
    fn default() -> (c: ChatCompletionChoice)
        ensures
            c@ == (ChatCompletionChoiceView {
                index: 0,
                finish_reason: FinishReason::Stop,
                logprobs: None,
                message: MessageView { role: Role::Assistant, content: Seq::empty() },
            }),
    {
        ChatCompletionChoice {
            index: 0,
            finish_reason: FinishReason::Stop,
            logprobs: None,
            message: Message { role: Role::Assistant, content: String::new() },
        }
    }
}

impl Default for ChatCompletionChunkChoice {
    /// The first choice, not finished, with the empty delta.
    fn default() -> (c: ChatCompletionChunkChoice)
        ensures
            c@ == (ChatCompletionChunkChoiceView {
                index: 0,
                finish_reason: None,
                logprobs: None,
                delta: ChunkDeltaView { role: None, content: None },
            }),
    {
        ChatCompletionChunkChoice {
            index: 0,
            finish_reason: None,
            logprobs: None,
            delta: ChunkDelta { role: None, content: None },
        }
    }
}

impl Default for ChatCompletionResponse {
    /// A chat completion with empty texts, the default choice, time zero and
    /// no tokens counted.
    fn default() -> (r: ChatCompletionResponse)
        ensures
            r@ == (ChatCompletionResponseView {
                id: Seq::empty(),
                choices: seq![
                    ChatCompletionChoiceView {
                        index: 0,
                        finish_reason: FinishReason::Stop,
                        logprobs: None,
                        message: MessageView { role: Role::Assistant, content: Seq::empty() },
                    },
                ],
                created: 0,
                model: Seq::empty(),
                system_fingerprint: SYSTEM_FINGERPRINT@,
                object: ObjectKind::ChatCompletion,
                usage: Usage { completion_tokens: 0, prompt_tokens: 0, total_tokens: 0 },
            }),
            r@.well_formed(),
    {
        let mut choices: Vec<ChatCompletionChoice> = Vec::new();
        choices.push(ChatCompletionChoice::default());
        let r = ChatCompletionResponse {
            id: String::new(),
            choices,
            created: 0,
            model: String::new(),
            system_fingerprint: SYSTEM_FINGERPRINT.to_owned(),
            object: ObjectKind::ChatCompletion,
            usage: Usage { completion_tokens: 0, prompt_tokens: 0, total_tokens: 0 },
        };
        assert(r@.choices =~= seq![
            ChatCompletionChoiceView {
                index: 0,
                finish_reason: FinishReason::Stop,
                logprobs: None,
                message: MessageView { role: Role::Assistant, content: Seq::empty() },
            },
        ]);
        r
    }
}

impl Default for ChatCompletionChunkResponse {
    /// A chunk with empty texts, the default choice, time zero and no usage.
    fn default() -> (r: ChatCompletionChunkResponse)
        ensures
            r@ == (ChatCompletionChunkResponseView {
                id: Seq::empty(),
                choices: seq![
                    ChatCompletionChunkChoiceView {
                        index: 0,
                        finish_reason: None,
                        logprobs: None,
                        delta: ChunkDeltaView { role: None, content: None },
                    },
                ],
                created: 0,
                model: Seq::empty(),
                system_fingerprint: SYSTEM_FINGERPRINT@,
                object: ObjectKind::ChatCompletionChunk,
                usage: None,
            }),
            r@.well_formed(),
    {
        let mut choices: Vec<ChatCompletionChunkChoice> = Vec::new();
        choices.push(ChatCompletionChunkChoice::default());
        let r = ChatCompletionChunkResponse {
            id: String::new(),
            choices,
            created: 0,
            model: String::new(),
            system_fingerprint: SYSTEM_FINGERPRINT.to_owned(),
            object: ObjectKind::ChatCompletionChunk,
            usage: None,
        };
        assert(r@.choices =~= seq![
            ChatCompletionChunkChoiceView {
                index: 0,
                finish_reason: None,
                logprobs: None,
                delta: ChunkDeltaView { role: None, content: None },
            },
        ]);
        r
    }
}

} // verus!
