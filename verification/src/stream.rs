//! From the events of the backend's stream to the frames of a server-sent
//! event stream.
//!
//! A stream is always three things one after the other: one preamble frame,
//! one frame for each item that the backend's stream gives, in the order in
//! which they come, and one terminator. A failure inside the stream, reported
//! by the backend or met while reading, is a frame like any other and does not
//! end the stream.

use crate::backend::{item_view, opt_base_view, BackendStreamEvent, BackendStreamEventView,
    MessageBase, MessageBaseView, StreamItem};
use crate::json::{json_member, json_text, member, to_text};
use crate::model::{ChatCompletionChunkChoice, ChatCompletionChunkChoiceView,
    ChatCompletionChunkResponse, ChatCompletionChunkResponseView, ChunkDelta, ChunkDeltaView,
    FinishReason, ObjectKind, Role, Usage, SYSTEM_FINGERPRINT};
use crate::text::{trim_matching, trim_matching_of};
use crate::usage::usage_of;
use vstd::prelude::*;

verus! {

/// The comment that opens every stream.
pub const PREAMBLE_COMMENT: &'static str = "streaming chat completions";

/// The seconds after which a client retries, and between two heartbeats.
pub const KEEP_ALIVE_SECS: u64 = 30;

/// The data of the frame that closes every stream.
pub const TERMINATOR: &'static str = "[DONE]";

/// What stands in front of the message of a failure inside the stream.
pub const UPSTREAM_PREFIX: &'static str = "upstream: ";

/// What stands in front of the kind of a skipped event.
pub const SKIP_PREFIX: &'static str = "skip dify message event: ";

/// The kind named for a skipped event that does not say what it is.
pub const UNKNOWN_KIND: &'static str = "unknown";

/// One frame of a server-sent event stream.
#[derive(Debug, Clone, PartialEq)]
pub enum SseFrame {
    /// A comment and the retry directive in one frame.
    Preamble { comment: String, retry_secs: u64 },
    /// A data frame that carries a chunk as JSON.
    Chunk(ChatCompletionChunkResponse),
    /// A data frame that carries a failure, as an object with the member
    /// `error`, itself an object with the member `message`.
    Error { message: String },
    /// A comment, which clients do not show.
    Comment { text: String },
    /// The data frame that holds the terminator and nothing else.
    Done,
}

/// The view of an [`SseFrame`].
pub enum SseFrameView {
    Preamble { comment: Seq<char>, retry_secs: u64 },
    Chunk(ChatCompletionChunkResponseView),
    Error { message: Seq<char> },
    Comment { text: Seq<char> },
    Done,
}

impl View for SseFrame {
    type V = SseFrameView;

    open spec fn view(&self) -> SseFrameView {
        match *self {
            SseFrame::Preamble { comment, retry_secs } => SseFrameView::Preamble {
                comment: comment@,
                retry_secs,
            },
            SseFrame::Chunk(chunk) => SseFrameView::Chunk(chunk@),
            SseFrame::Error { message } => SseFrameView::Error { message: message@ },
            SseFrame::Comment { text } => SseFrameView::Comment { text: text@ },
            SseFrame::Done => SseFrameView::Done,
        }
    }
}

/// The view of an optional frame.
pub open spec fn opt_frame_view(frame: Option<SseFrame>) -> Option<SseFrameView> {
    match frame {
        Some(f) => Some(f@),
        None => None,
    }
}

/// The views of a list of frames, in order.
pub open spec fn frame_views(frames: Seq<SseFrame>) -> Seq<SseFrameView> {
    frames.map_values(|f: SseFrame| f@)
}

/// The id of a chunk: the message id of the event's base record where it has
/// one, else the event's own id.
pub open spec fn chunk_id(id: Seq<char>, base: Option<MessageBaseView>) -> Seq<char> {
    match base {
        Some(b) => b.message_id,
        None => id,
    }
}

/// The time of a chunk: that of the event's base record where it has one,
/// else zero.
pub open spec fn chunk_created(base: Option<MessageBaseView>) -> u64 {
    match base {
        Some(b) => b.created_at,
        None => 0,
    }
}

/// A chunk with one choice.
pub open spec fn chunk(
    id: Seq<char>,
    created: u64,
    delta: ChunkDeltaView,
    finish_reason: Option<FinishReason>,
    usage: Option<Usage>,
    model: Seq<char>,
) -> ChatCompletionChunkResponseView {
    ChatCompletionChunkResponseView {
        id,
        choices: seq![
            ChatCompletionChunkChoiceView { index: 0, finish_reason, logprobs: None, delta },
        ],
        created,
        model,
        system_fingerprint: SYSTEM_FINGERPRINT@,
        object: ObjectKind::ChatCompletionChunk,
        usage,
    }
}

/// The chunk for a piece of the reply: the assistant's delta with the piece
/// as its content, no finish reason and no usage.
pub open spec fn answer_chunk(
    id: Seq<char>,
    base: Option<MessageBaseView>,
    answer: Seq<char>,
    model: Seq<char>,
) -> ChatCompletionChunkResponseView {
    chunk(
        chunk_id(id, base),
        chunk_created(base),
        ChunkDeltaView { role: Some(Role::Assistant), content: Some(answer) },
        None,
        None,
        model,
    )
}

/// The chunk that closes the reply: an empty delta, the finish reason `stop`
/// and the usage.
pub open spec fn closing_chunk(
    id: Seq<char>,
    base: Option<MessageBaseView>,
    usage: Usage,
    model: Seq<char>,
) -> ChatCompletionChunkResponseView {
    chunk(
        chunk_id(id, base),
        chunk_created(base),
        ChunkDeltaView { role: None, content: None },
        Some(FinishReason::Stop),
        Some(usage),
        model,
    )
}

/// The frame for a failure inside the stream.
pub open spec fn failure_frame(message: Seq<char>) -> SseFrameView {
    SseFrameView::Error { message: UPSTREAM_PREFIX@ + message }
}

/// The kind to name for a skipped event, from the JSON text of its member
/// `event`: that text without the quotes around it, or `unknown` where the
/// event has no such member.
pub open spec fn skipped_kind(tag_text: Option<Seq<char>>) -> Seq<char> {
    match tag_text {
        Some(t) => trim_matching(t, '"'),
        None => UNKNOWN_KIND@,
    }
}

/// The frame for a skipped event: a comment that names its kind and holds
/// nothing else of it.
pub open spec fn skip_frame(tag_text: Option<Seq<char>>) -> SseFrameView {
    SseFrameView::Comment { text: SKIP_PREFIX@ + skipped_kind(tag_text) }
}

/// The JSON text of the member `event` of `payload`, if it has one.
pub open spec fn payload_tag_text(payload: serde_json::Value) -> Option<Seq<char>> {
    match json_member(payload, "event"@) {
        Some(tag) => Some(json_text(tag)),
        None => None,
    }
}

/// The frame for one backend event.
pub open spec fn frame_of_event(event: BackendStreamEventView, model: Seq<char>) -> SseFrameView {
    match event {
        BackendStreamEventView::Message { answer, id, base } => SseFrameView::Chunk(
            answer_chunk(id, base, answer, model),
        ),
        BackendStreamEventView::AgentMessage { answer, id, base } => SseFrameView::Chunk(
            answer_chunk(id, base, answer, model),
        ),
        BackendStreamEventView::MessageEnd { id, base, metadata } => SseFrameView::Chunk(
            closing_chunk(id, base, usage_of(metadata), model),
        ),
        BackendStreamEventView::Error { message } => failure_frame(message),
        BackendStreamEventView::Other { payload } => skip_frame(payload_tag_text(payload)),
    }
}

/// The frame for one item of the backend's stream: that of the event, or the
/// failure frame for a failure to read one.
pub open spec fn frame_of(
    item: Result<BackendStreamEventView, Seq<char>>,
    model: Seq<char>,
) -> SseFrameView {
    match item {
        Ok(event) => frame_of_event(event, model),
        Err(description) => failure_frame(description),
    }
}

/// The frame that opens every stream.
pub open spec fn preamble_frame() -> SseFrameView {
    SseFrameView::Preamble { comment: PREAMBLE_COMMENT@, retry_secs: KEEP_ALIVE_SECS }
}

/// The frames of a whole stream: the preamble, the frame of each item in
/// order, and the terminator.
pub open spec fn stream_frames(
    items: Seq<Result<BackendStreamEventView, Seq<char>>>,
    model: Seq<char>,
) -> Seq<SseFrameView> {
    seq![preamble_frame()] + items.map_values(
        |i: Result<BackendStreamEventView, Seq<char>>| frame_of(i, model),
    ) + seq![SseFrameView::Done]
}

impl SseFrame {
    /// Tells whether this is the frame that closes a stream.
    pub fn is_done(&self) -> (r: bool)
        ensures
            r == (self@ is Done),
    {
        match self {
            SseFrame::Done => true,
            _ => false,
        }
    }
}

/// Builds the frame that opens every stream.
pub fn preamble() -> (f: SseFrame)
    ensures
        f@ == preamble_frame(),
{
    SseFrame::Preamble { comment: PREAMBLE_COMMENT.to_owned(), retry_secs: KEEP_ALIVE_SECS }
}

/// Picks the id and the time of a chunk from what the event carries.
fn chunk_identity(id: String, base: Option<MessageBase>) -> (r: (String, u64))
    ensures
        r.0@ == chunk_id(id@, opt_base_view(base)),
        r.1 == chunk_created(opt_base_view(base)),
{
    match base {
        Some(b) => (b.message_id, b.created_at),
        None => (id, 0),
    }
}

/// Builds a chunk with one choice.
fn build_chunk(
    id: String,
    created: u64,
    delta: ChunkDelta,
    finish_reason: Option<FinishReason>,
    usage: Option<Usage>,
    model: &str,
) -> (r: ChatCompletionChunkResponse)
    ensures
        r@ == chunk(id@, created, delta@, finish_reason, usage, model@),
{
    let mut choices: Vec<ChatCompletionChunkChoice> = Vec::new();
    choices.push(ChatCompletionChunkChoice { index: 0, finish_reason, logprobs: None, delta });
    let r = ChatCompletionChunkResponse {
        id,
        choices,
        created,
        model: model.to_owned(),
        system_fingerprint: SYSTEM_FINGERPRINT.to_owned(),
        object: ObjectKind::ChatCompletionChunk,
        usage,
    };
    assert(r@.choices =~= seq![
        ChatCompletionChunkChoiceView { index: 0, finish_reason, logprobs: None, delta: delta@ },
    ]);
    r
}

/// Builds the chunk for a piece of the reply.
pub fn message_chunk(answer: String, id: String, base: Option<MessageBase>, model: &str) -> (r:
    ChatCompletionChunkResponse)
    ensures
        r@ == answer_chunk(id@, opt_base_view(base), answer@, model@),
        r@.well_formed(),
{
    let (chunk_id, created): (String, u64) = chunk_identity(id, base);
    let delta = ChunkDelta { role: Some(Role::Assistant), content: Some(answer) };
    build_chunk(chunk_id, created, delta, None, None, model)
}

/// Builds the chunk that closes the reply, with the given token counts.
pub fn message_end_chunk(id: String, base: Option<MessageBase>, usage: Usage, model: &str) -> (r:
    ChatCompletionChunkResponse)
    ensures
        r@ == closing_chunk(id@, opt_base_view(base), usage, model@),
        r@.well_formed(),
{
    let (chunk_id, created): (String, u64) = chunk_identity(id, base);
    let delta = ChunkDelta { role: None, content: None };
    build_chunk(chunk_id, created, delta, Some(FinishReason::Stop), Some(usage), model)
}

/// Builds the frame for a failure inside the stream, reported by the backend
/// or met while reading from it.
pub fn error_frame(message: &str) -> (f: SseFrame)
    ensures
        f@ == failure_frame(message@),
{
    let mut text = UPSTREAM_PREFIX.to_owned();
    text.append(message);
    SseFrame::Error { message: text }
}

/// Builds the frame for a skipped event from the JSON text of its member
/// `event`, if it has one.
pub fn skip_comment(tag_text: Option<&str>) -> (f: SseFrame)
    ensures
        f@ == skip_frame(
            match tag_text {
                Some(t) => Some(t@),
                None => None,
            },
        ),
{
    let mut text = SKIP_PREFIX.to_owned();
    match tag_text {
        Some(t) => {
            let kind = trim_matching_of(t, '"');
            text.append(kind.as_str());
        },
        None => {
            text.append(UNKNOWN_KIND);
        },
    }
    SseFrame::Comment { text }
}

/// Maps one backend event to its frame.
pub fn map_event(event: BackendStreamEvent, model: &str) -> (f: SseFrame)
    ensures
        f@ == frame_of_event(event@, model@),
{
    match event {
        BackendStreamEvent::Message { answer, id, base } => SseFrame::Chunk(
            message_chunk(answer, id, base, model),
        ),
        BackendStreamEvent::AgentMessage { answer, id, base } => SseFrame::Chunk(
            message_chunk(answer, id, base, model),
        ),
        BackendStreamEvent::MessageEnd { id, base, metadata } => {
            let usage = Usage::from_metadata(&metadata);
            SseFrame::Chunk(message_end_chunk(id, base, usage, model))
        },
        BackendStreamEvent::Error { message } => error_frame(message.as_str()),
        BackendStreamEvent::Other { payload } => {
            match member(&payload, "event") {
                Some(tag) => {
                    let text = to_text(tag);
                    skip_comment(Some(text.as_str()))
                },
                None => skip_comment(None),
            }
        },
    }
}

/// Maps one item of the backend's stream to its frame.
pub fn map_stream_item(item: StreamItem, model: &str) -> (f: SseFrame)
    ensures
        f@ == frame_of(item_view(item), model@),
{
    match item {
        Ok(event) => map_event(event, model),
        Err(description) => error_frame(description.as_str()),
    }
}

/// The chunk for a piece of the reply, from a message event or an agent
/// message event alike, carries the piece as the content of its one delta,
/// written by the assistant, with no finish reason and no usage.
pub proof fn lemma_answer_chunk_carries_answer(
    id: Seq<char>,
    base: Option<MessageBaseView>,
    answer: Seq<char>,
    model: Seq<char>,
)
    ensures
        frame_of_event(BackendStreamEventView::Message { answer, id, base }, model)
            == SseFrameView::Chunk(answer_chunk(id, base, answer, model)),
        frame_of_event(BackendStreamEventView::AgentMessage { answer, id, base }, model)
            == SseFrameView::Chunk(answer_chunk(id, base, answer, model)),
        answer_chunk(id, base, answer, model).choices.len() == 1,
        answer_chunk(id, base, answer, model).choices[0].delta.content == Some(answer),
        answer_chunk(id, base, answer, model).choices[0].delta.role == Some(Role::Assistant),
        answer_chunk(id, base, answer, model).choices[0].finish_reason is None,
        answer_chunk(id, base, answer, model).usage is None,
        answer_chunk(id, base, answer, model).model == model,
        answer_chunk(id, base, answer, model).well_formed(),
{
}

/// The chunk for the end of the reply has an empty delta, the finish reason
/// `stop`, and the usage that the event's metadata reports, each count zero
/// where the metadata does not give it.
pub proof fn lemma_closing_chunk_reports_usage(
    id: Seq<char>,
    base: Option<MessageBaseView>,
    metadata: serde_json::Value,
    model: Seq<char>,
)
    ensures
        frame_of_event(BackendStreamEventView::MessageEnd { id, base, metadata }, model)
            == SseFrameView::Chunk(closing_chunk(id, base, usage_of(metadata), model)),
        closing_chunk(id, base, usage_of(metadata), model).choices.len() == 1,
        closing_chunk(id, base, usage_of(metadata), model).choices[0].finish_reason == Some(
            FinishReason::Stop,
        ),
        closing_chunk(id, base, usage_of(metadata), model).choices[0].delta == (ChunkDeltaView {
            role: None,
            content: None,
        }),
        closing_chunk(id, base, usage_of(metadata), model).usage == Some(usage_of(metadata)),
        closing_chunk(id, base, usage_of(metadata), model).well_formed(),
        json_member(metadata, "usage"@) is None ==> closing_chunk(
            id,
            base,
            usage_of(metadata),
            model,
        ).usage == Some(Usage::zero()),
{
}

/// A failure inside the stream, reported by the backend or met while
/// reading, maps to an error frame and never to the terminator.
pub proof fn lemma_failures_map_to_error_frames(message: Seq<char>, model: Seq<char>)
    ensures
        frame_of(Ok(BackendStreamEventView::Error { message }), model) == failure_frame(message),
        frame_of(Err(message), model) == failure_frame(message),
        failure_frame(message) is Error,
{
}

} // verus!
