//! From a chat completion request to what is asked of the backend.
//!
//! The backend takes one flat text, not a list of messages. The last message
//! is the question; the ones before it are written out as a history block in
//! front of it.

use crate::auth::{get_bearer_token, passed_token, AuthorizationHeader, AuthorizationHeaderView};
use crate::backend::{BackendQuery, BackendQueryView, DEFAULT_USER};
use crate::error::{AppError, AppErrorView, ErrorKind};
use crate::model::{message_views, ChatCompletionRequest, ChatCompletionRequestView, Message,
    MessageView};
use vstd::prelude::*;

verus! {

/// What opens a query, up to the history block.
pub const QUERY_HEAD: &'static str = "here is our talk history:\n'''\n";

/// What stands between the history block and the question.
pub const QUERY_MIDDLE: &'static str = "\n'''\n\nhere is my question:\n";

/// The message of the failure on a request without messages.
pub const NO_MESSAGES: &'static str = "No messages provided";

/// One line of the history block: the role's name, a colon, a space, and the
/// content as it is.
pub open spec fn history_line(m: MessageView) -> Seq<char> {
    m.role.name() + ": "@ + m.content
}

/// The history block: one line for each prior message, in order, with a line
/// feed between two lines and none at either end.
pub open spec fn history_block(prior: Seq<MessageView>) -> Seq<char>
    decreases prior.len(),
{
    if prior.len() == 0 {
        Seq::empty()
    } else if prior.len() == 1 {
        history_line(prior[0])
    } else {
        history_block(prior.drop_last()) + "\n"@ + history_line(prior.last())
    }
}

/// The query for a conversation: the head, the history block of all messages
/// but the last, the middle, and the content of the last message.
pub open spec fn query_text(messages: Seq<MessageView>) -> Seq<char>
    recommends
        messages.len() > 0,
{
    QUERY_HEAD@ + history_block(messages.drop_last()) + QUERY_MIDDLE@ + messages.last().content
}

/// The user that a query is made for: the one that the request names, or the
/// default.
pub open spec fn query_user(user: Option<Seq<char>>) -> Seq<char> {
    match user {
        Some(u) => u,
        None => DEFAULT_USER@,
    }
}

/// The failure on a request without messages.
pub open spec fn no_messages() -> AppErrorView {
    AppErrorView { kind: ErrorKind::Validation, message: NO_MESSAGES@ }
}

/// What is asked of the backend for a request: a validation failure where the
/// request holds no message, else the query.
pub open spec fn backend_query(req: ChatCompletionRequestView) -> Result<
    BackendQueryView,
    AppErrorView,
> {
    if req.messages.len() == 0 {
        Err(no_messages())
    } else {
        Ok(
            BackendQueryView {
                query: query_text(req.messages),
                user: query_user(req.user),
                auto_generate_name: false,
            },
        )
    }
}

/// Whether a request asks for a streamed answer: only where `stream` is
/// present and true.
pub open spec fn wants_stream(stream: Option<bool>) -> bool {
    stream == Some(true)
}

/// The history block grows by one line with each message.
proof fn lemma_history_block_push(prior: Seq<MessageView>, m: MessageView)
    ensures
        history_block(prior.push(m)) == if prior.len() == 0 {
            history_line(m)
        } else {
            history_block(prior) + "\n"@ + history_line(m)
        },
{
    let all = prior.push(m);
    assert(all.drop_last() =~= prior);
    assert(all.last() == m);
    if prior.len() == 0 {
        assert(all[0] == m);
    }
}

/// Writes the history block of the first `count` messages.
fn write_history(messages: &Vec<Message>, count: usize) -> (block: String)
    requires
        count <= messages.len(),
    ensures
        block@ == history_block(message_views(messages@).take(count as int)),
{
    let ghost views = message_views(messages@);
    let mut block = String::new();
    let mut i: usize = 0;
    while i < count
        invariant
            i <= count <= messages.len(),
            views == message_views(messages@),
            block@ == history_block(views.take(i as int)),
        decreases count - i,
    {
        proof {
            lemma_history_block_push(views.take(i as int), views[i as int]);
            assert(views.take(i as int).push(views[i as int]) =~= views.take(i + 1));
        }
        if i > 0 {
            block.append("\n");
        }
        let m = &messages[i];
        block.append(m.role.as_str());
        block.append(": ");
        block.append(m.content.as_str());
        i += 1;
    }
    block
}

/// Builds the query for a conversation. Fails where there is no message.
pub fn build_query(messages: &Vec<Message>) -> (r: Result<String, AppError>)
    ensures
        match r {
            Ok(q) => messages@.len() > 0 && q@ == query_text(message_views(messages@)),
            Err(e) => messages@.len() == 0 && e@ == no_messages(),
        },
{
    let n: usize = messages.len();
    if n == 0 {
        return Err(AppError::new(ErrorKind::Validation, NO_MESSAGES));
    }
    let history = write_history(messages, n - 1);
    proof {
        let views = message_views(messages@);
        assert(views.take(n - 1) =~= views.drop_last());
    }
    let mut query = QUERY_HEAD.to_owned();
    query.append(history.as_str());
    query.append(QUERY_MIDDLE);
    query.append(messages[n - 1].content.as_str());
    Ok(query)
}

/// Translates a request into what is asked of the backend. Fails with a
/// validation error where the request holds no message, and only then.
pub fn translate_request(req: &ChatCompletionRequest) -> (r: Result<BackendQuery, AppError>)
    ensures
        match r {
            Ok(q) => backend_query(req@) == Ok::<BackendQueryView, AppErrorView>(q@),
            Err(e) => backend_query(req@) == Err::<BackendQueryView, AppErrorView>(e@),
        },
{
    match build_query(&req.messages) {
        Ok(query) => {
            let user = match &req.user {
                Some(u) => u.clone(),
                None => DEFAULT_USER.to_owned(),
            };
            Ok(BackendQuery { query, user, auto_generate_name: false })
        },
        Err(e) => Err(e),
    }
}

/// What the handler asks the caller to do for a request: one backend call.
#[derive(Debug, Clone, PartialEq)]
pub struct BackendCall {
    /// What to send.
    pub query: BackendQuery,
    /// The credential to send it with, in place of the configured one.
    pub token: Option<String>,
    /// The model name to echo in the response.
    pub model: String,
    /// Whether to open a stream rather than wait for the whole answer.
    pub stream: bool,
}

/// The view of a [`BackendCall`].
pub struct BackendCallView {
    pub query: BackendQueryView,
    pub token: Option<Seq<char>>,
    pub model: Seq<char>,
    pub stream: bool,
}

impl View for BackendCall {
    type V = BackendCallView;

    open spec fn view(&self) -> BackendCallView {
        BackendCallView {
            query: self.query@,
            token: crate::model::opt_view(self.token),
            model: self.model@,
            stream: self.stream,
        }
    }
}

/// The backend call for a request: a validation failure where the request
/// holds no message; else the query, the bearer token of the request if it
/// has one, the model name, and whether to stream.
pub open spec fn planned_call(
    header: AuthorizationHeaderView,
    req: ChatCompletionRequestView,
) -> Result<BackendCallView, AppErrorView> {
    match backend_query(req) {
        Ok(query) => Ok(
            BackendCallView {
                query,
                token: passed_token(header),
                model: req.model,
                stream: wants_stream(req.stream),
            },
        ),
        Err(e) => Err(e),
    }
}

/// Handles a chat completion request up to the backend call: validates it,
/// builds the query and picks the credential and the mode. A request without
/// messages fails here, so that no backend call is made for it. A missing or
/// unusable `Authorization` header is no failure.
pub fn chat_completions_handler(header: &AuthorizationHeader, payload: ChatCompletionRequest) -> (r:
    Result<BackendCall, AppError>)
    ensures
        match r {
            Ok(call) => planned_call(header@, payload@) == Ok::<BackendCallView, AppErrorView>(
                call@,
            ),
            Err(e) => planned_call(header@, payload@) == Err::<BackendCallView, AppErrorView>(e@),
        },
{
    let query = match translate_request(&payload) {
        Ok(q) => q,
        Err(e) => {
            return Err(e);
        },
    };
    let token = match get_bearer_token(header) {
        Ok(t) => Some(t),
        Err(_) => None,
    };
    let stream = match payload.stream {
        Some(s) => s,
        None => false,
    };
    Ok(BackendCall { query, token, model: payload.model, stream })
}

/// The query ends with the content of the last message, character for
/// character, and what stands before it is the head, the history block of the
/// messages before the last, and the middle.
pub proof fn lemma_query_question_verbatim(messages: Seq<MessageView>)
    requires
        messages.len() > 0,
    ensures
        ({
            let q = query_text(messages);
            let question = messages.last().content;
            let front = QUERY_HEAD@ + history_block(messages.drop_last()) + QUERY_MIDDLE@;
            &&& q.len() == front.len() + question.len()
            &&& q.take(front.len() as int) == front
            &&& q.skip(front.len() as int) == question
        }),
{
    let question = messages.last().content;
    let front = QUERY_HEAD@ + history_block(messages.drop_last()) + QUERY_MIDDLE@;
    let q = query_text(messages);
    assert(q == front + question);
    assert(q.take(front.len() as int) =~= front);
    assert(q.skip(front.len() as int) =~= question);
}

/// The history block keeps the order of the messages: the block of two lists
/// one after the other is the block of the first, a line feed, and the block
/// of the second.
pub proof fn lemma_history_block_concat(a: Seq<MessageView>, b: Seq<MessageView>)
    requires
        a.len() > 0,
        b.len() > 0,
    ensures
        history_block(a + b) == history_block(a) + "\n"@ + history_block(b),
    decreases b.len(),
{
    if b.len() == 1 {
        assert(a + b =~= a.push(b[0]));
        lemma_history_block_push(a, b[0]);
    } else {
        let front = b.drop_last();
        lemma_history_block_concat(a, front);
        assert((a + b).drop_last() =~= a + front);
        assert((a + b).last() == b.last());
        assert(history_block(a + b) == history_block(a + front) + "\n"@ + history_line(b.last()));
        assert(history_block(b) == history_block(front) + "\n"@ + history_line(b.last()));
        assert(history_block(a) + "\n"@ + (history_block(front) + "\n"@ + history_line(b.last()))
            =~= (history_block(a) + "\n"@ + history_block(front)) + "\n"@ + history_line(
            b.last(),
        ));
    }
}

/// The line of each prior message stands in the history block as it is, at
/// the place that the lines before it leave.
pub proof fn lemma_history_block_holds_line(prior: Seq<MessageView>, i: int)
    requires
        0 <= i < prior.len(),
    ensures
        ({
            let before = history_block(prior.take(i));
            let start: int = if i == 0 {
                0
            } else {
                before.len() as int + 1
            };
            let line = history_line(prior[i]);
            &&& start + line.len() <= history_block(prior).len()
            &&& history_block(prior).subrange(start, start + line.len()) == line
        }),
    decreases prior.len(),
{
    let line = history_line(prior[i]);
    let block = history_block(prior);
    if prior.len() == 1 {
        assert(prior.take(0) =~= Seq::<MessageView>::empty());
        assert(block.subrange(0, line.len() as int) =~= line);
    } else if i == prior.len() - 1 {
        let before = history_block(prior.drop_last());
        assert(prior.take(i) =~= prior.drop_last());
        assert(block == before + "\n"@ + line);
        reveal_strlit("\n");
        let start: int = before.len() as int + 1;
        assert(block.subrange(start, start + line.len()) =~= line);
    } else {
        let front = prior.drop_last();
        lemma_history_block_holds_line(front, i);
        assert(front.take(i) =~= prior.take(i));
        assert(front[i] == prior[i]);
        let before = history_block(prior.take(i));
        let start: int = if i == 0 {
            0
        } else {
            before.len() as int + 1
        };
        assert(block == history_block(front) + "\n"@ + history_line(prior.last()));
        assert(block.subrange(start, start + line.len()) =~= history_block(front).subrange(
            start,
            start + line.len(),
        ));
    }
}

} // verus!
