//! From the backend's blocking answer to a chat completion.

use crate::backend::{BackendAnswer, BackendAnswerView, MessageBase, MessageBaseView};
use crate::error::{upstream_failure, AppError, AppErrorView, BackendError, BackendErrorView};
use crate::model::{ChatCompletionChoice, ChatCompletionChoiceView, ChatCompletionResponse,
    ChatCompletionResponseView, FinishReason, Message, MessageView, ObjectKind, Role, Usage,
    SYSTEM_FINGERPRINT};
use crate::usage::usage_of;
use vstd::prelude::*;

verus! {

/// The one choice of a chat completion: the assistant's message with the
/// given content, stopped of its own accord.
pub open spec fn assistant_choice(content: Seq<char>) -> ChatCompletionChoiceView {
    ChatCompletionChoiceView {
        index: 0,
        finish_reason: FinishReason::Stop,
        logprobs: None,
        message: MessageView { role: Role::Assistant, content },
    }
}

/// The chat completion for an answer: the backend's message id and time, the
/// model name as given, the fixed fingerprint, and exactly one choice.
pub open spec fn completion(
    base: MessageBaseView,
    answer: Seq<char>,
    usage: Usage,
    model: Seq<char>,
) -> ChatCompletionResponseView {
    ChatCompletionResponseView {
        id: base.message_id,
        choices: seq![assistant_choice(answer)],
        created: base.created_at,
        model,
        system_fingerprint: SYSTEM_FINGERPRINT@,
        object: ObjectKind::ChatCompletion,
        usage,
    }
}

/// The chat completion for a backend answer, with the token counts that its
/// metadata reports.
pub open spec fn completion_of(answer: BackendAnswerView, model: Seq<char>) -> ChatCompletionResponseView {
    completion(answer.base, answer.answer, usage_of(answer.metadata), model)
}

/// What a blocking call's outcome becomes: the chat completion for an
/// answer, the failure for a failed call.
pub open spec fn blocking_result(
    outcome: Result<BackendAnswerView, BackendErrorView>,
    model: Seq<char>,
) -> Result<ChatCompletionResponseView, AppErrorView> {
    match outcome {
        Ok(answer) => Ok(completion_of(answer, model)),
        Err(err) => Err(upstream_failure(err)),
    }
}

/// Builds the chat completion for an answer with the given token counts.
pub fn synthesize_completion(base: MessageBase, answer: String, usage: Usage, model: &str) -> (r:
    ChatCompletionResponse)
    ensures
        r@ == completion(base@, answer@, usage, model@),
        r@.well_formed(),
{
    let choice = ChatCompletionChoice {
        index: 0,
        finish_reason: FinishReason::Stop,
        logprobs: None,
        message: Message { role: Role::Assistant, content: answer },
    };
    let mut choices: Vec<ChatCompletionChoice> = Vec::new();
    choices.push(choice);
    let r = ChatCompletionResponse {
        id: base.message_id,
        choices,
        created: base.created_at,
        model: model.to_owned(),
        system_fingerprint: SYSTEM_FINGERPRINT.to_owned(),
        object: ObjectKind::ChatCompletion,
        usage,
    };
    assert(r@.choices =~= seq![assistant_choice(answer@)]);
    r
}

/// Turns the outcome of the backend's blocking call into the answer to the
/// request: a chat completion for an answer, and for a failed call the
/// failure that carries the backend's message or the transport's description.
pub fn chat_completions(outcome: Result<BackendAnswer, BackendError>, model: &str) -> (r: Result<
    ChatCompletionResponse,
    AppError,
>)
    ensures
        match r {
            Ok(response) => outcome is Ok && response@ == completion_of(
                outcome.unwrap()@,
                model@,
            ) && response@.well_formed(),
            Err(e) => outcome is Err && e@ == upstream_failure(outcome.unwrap_err()@),
        },
{
    match outcome {
        Ok(answer) => {
            let usage = Usage::from_metadata(&answer.metadata);
            Ok(synthesize_completion(answer.base, answer.answer, usage, model))
        },
        Err(err) => Err(AppError::from(err)),
    }
}

/// Every chat completion carries exactly one choice, written by the
/// assistant and finished with `stop`, and the fixed fingerprint.
pub proof fn lemma_completion_has_one_choice(answer: BackendAnswerView, model: Seq<char>)
    ensures
        completion_of(answer, model).choices.len() == 1,
        completion_of(answer, model).choices[0].message.role == Role::Assistant,
        completion_of(answer, model).choices[0].message.content == answer.answer,
        completion_of(answer, model).choices[0].finish_reason == FinishReason::Stop,
        completion_of(answer, model).system_fingerprint == SYSTEM_FINGERPRINT@,
        completion_of(answer, model).well_formed(),
{
}

} // verus!
