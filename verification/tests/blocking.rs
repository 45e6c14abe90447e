use dify_openai::backend::{BackendAnswer, MessageBase};
use dify_openai::blocking::{chat_completions, synthesize_completion};
use dify_openai::error::{BackendError, ErrorKind};
use dify_openai::model::{FinishReason, ObjectKind, Role, Usage};
use serde_json::Value;

fn answer(text: &str, id: &str, created_at: u64, metadata: &str) -> BackendAnswer {
    BackendAnswer {
        base: MessageBase { message_id: id.to_string(), created_at },
        answer: text.to_string(),
        metadata: serde_json::from_str(metadata).unwrap(),
    }
}

#[test]
fn blocking_scenario_hello() {
    let outcome = Ok(answer("Hello!", "m1", 100, "{}"));
    let response = chat_completions(outcome, "gpt-3.5-turbo").unwrap();
    assert_eq!(response.id, "m1");
    assert_eq!(response.model, "gpt-3.5-turbo");
    assert_eq!(response.created, 100);
    assert_eq!(response.object, ObjectKind::ChatCompletion);
    assert_eq!(response.system_fingerprint, "fp_44709d6fcb");
    assert_eq!(response.choices.len(), 1);
    assert_eq!(response.choices[0].index, 0);
    assert_eq!(response.choices[0].finish_reason, FinishReason::Stop);
    assert_eq!(response.choices[0].logprobs, None);
    assert_eq!(response.choices[0].message.role, Role::Assistant);
    assert_eq!(response.choices[0].message.content, "Hello!");
    assert_eq!(response.usage, Usage { completion_tokens: 0, prompt_tokens: 0, total_tokens: 0 });
}

#[test]
fn blocking_response_reports_usage() {
    let metadata = "{\"usage\":{\"prompt_tokens\":5,\"completion_tokens\":7,\"total_tokens\":12}}";
    let response = chat_completions(Ok(answer("x", "id", 1, metadata)), "m").unwrap();
    assert_eq!(response.usage, Usage { completion_tokens: 7, prompt_tokens: 5, total_tokens: 12 });
}

#[test]
fn blocking_response_with_null_metadata_has_zero_usage() {
    let response = chat_completions(Ok(answer("x", "id", 1, "null")), "m").unwrap();
    assert_eq!(response.usage, Usage::default());
}

#[test]
fn blocking_application_error_passes_the_message() {
    let outcome = Err(BackendError::Application { message: "app unavailable".to_string() });
    let err = chat_completions(outcome, "m").unwrap_err();
    assert_eq!(err.kind, ErrorKind::UpstreamApplication);
    assert_eq!(err.message, "app unavailable");
    assert_eq!(err.into_response().body, "{\"error\": \"app unavailable\"}");
}

#[test]
fn blocking_transport_error_passes_the_description() {
    let outcome = Err(BackendError::Transport { description: "connection refused".to_string() });
    let err = chat_completions(outcome, "m").unwrap_err();
    assert_eq!(err.kind, ErrorKind::Transport);
    assert_eq!(err.message, "connection refused");
}

#[test]
fn synthesized_completion_takes_the_usage_as_given() {
    let usage = Usage { completion_tokens: 1, prompt_tokens: 2, total_tokens: 3 };
    let base = MessageBase { message_id: "abc".to_string(), created_at: 1705395332 };
    let response = synthesize_completion(base, "answer".to_string(), usage, "model-x");
    assert_eq!(response.id, "abc");
    assert_eq!(response.created, 1705395332);
    assert_eq!(response.model, "model-x");
    assert_eq!(response.usage, usage);
    assert_eq!(response.choices.len(), 1);
    assert_eq!(response.choices[0].message.content, "answer");
    assert_eq!(response.choices[0].logprobs, None::<Value>);
}
