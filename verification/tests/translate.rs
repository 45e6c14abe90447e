use dify_openai::auth::AuthorizationHeader;
use dify_openai::error::ErrorKind;
use dify_openai::model::{
    ChatCompletionChoice, ChatCompletionChunkChoice, ChatCompletionChunkResponse,
    ChatCompletionRequest, ChatCompletionResponse, ChunkDelta, FinishReason, Message, ObjectKind,
    Role, Usage,
};
use dify_openai::translate::{build_query, chat_completions_handler, translate_request};

fn message(role: Role, content: &str) -> Message {
    Message { role, content: content.to_string() }
}

#[test]
fn role_names_are_lower_case() {
    assert_eq!(Role::User.as_str(), "user");
    assert_eq!(Role::System.as_str(), "system");
    assert_eq!(Role::Assistant.as_str(), "assistant");
    assert_eq!(Role::Tool.as_str(), "tool");
    assert_eq!(Role::Function.as_str(), "function");
}

#[test]
fn query_of_a_single_message_has_an_empty_history() {
    let query = build_query(&vec![message(Role::User, "Hi")]).unwrap();
    assert_eq!(query, "here is our talk history:\n'''\n\n'''\n\nhere is my question:\nHi");
}

#[test]
fn query_lists_prior_messages_in_order() {
    let messages = vec![
        message(Role::System, "Be brief."),
        message(Role::User, "Hello"),
        message(Role::Assistant, "Hi there"),
        message(Role::User, "What is 2+2?"),
    ];
    let query = build_query(&messages).unwrap();
    assert_eq!(
        query,
        "here is our talk history:\n'''\nsystem: Be brief.\nuser: Hello\nassistant: Hi there\n'''\n\nhere is my question:\nWhat is 2+2?"
    );
}

#[test]
fn query_ends_with_the_last_content_verbatim() {
    let question = "line one\nline two: '''\n  trailing space ";
    let messages = vec![message(Role::Tool, "t"), message(Role::Function, question)];
    let query = build_query(&messages).unwrap();
    assert!(query.ends_with(question));
    assert!(query.starts_with("here is our talk history:\n'''\ntool: t\n'''\n\nhere is my question:\n"));
}

#[test]
fn query_takes_the_role_of_the_last_message_for_nothing() {
    let as_user = build_query(&vec![message(Role::User, "q")]).unwrap();
    let as_system = build_query(&vec![message(Role::System, "q")]).unwrap();
    assert_eq!(as_user, as_system);
}

#[test]
fn query_of_no_messages_fails() {
    let err = build_query(&Vec::new()).unwrap_err();
    assert_eq!(err.kind, ErrorKind::Validation);
    assert_eq!(err.message, "No messages provided");
}

#[test]
fn translate_defaults_the_user() {
    let req = ChatCompletionRequest::new(vec![message(Role::User, "Hi")], "m".to_string());
    let query = translate_request(&req).unwrap();
    assert_eq!(query.user, "unknow_user");
    assert!(!query.auto_generate_name);
    assert_eq!(query.query, "here is our talk history:\n'''\n\n'''\n\nhere is my question:\nHi");
}

#[test]
fn translate_keeps_the_given_user() {
    let mut req = ChatCompletionRequest::new(vec![message(Role::User, "Hi")], "m".to_string());
    req.user = Some("apiuser".to_string());
    let query = translate_request(&req).unwrap();
    assert_eq!(query.user, "apiuser");
    assert!(!query.auto_generate_name);
}

#[test]
fn translate_of_no_messages_fails() {
    let req = ChatCompletionRequest::new(Vec::new(), "m".to_string());
    let err = translate_request(&req).unwrap_err();
    assert_eq!(err.kind, ErrorKind::Validation);
}

#[test]
fn handler_rejects_a_request_without_messages() {
    let mut req = ChatCompletionRequest::new(Vec::new(), "gpt-3.5-turbo".to_string());
    req.stream = Some(true);
    let header = AuthorizationHeader::Text("Bearer t".to_string());
    let err = chat_completions_handler(&header, req).unwrap_err();
    assert_eq!(err.kind, ErrorKind::Validation);
    assert_eq!(err.message, "No messages provided");
}

#[test]
fn handler_plans_a_blocking_call_by_default() {
    let req = ChatCompletionRequest::new(vec![message(Role::User, "Hi")], "gpt-3.5-turbo".to_string());
    let call = chat_completions_handler(&AuthorizationHeader::Absent, req).unwrap();
    assert!(!call.stream);
    assert_eq!(call.token, None);
    assert_eq!(call.model, "gpt-3.5-turbo");
    assert_eq!(call.query.user, "unknow_user");
    assert_eq!(call.query.query, "here is our talk history:\n'''\n\n'''\n\nhere is my question:\nHi");
}

#[test]
fn handler_streams_only_when_asked() {
    let mut req = ChatCompletionRequest::new(vec![message(Role::User, "Hi")], "m".to_string());
    req.stream = Some(false);
    assert!(!chat_completions_handler(&AuthorizationHeader::Absent, req.clone()).unwrap().stream);
    req.stream = Some(true);
    assert!(chat_completions_handler(&AuthorizationHeader::Absent, req).unwrap().stream);
}

#[test]
fn handler_passes_the_bearer_token_through() {
    let req = ChatCompletionRequest::new(vec![message(Role::User, "Hi")], "m".to_string());
    let header = AuthorizationHeader::Text("Bearer app-key".to_string());
    let call = chat_completions_handler(&header, req).unwrap();
    assert_eq!(call.token, Some("app-key".to_string()));
}

#[test]
fn handler_falls_back_when_the_header_is_unusable() {
    for header in [
        AuthorizationHeader::Absent,
        AuthorizationHeader::NotText,
        AuthorizationHeader::Text("Bearer".to_string()),
    ] {
        let req = ChatCompletionRequest::new(vec![message(Role::User, "Hi")], "m".to_string());
        let call = chat_completions_handler(&header, req).unwrap();
        assert_eq!(call.token, None);
    }
}

#[test]
fn new_request_has_no_optional_field() {
    let req = ChatCompletionRequest::new(vec![message(Role::User, "Hi")], "m".to_string());
    assert_eq!(req.messages, vec![message(Role::User, "Hi")]);
    assert_eq!(req.model, "m");
    assert_eq!(req.stream, None);
    assert_eq!(req.user, None);
    assert_eq!(req.n, None);
    assert_eq!(req.logit_bias, None);
    assert_eq!(req.response_format, None);
}

#[test]
fn defaults_of_the_data_model() {
    assert_eq!(Role::default(), Role::Assistant);
    assert_eq!(ObjectKind::default(), ObjectKind::ChatCompletion);
    assert_eq!(FinishReason::default(), FinishReason::Stop);
    assert_eq!(Message::default(), message(Role::Assistant, ""));
    assert_eq!(ChunkDelta::default(), ChunkDelta { role: None, content: None });
    let choice = ChatCompletionChoice::default();
    assert_eq!(choice.index, 0);
    assert_eq!(choice.finish_reason, FinishReason::Stop);
    assert_eq!(choice.logprobs, None);
    assert_eq!(choice.message, Message::default());
    let choice = ChatCompletionChunkChoice::default();
    assert_eq!(choice.index, 0);
    assert_eq!(choice.finish_reason, None);
    assert_eq!(choice.delta, ChunkDelta::default());
    let response = ChatCompletionResponse::default();
    assert_eq!(response.id, "");
    assert_eq!(response.choices, vec![ChatCompletionChoice::default()]);
    assert_eq!(response.created, 0);
    assert_eq!(response.system_fingerprint, "fp_44709d6fcb");
    assert_eq!(response.object, ObjectKind::ChatCompletion);
    assert_eq!(response.usage, Usage::default());
    let chunk = ChatCompletionChunkResponse::default();
    assert_eq!(chunk.choices, vec![ChatCompletionChunkChoice::default()]);
    assert_eq!(chunk.system_fingerprint, "fp_44709d6fcb");
    assert_eq!(chunk.usage, None);
    assert_eq!(chunk.object, ObjectKind::ChatCompletionChunk);
}
