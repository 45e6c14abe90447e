use dify_openai::backend::{BackendStreamEvent, MessageBase, StreamItem};
use dify_openai::mapper::{chat_completions_stream, StreamEventMapper, StreamPhase};
use dify_openai::model::{ChunkDelta, FinishReason, ObjectKind, Role, Usage};
use dify_openai::stream::{
    error_frame, map_event, map_stream_item, message_chunk, message_end_chunk, preamble,
    skip_comment, SseFrame,
};
use serde_json::Value;

fn json(text: &str) -> Value {
    serde_json::from_str(text).unwrap()
}

fn message_event(answer: &str) -> BackendStreamEvent {
    BackendStreamEvent::Message { answer: answer.to_string(), id: "e1".to_string(), base: None }
}

fn end_event(metadata: &str) -> BackendStreamEvent {
    BackendStreamEvent::MessageEnd {
        id: "e2".to_string(),
        base: Some(MessageBase { message_id: "m1".to_string(), created_at: 100 }),
        metadata: json(metadata),
    }
}

fn chunk_of(frame: SseFrame) -> dify_openai::model::ChatCompletionChunkResponse {
    match frame {
        SseFrame::Chunk(chunk) => chunk,
        other => panic!("not a chunk: {:?}", other),
    }
}

#[test]
fn preamble_is_a_comment_with_a_retry_of_thirty_seconds() {
    assert_eq!(
        preamble(),
        SseFrame::Preamble { comment: "streaming chat completions".to_string(), retry_secs: 30 }
    );
}

#[test]
fn message_event_maps_to_a_chunk_with_the_answer() {
    let chunk = chunk_of(map_event(message_event("Hel"), "gpt-3.5-turbo"));
    assert_eq!(chunk.id, "e1");
    assert_eq!(chunk.created, 0);
    assert_eq!(chunk.model, "gpt-3.5-turbo");
    assert_eq!(chunk.system_fingerprint, "fp_44709d6fcb");
    assert_eq!(chunk.object, ObjectKind::ChatCompletionChunk);
    assert_eq!(chunk.usage, None);
    assert_eq!(chunk.choices.len(), 1);
    assert_eq!(chunk.choices[0].index, 0);
    assert_eq!(chunk.choices[0].finish_reason, None);
    assert_eq!(chunk.choices[0].logprobs, None);
    assert_eq!(
        chunk.choices[0].delta,
        ChunkDelta { role: Some(Role::Assistant), content: Some("Hel".to_string()) }
    );
}

#[test]
fn agent_message_event_maps_like_a_message_event() {
    let base = Some(MessageBase { message_id: "m9".to_string(), created_at: 77 });
    let event = BackendStreamEvent::AgentMessage {
        answer: "lo!".to_string(),
        id: "e5".to_string(),
        base: base.clone(),
    };
    let chunk = chunk_of(map_event(event, "m"));
    assert_eq!(chunk, message_chunk("lo!".to_string(), "e5".to_string(), base, "m"));
    assert_eq!(chunk.id, "m9");
    assert_eq!(chunk.created, 77);
    assert_eq!(chunk.choices[0].delta.content, Some("lo!".to_string()));
    assert_eq!(chunk.choices[0].finish_reason, None);
}

#[test]
fn message_end_maps_to_the_closing_chunk() {
    let metadata = "{\"usage\":{\"prompt_tokens\":3,\"completion_tokens\":4,\"total_tokens\":7}}";
    let chunk = chunk_of(map_event(end_event(metadata), "m"));
    assert_eq!(chunk.id, "m1");
    assert_eq!(chunk.created, 100);
    assert_eq!(chunk.choices.len(), 1);
    assert_eq!(chunk.choices[0].finish_reason, Some(FinishReason::Stop));
    assert_eq!(chunk.choices[0].delta, ChunkDelta { role: None, content: None });
    assert_eq!(
        chunk.usage,
        Some(Usage { completion_tokens: 4, prompt_tokens: 3, total_tokens: 7 })
    );
}

#[test]
fn message_end_without_usage_reports_zeros() {
    let chunk = chunk_of(map_event(end_event("{}"), "m"));
    assert_eq!(chunk.usage, Some(Usage::default()));
    let chunk = chunk_of(map_event(end_event("{\"usage\":{\"total_tokens\":\"many\"}}"), "m"));
    assert_eq!(chunk.usage, Some(Usage::default()));
}

#[test]
fn message_end_chunk_takes_the_usage_as_given() {
    let usage = Usage { completion_tokens: 1, prompt_tokens: 2, total_tokens: 3 };
    let chunk = message_end_chunk("e".to_string(), None, usage, "m");
    assert_eq!(chunk.id, "e");
    assert_eq!(chunk.created, 0);
    assert_eq!(chunk.usage, Some(usage));
    assert_eq!(chunk.choices[0].finish_reason, Some(FinishReason::Stop));
}

#[test]
fn error_event_maps_to_an_error_frame() {
    let event = BackendStreamEvent::Error { message: "rate limited".to_string() };
    assert_eq!(
        map_event(event, "m"),
        SseFrame::Error { message: "upstream: rate limited".to_string() }
    );
}

#[test]
fn transport_failure_maps_to_an_error_frame() {
    let item: StreamItem = Err("connection reset".to_string());
    assert_eq!(
        map_stream_item(item, "m"),
        SseFrame::Error { message: "upstream: connection reset".to_string() }
    );
    assert_eq!(error_frame(""), SseFrame::Error { message: "upstream: ".to_string() });
}

#[test]
fn other_event_maps_to_a_comment_naming_its_kind() {
    let event = BackendStreamEvent::Other { payload: json("{\"event\":\"ping\"}") };
    assert_eq!(
        map_event(event, "m"),
        SseFrame::Comment { text: "skip dify message event: ping".to_string() }
    );
}

#[test]
fn other_event_leaks_no_payload() {
    let payload = json(
        "{\"event\":\"workflow_started\",\"task_id\":\"secret-task\",\"data\":{\"inputs\":{\"k\":\"v\"}}}",
    );
    let frame = map_event(BackendStreamEvent::Other { payload }, "m");
    assert_eq!(
        frame,
        SseFrame::Comment { text: "skip dify message event: workflow_started".to_string() }
    );
}

#[test]
fn other_event_without_a_kind_is_unknown() {
    for text in ["{}", "null", "[\"event\"]", "{\"Event\":\"ping\"}"] {
        let frame = map_event(BackendStreamEvent::Other { payload: json(text) }, "m");
        assert_eq!(
            frame,
            SseFrame::Comment { text: "skip dify message event: unknown".to_string() },
            "{}",
            text
        );
    }
}

#[test]
fn other_event_with_a_kind_that_is_no_string_names_its_json() {
    let frame = map_event(BackendStreamEvent::Other { payload: json("{\"event\":17}") }, "m");
    assert_eq!(frame, SseFrame::Comment { text: "skip dify message event: 17".to_string() });
}

#[test]
fn skip_comment_strips_the_quotes() {
    assert_eq!(
        skip_comment(Some("\"node_started\"")),
        SseFrame::Comment { text: "skip dify message event: node_started".to_string() }
    );
    assert_eq!(
        skip_comment(None),
        SseFrame::Comment { text: "skip dify message event: unknown".to_string() }
    );
    assert_eq!(
        skip_comment(Some("\"\"")),
        SseFrame::Comment { text: "skip dify message event: ".to_string() }
    );
}

#[test]
fn streaming_scenario_hello() {
    let items: Vec<StreamItem> = vec![
        Ok(BackendStreamEvent::Message {
            answer: "Hello!".to_string(),
            id: "e1".to_string(),
            base: Some(MessageBase { message_id: "m1".to_string(), created_at: 100 }),
        }),
        Ok(end_event("{}")),
    ];
    let frames = chat_completions_stream(items, "gpt-3.5-turbo");
    assert_eq!(frames.len(), 4);
    assert_eq!(frames[0], preamble());
    let first = chunk_of(frames[1].clone());
    assert_eq!(first.id, "m1");
    assert_eq!(first.created, 100);
    assert_eq!(first.model, "gpt-3.5-turbo");
    assert_eq!(first.choices[0].delta.content, Some("Hello!".to_string()));
    assert_eq!(first.choices[0].delta.role, Some(Role::Assistant));
    assert_eq!(first.choices[0].finish_reason, None);
    assert_eq!(first.usage, None);
    let last = chunk_of(frames[2].clone());
    assert_eq!(last.choices[0].finish_reason, Some(FinishReason::Stop));
    assert_eq!(last.usage, Some(Usage::default()));
    assert_eq!(frames[3], SseFrame::Done);
}

#[test]
fn streaming_scenario_transport_failure_first() {
    let items: Vec<StreamItem> = vec![Err("error decoding response body".to_string())];
    let frames = chat_completions_stream(items, "gpt-3.5-turbo");
    assert_eq!(
        frames,
        vec![
            preamble(),
            SseFrame::Error { message: "upstream: error decoding response body".to_string() },
            SseFrame::Done,
        ]
    );
}

#[test]
fn empty_stream_is_preamble_and_terminator() {
    assert_eq!(chat_completions_stream(Vec::new(), "m"), vec![preamble(), SseFrame::Done]);
}

#[test]
fn error_event_does_not_end_the_stream() {
    let items: Vec<StreamItem> = vec![
        Ok(message_event("a")),
        Ok(BackendStreamEvent::Error { message: "oops".to_string() }),
        Ok(message_event("b")),
        Err("broken pipe".to_string()),
        Ok(BackendStreamEvent::Other { payload: json("{\"event\":\"ping\"}") }),
    ];
    let frames = chat_completions_stream(items, "m");
    assert_eq!(frames.len(), 7);
    assert_eq!(frames[2], SseFrame::Error { message: "upstream: oops".to_string() });
    assert_eq!(chunk_of(frames[3].clone()).choices[0].delta.content, Some("b".to_string()));
    assert_eq!(frames[4], SseFrame::Error { message: "upstream: broken pipe".to_string() });
    assert_eq!(frames[5], SseFrame::Comment { text: "skip dify message event: ping".to_string() });
    assert_eq!(frames.iter().filter(|f| f.is_done()).count(), 1);
    assert!(frames.last().unwrap().is_done());
}

#[test]
fn stream_keeps_the_order_of_the_items() {
    let items: Vec<StreamItem> =
        (0..20).map(|i| Ok(message_event(&format!("piece {}", i)))).collect();
    let frames = chat_completions_stream(items, "m");
    assert_eq!(frames.len(), 22);
    for i in 0..20 {
        let chunk = chunk_of(frames[i + 1].clone());
        assert_eq!(chunk.choices[0].delta.content, Some(format!("piece {}", i)));
    }
}

#[test]
fn mapper_walks_through_its_phases() {
    let mut mapper = StreamEventMapper::new("m");
    assert_eq!(mapper.phase(), StreamPhase::Preamble);
    assert_eq!(mapper.begin(), Some(preamble()));
    assert_eq!(mapper.phase(), StreamPhase::Body);
    let frame = mapper.feed(Some(Ok(message_event("x")))).unwrap();
    assert_eq!(chunk_of(frame).model, "m");
    assert_eq!(mapper.phase(), StreamPhase::Body);
    assert_eq!(mapper.feed(None), Some(SseFrame::Done));
    assert_eq!(mapper.phase(), StreamPhase::Closed);
}

#[test]
fn mapper_sends_the_terminator_once() {
    let mut mapper = StreamEventMapper::new("m");
    mapper.begin();
    assert_eq!(mapper.feed(None), Some(SseFrame::Done));
    assert_eq!(mapper.feed(None), None);
    assert_eq!(mapper.feed(Some(Ok(message_event("late")))), None);
    assert_eq!(mapper.begin(), None);
    assert_eq!(mapper.phase(), StreamPhase::Closed);
}

#[test]
fn mapper_sends_the_preamble_once_and_first() {
    let mut mapper = StreamEventMapper::new("m");
    assert_eq!(mapper.feed(Some(Ok(message_event("early")))), None);
    assert_eq!(mapper.feed(None), None);
    assert_eq!(mapper.phase(), StreamPhase::Preamble);
    assert_eq!(mapper.begin(), Some(preamble()));
    assert_eq!(mapper.begin(), None);
    assert_eq!(mapper.phase(), StreamPhase::Body);
}

#[test]
fn done_is_the_only_terminator() {
    assert!(SseFrame::Done.is_done());
    assert!(!preamble().is_done());
    assert!(!error_frame("[DONE]").is_done());
    assert!(!skip_comment(Some("[DONE]")).is_done());
}
