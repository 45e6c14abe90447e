use dify_openai::error::{AppError, BackendError, ErrorKind};
use dify_openai::escape::escape_json;
use serde_json::Value;

#[test]
fn error_body_wraps_the_message() {
    let reply = AppError::new(ErrorKind::Validation, "No messages provided").into_response();
    assert_eq!(reply.status, 500);
    assert_eq!(reply.content_type, "application/json");
    assert_eq!(reply.body, "{\"error\": \"No messages provided\"}");
}

#[test]
fn error_status_does_not_depend_on_the_kind() {
    for kind in [
        ErrorKind::Validation,
        ErrorKind::AuthPassthroughAbsent,
        ErrorKind::UpstreamApplication,
        ErrorKind::Transport,
        ErrorKind::Serialization,
    ] {
        let reply = AppError::new(kind, "x").into_response();
        assert_eq!(reply.status, 500);
        assert_eq!(reply.body, "{\"error\": \"x\"}");
    }
}

#[test]
fn error_body_with_empty_message() {
    let reply = AppError::new(ErrorKind::Transport, "").into_response();
    assert_eq!(reply.body, "{\"error\": \"\"}");
}

#[test]
fn application_error_keeps_the_backend_message() {
    let err = AppError::from(BackendError::Application { message: "quota exceeded".to_string() });
    assert_eq!(err.kind, ErrorKind::UpstreamApplication);
    assert_eq!(err.message, "quota exceeded");
}

#[test]
fn transport_error_keeps_the_description() {
    let err = AppError::from(BackendError::Transport { description: "timed out".to_string() });
    assert_eq!(err.kind, ErrorKind::Transport);
    assert_eq!(err.message, "timed out");
}

fn body_of(message: &str) -> String {
    AppError::new(ErrorKind::Transport, message).into_response().body
}

#[test]
fn error_body_escapes_a_quote() {
    assert_eq!(body_of("bad \"x\""), "{\"error\": \"bad \\\"x\\\"\"}");
}

#[test]
fn error_body_escapes_a_backslash() {
    assert_eq!(body_of("C:\\temp"), "{\"error\": \"C:\\\\temp\"}");
}

#[test]
fn error_body_escapes_a_line_feed() {
    assert_eq!(body_of("line one\nline two"), "{\"error\": \"line one\\nline two\"}");
}

#[test]
fn error_body_is_json_that_decodes_to_the_message() {
    for message in [
        "",
        "plain",
        "bad \"x\"",
        "\"",
        "\\",
        "\\\"",
        "quote \" backslash \\ feed \n return \r tab \t",
        "\u{0}\u{1}\u{8}\u{b}\u{c}\u{1f}",
        "\u{7f} \u{80} é ñ 漢字 🙂",
        "{\"error\": \"nested\"}",
        "ends with backslash \\",
        "a/b",
    ] {
        let body = body_of(message);
        let parsed: Value = serde_json::from_str(&body).unwrap();
        let object = parsed.as_object().unwrap();
        assert_eq!(object.len(), 1, "{:?}", message);
        assert_eq!(object.get("error").and_then(|v| v.as_str()), Some(message), "{:?}", message);
    }
}

#[test]
fn error_body_of_a_backend_message_with_a_quote_is_json() {
    let err = AppError::from(BackendError::Application {
        message: "app \"demo\" is unavailable".to_string(),
    });
    let body = err.into_response().body;
    assert_eq!(body, "{\"error\": \"app \\\"demo\\\" is unavailable\"}");
    let parsed: Value = serde_json::from_str(&body).unwrap();
    assert_eq!(parsed.get("error").and_then(|v| v.as_str()), Some("app \"demo\" is unavailable"));
}

#[test]
fn error_body_is_one_line() {
    let body = body_of("a\nb\rc\u{0}d");
    assert!(!body.chars().any(|c| (c as u32) < 0x20));
}

#[test]
fn escape_json_leaves_plain_text_alone() {
    assert_eq!(escape_json(""), "");
    assert_eq!(escape_json("No messages provided"), "No messages provided");
    assert_eq!(escape_json("é ñ 漢字 🙂 / \u{7f}"), "é ñ 漢字 🙂 / \u{7f}");
}

#[test]
fn escape_json_writes_each_escape() {
    assert_eq!(escape_json("\""), "\\\"");
    assert_eq!(escape_json("\\"), "\\\\");
    assert_eq!(escape_json("\u{8}"), "\\b");
    assert_eq!(escape_json("\t"), "\\t");
    assert_eq!(escape_json("\n"), "\\n");
    assert_eq!(escape_json("\u{c}"), "\\f");
    assert_eq!(escape_json("\r"), "\\r");
    assert_eq!(escape_json("\u{0}"), "\\u0000");
    assert_eq!(escape_json("\u{b}"), "\\u000b");
    assert_eq!(escape_json("\u{1f}"), "\\u001f");
    assert_eq!(escape_json("a\"b\\c\nd"), "a\\\"b\\\\c\\nd");
}

#[test]
fn escape_json_agrees_with_serde_json() {
    for text in ["", "plain", "\"q\"", "\\", "\n\r\t\u{8}\u{c}", "\u{0}\u{1}\u{1e}\u{1f}", "é\"é", "🙂\\"] {
        let quoted = serde_json::to_string(text).unwrap();
        assert_eq!(format!("\"{}\"", escape_json(text)), quoted, "{:?}", text);
    }
    for code in 0u32..0x30 {
        let text = char::from_u32(code).unwrap().to_string();
        let quoted = serde_json::to_string(&text).unwrap();
        assert_eq!(format!("\"{}\"", escape_json(&text)), quoted, "{:?}", text);
    }
}
