use dify_openai::json::{parse_as_u64, resolve_count};
use dify_openai::model::Usage;
use serde_json::Value;

fn json(text: &str) -> Value {
    serde_json::from_str(text).unwrap()
}

#[test]
fn parse_as_u64_reads_a_number() {
    assert_eq!(parse_as_u64(Some(&json("42"))), 42);
    assert_eq!(parse_as_u64(Some(&json("0"))), 0);
    assert_eq!(parse_as_u64(Some(&json("18446744073709551615"))), u64::MAX);
}

#[test]
fn parse_as_u64_of_nothing_is_zero() {
    assert_eq!(parse_as_u64(None), 0);
}

#[test]
fn parse_as_u64_of_malformed_values_is_zero() {
    for text in ["null", "true", "\"12\"", "-3", "1.5", "[1]", "{\"a\":1}", "1e40"] {
        assert_eq!(parse_as_u64(Some(&json(text))), 0, "{}", text);
    }
}

#[test]
fn resolve_count_defaults_to_zero() {
    assert_eq!(resolve_count(Some(7)), 7);
    assert_eq!(resolve_count(None), 0);
}

#[test]
fn usage_from_counts_fills_the_gaps() {
    assert_eq!(
        Usage::from_counts(Some(1), None, Some(3)),
        Usage { completion_tokens: 1, prompt_tokens: 0, total_tokens: 3 }
    );
    assert_eq!(Usage::from_counts(None, None, None), Usage::default());
}

#[test]
fn usage_default_is_all_zero() {
    assert_eq!(Usage::default(), Usage { completion_tokens: 0, prompt_tokens: 0, total_tokens: 0 });
}

#[test]
fn usage_is_read_from_metadata() {
    let metadata = json(
        "{\"usage\":{\"prompt_tokens\":11,\"completion_tokens\":22,\"total_tokens\":33,\"latency\":0.5}}",
    );
    assert_eq!(
        Usage::from_metadata(&metadata),
        Usage { completion_tokens: 22, prompt_tokens: 11, total_tokens: 33 }
    );
}

#[test]
fn usage_of_empty_metadata_is_zero() {
    assert_eq!(Usage::from_metadata(&json("{}")), Usage::default());
}

#[test]
fn usage_of_metadata_that_is_no_object_is_zero() {
    for text in ["null", "3", "\"usage\"", "[{\"usage\":{\"total_tokens\":1}}]"] {
        assert_eq!(Usage::from_metadata(&json(text)), Usage::default(), "{}", text);
    }
}

#[test]
fn usage_that_is_no_object_is_zero() {
    for text in ["{\"usage\":null}", "{\"usage\":5}", "{\"usage\":[1,2,3]}", "{\"usage\":\"x\"}"] {
        assert_eq!(Usage::from_metadata(&json(text)), Usage::default(), "{}", text);
    }
}

#[test]
fn malformed_usage_fields_are_zero_and_the_others_stay() {
    let metadata =
        json("{\"usage\":{\"prompt_tokens\":\"11\",\"completion_tokens\":-1,\"total_tokens\":9}}");
    assert_eq!(
        Usage::from_metadata(&metadata),
        Usage { completion_tokens: 0, prompt_tokens: 0, total_tokens: 9 }
    );
}

#[test]
fn missing_usage_fields_are_zero() {
    let metadata = json("{\"usage\":{\"total_tokens\":4}}");
    assert_eq!(
        Usage::from_metadata(&metadata),
        Usage { completion_tokens: 0, prompt_tokens: 0, total_tokens: 4 }
    );
}

#[test]
fn usage_keys_are_matched_exactly() {
    let metadata = json("{\"Usage\":{\"total_tokens\":4},\"usage \":{\"total_tokens\":5}}");
    assert_eq!(Usage::from_metadata(&metadata), Usage::default());
    let metadata = json("{\"usage\":{\"Total_tokens\":4,\"total_token\":5}}");
    assert_eq!(Usage::from_metadata(&metadata), Usage::default());
}
