use zenreply::sse::{decode_sse_line, SseFrame};
use zenreply::json::{extract_delta, Json};

fn delta_of(line: &str) -> Option<String> {
    match decode_sse_line(line) {
        SseFrame::Delta(d) => Some(d),
        _ => None,
    }
}

#[test]
fn chat_delta_decodes() {
    let line = "data: {\"choices\":[{\"delta\":{\"content\":\"hi\"}}]}";
    assert_eq!(delta_of(line), Some("hi".to_string()));
}

#[test]
fn legacy_text_field_decodes() {
    let line = "data: {\"choices\":[{\"text\":\"hi\"}]}";
    assert_eq!(delta_of(line), Some("hi".to_string()));
}

#[test]
fn delta_content_preferred_over_text() {
    let line = "data: {\"choices\":[{\"delta\":{\"content\":\"a\"},\"text\":\"b\"}]}";
    assert_eq!(delta_of(line), Some("a".to_string()));
}

#[test]
fn done_sentinel_ends_stream() {
    assert!(matches!(decode_sse_line("data: [DONE]"), SseFrame::EndOfStream));
    assert!(matches!(decode_sse_line("  data:[DONE]  "), SseFrame::EndOfStream));
}

#[test]
fn comment_and_blank_lines_ignored() {
    assert!(matches!(decode_sse_line(": comment"), SseFrame::NoDelta));
    assert!(matches!(decode_sse_line(""), SseFrame::NoDelta));
    assert!(matches!(decode_sse_line("   "), SseFrame::NoDelta));
    assert!(matches!(decode_sse_line("event: ping"), SseFrame::NoDelta));
}

#[test]
fn malformed_payloads_yield_no_delta() {
    assert!(matches!(decode_sse_line("data: {not json"), SseFrame::NoDelta));
    assert!(matches!(decode_sse_line("data: "), SseFrame::NoDelta));
    assert!(matches!(decode_sse_line("data: null"), SseFrame::NoDelta));
    assert!(matches!(decode_sse_line("data: 17"), SseFrame::NoDelta));
    assert!(matches!(decode_sse_line("data: {}"), SseFrame::NoDelta));
    assert!(matches!(decode_sse_line("data: {\"choices\":[]}"), SseFrame::NoDelta));
    assert!(matches!(decode_sse_line("data: {\"choices\":[{}]}"), SseFrame::NoDelta));
    assert!(matches!(
        decode_sse_line("data: {\"choices\":[{\"delta\":{}}]}"),
        SseFrame::NoDelta
    ));
    assert!(matches!(
        decode_sse_line("data: {\"choices\":[{\"delta\":{\"content\":3}}]}"),
        SseFrame::NoDelta
    ));
    assert!(matches!(
        decode_sse_line("data: {\"choices\":[{\"delta\":{\"content\""),
        SseFrame::NoDelta
    ));
}

#[test]
fn empty_delta_is_a_delta_not_nothing() {
    let line = "data: {\"choices\":[{\"delta\":{\"content\":\"\"}}]}";
    assert_eq!(delta_of(line), Some(String::new()));
}

#[test]
fn whitespace_around_frame_tolerated() {
    let line = "  data:   {\"choices\":[{\"delta\":{\"content\":\"x\"}}]}  ";
    assert_eq!(delta_of(line), Some("x".to_string()));
}

#[test]
fn extract_delta_reads_first_choice() {
    let choice = Json::Object(vec![(
        "delta".to_string(),
        Json::Object(vec![("content".to_string(), Json::Text("one".to_string()))]),
    )]);
    let second = Json::Object(vec![(
        "delta".to_string(),
        Json::Object(vec![("content".to_string(), Json::Text("two".to_string()))]),
    )]);
    let doc = Json::Object(vec![(
        "choices".to_string(),
        Json::Array(vec![choice, second]),
    )]);
    assert_eq!(extract_delta(&doc), Some("one".to_string()));
}

#[test]
fn extract_delta_falls_back_to_text() {
    let choice = Json::Object(vec![("text".to_string(), Json::Text("t".to_string()))]);
    let doc = Json::Object(vec![("choices".to_string(), Json::Array(vec![choice]))]);
    assert_eq!(extract_delta(&doc), Some("t".to_string()));
}

#[test]
fn extract_delta_rejects_wrong_shapes() {
    assert_eq!(extract_delta(&Json::Null), None);
    assert_eq!(extract_delta(&Json::Object(vec![])), None);
    let doc = Json::Object(vec![("choices".to_string(), Json::Number)]);
    assert_eq!(extract_delta(&doc), None);
    let doc2 = Json::Object(vec![("choices".to_string(), Json::Array(vec![Json::Null]))]);
    assert_eq!(extract_delta(&doc2), None);
}
