use zenreply::registry::CancellationRegistry;
use zenreply::stream::{begin_stream, error_event, BeginOutcome, StreamEvent};
use zenreply::errors::StreamError;

fn ready(reg: &mut CancellationRegistry, id: &str) -> zenreply::stream::StreamSession {
    match begin_stream(reg, id.to_string()) {
        BeginOutcome::Ready(s) => s,
        BeginOutcome::CanceledBeforeStart(_) => panic!("stream should have started"),
    }
}

fn delta_texts(events: &[StreamEvent]) -> Vec<String> {
    events
        .iter()
        .filter_map(|e| match e {
            StreamEvent::Delta { text, .. } => Some(text.clone()),
            _ => None,
        })
        .collect()
}

#[test]
fn cancel_before_start_emits_one_done_and_no_session() {
    let mut reg = CancellationRegistry::new();
    let id = "req-1".to_string();
    reg.mark_canceled(&id);
    match begin_stream(&mut reg, id.clone()) {
        BeginOutcome::CanceledBeforeStart(ev) => match ev {
            StreamEvent::Done { request_id } => assert_eq!(request_id, "req-1"),
            _ => panic!("expected the Done event"),
        },
        BeginOutcome::Ready(_) => panic!("a canceled id must not start a stream"),
    }
    assert!(!reg.is_canceled(&id));
}

#[test]
fn deltas_flow_until_done_sentinel() {
    let mut reg = CancellationRegistry::new();
    let mut s = ready(&mut reg, "req-1");
    let ev = s.on_chunk(
        &mut reg,
        "data: {\"choices\":[{\"delta\":{\"content\":\"he\"}}]}\ndata: {\"choices\":[{\"delta\":{\"content\":\"llo\"}}]}\n",
    );
    assert_eq!(delta_texts(&ev), vec!["he".to_string(), "llo".to_string()]);
    assert_eq!(ev.len(), 2);
    let ev2 = s.on_chunk(&mut reg, "data: [DONE]\n");
    assert_eq!(ev2.len(), 1);
    assert!(matches!(&ev2[0], StreamEvent::Done { request_id } if request_id == "req-1"));
}

#[test]
fn lines_split_across_chunks_reassemble() {
    let mut reg = CancellationRegistry::new();
    let mut s = ready(&mut reg, "req-1");
    let ev1 = s.on_chunk(&mut reg, "data: {\"choices\":[{\"delta\":{\"con");
    assert!(ev1.is_empty());
    let ev2 = s.on_chunk(&mut reg, "tent\":\"hi\"}}]}\r\n");
    assert_eq!(delta_texts(&ev2), vec!["hi".to_string()]);
}

#[test]
fn cancel_during_stream_stops_deltas_with_one_done() {
    let mut reg = CancellationRegistry::new();
    let mut s = ready(&mut reg, "req-1");
    let ev = s.on_chunk(&mut reg, "data: {\"choices\":[{\"delta\":{\"content\":\"a\"}}]}\n");
    assert_eq!(delta_texts(&ev), vec!["a".to_string()]);
    reg.mark_canceled(&"req-1".to_string());
    let ev2 = s.on_chunk(&mut reg, "data: {\"choices\":[{\"delta\":{\"content\":\"b\"}}]}\n");
    assert_eq!(ev2.len(), 1);
    assert!(matches!(&ev2[0], StreamEvent::Done { request_id } if request_id == "req-1"));
    assert!(!reg.is_canceled(&"req-1".to_string()));
}

#[test]
fn lines_after_the_sentinel_are_ignored() {
    let mut reg = CancellationRegistry::new();
    let mut s = ready(&mut reg, "req-1");
    let ev = s.on_chunk(
        &mut reg,
        "data: [DONE]\ndata: {\"choices\":[{\"delta\":{\"content\":\"late\"}}]}\n",
    );
    assert_eq!(ev.len(), 1);
    assert!(matches!(&ev[0], StreamEvent::Done { .. }));
    assert!(s.finished());
}

#[test]
fn cancel_between_start_and_first_chunk_yields_one_done() {
    let mut reg = CancellationRegistry::new();
    let mut s = ready(&mut reg, "req-1");
    reg.mark_canceled(&"req-1".to_string());
    let ev = s.on_chunk(&mut reg, "data: {\"choices\":[{\"delta\":{\"content\":\"x\"}}]}\n");
    assert_eq!(ev.len(), 1);
    assert!(matches!(&ev[0], StreamEvent::Done { request_id } if request_id == "req-1"));
    assert!(s.finished());
    assert!(!reg.is_canceled(&"req-1".to_string()));
}

#[test]
fn cancel_before_stream_end_still_ends_with_done_only() {
    let mut reg = CancellationRegistry::new();
    let mut s = ready(&mut reg, "req-1");
    let ev = s.on_chunk(&mut reg, "data: {\"choices\":[{\"delta\":{\"content\":\"tail\"}}]}");
    assert!(ev.is_empty());
    reg.mark_canceled(&"req-1".to_string());
    let ev2 = s.on_stream_end(&mut reg);
    assert_eq!(ev2.len(), 1);
    assert!(matches!(&ev2[0], StreamEvent::Done { .. }));
}

#[test]
fn malformed_lines_do_not_abort_the_stream() {
    let mut reg = CancellationRegistry::new();
    let mut s = ready(&mut reg, "req-1");
    let ev = s.on_chunk(
        &mut reg,
        "data: {broken\n: comment\n\ndata: {\"choices\":[{\"delta\":{\"content\":\"ok\"}}]}\n",
    );
    assert_eq!(delta_texts(&ev), vec!["ok".to_string()]);
    assert_eq!(ev.len(), 1);
}

#[test]
fn empty_deltas_are_not_emitted() {
    let mut reg = CancellationRegistry::new();
    let mut s = ready(&mut reg, "req-1");
    let ev = s.on_chunk(&mut reg, "data: {\"choices\":[{\"delta\":{\"content\":\"\"}}]}\n");
    assert!(ev.is_empty());
}

#[test]
fn stream_end_decodes_trailing_fragment_then_done() {
    let mut reg = CancellationRegistry::new();
    let mut s = ready(&mut reg, "req-1");
    let ev = s.on_chunk(&mut reg, "data: {\"choices\":[{\"delta\":{\"content\":\"tail\"}}]}");
    assert!(ev.is_empty());
    let ev2 = s.on_stream_end(&mut reg);
    assert_eq!(ev2.len(), 2);
    assert!(matches!(&ev2[0], StreamEvent::Delta { text, .. } if text == "tail"));
    assert!(matches!(&ev2[1], StreamEvent::Done { .. }));
}

#[test]
fn stream_end_with_empty_buffer_is_just_done() {
    let mut reg = CancellationRegistry::new();
    let mut s = ready(&mut reg, "req-1");
    let ev = s.on_stream_end(&mut reg);
    assert_eq!(ev.len(), 1);
    assert!(matches!(&ev[0], StreamEvent::Done { request_id } if request_id == "req-1"));
}

#[test]
fn failing_emits_one_error_with_status_and_body() {
    let mut reg = CancellationRegistry::new();
    let mut s = ready(&mut reg, "req-1");
    reg.mark_canceled(&"other".to_string());
    let err = StreamError::HttpStatus { status: 404, body: "not found".to_string() };
    let ev = s.fail(&mut reg, &err);
    assert_eq!(ev.len(), 1);
    match &ev[0] {
        StreamEvent::Error { request_id, message } => {
            assert_eq!(request_id, "req-1");
            assert_eq!(message, "404: not found");
        },
        _ => panic!("expected the Error event"),
    }
    assert!(reg.is_canceled(&"other".to_string()));
}

#[test]
fn error_messages_render_each_kind() {
    assert_eq!(StreamError::MissingCredential.message(), "no API key is configured");
    assert_eq!(
        StreamError::Connect { detail: "refused".to_string() }.message(),
        "failed to reach the completion endpoint: refused"
    );
    assert_eq!(
        StreamError::ClientConstruction { detail: "tls".to_string() }.message(),
        "failed to build the HTTP client: tls"
    );
    assert_eq!(
        StreamError::TransportRead { detail: "reset".to_string() }.message(),
        "stream read failed: reset"
    );
}

#[test]
fn error_event_for_missing_credential() {
    let ev = error_event(&"req-9".to_string(), &StreamError::MissingCredential);
    match ev {
        StreamEvent::Error { request_id, message } => {
            assert_eq!(request_id, "req-9");
            assert_eq!(message, "no API key is configured");
        },
        _ => panic!("expected the Error event"),
    }
}
