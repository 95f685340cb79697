use simple_codex::sse::{process_responses_event, process_sse_step, ChatSseDecoder, SseInput, SseStep};
use simple_codex::types::{
    ApiError, ChatChunkChoice, ChatChunkDelta, ChatStreamChunk, CompletedPayload, ResponseCompleted,
    ResponseEvent, ResponsesStreamEvent,
};

fn ev(kind: &str, delta: Option<&str>, response: Option<CompletedPayload>) -> ResponsesStreamEvent {
    ResponsesStreamEvent { kind: kind.to_string(), delta: delta.map(|d| d.to_string()), response }
}

fn describe(r: &Result<ResponseEvent, ApiError>) -> String {
    match r {
        Ok(ResponseEvent::Created) => "created".to_string(),
        Ok(ResponseEvent::OutputTextDelta(d)) => format!("delta:{d}"),
        Ok(ResponseEvent::Completed { response_id }) => format!("completed:{response_id}"),
        Err(ApiError::Stream(m)) => format!("error:{m}"),
    }
}

fn describe_step(s: &SseStep) -> (Vec<String>, bool) {
    (s.events.iter().map(describe).collect(), s.done)
}

fn choice(content: Option<&str>, finish: Option<&str>) -> ChatChunkChoice {
    ChatChunkChoice {
        delta: ChatChunkDelta { content: content.map(|c| c.to_string()) },
        finish_reason: finish.map(|f| f.to_string()),
    }
}

#[test]
fn responses_event_kinds_decode() {
    assert!(matches!(process_responses_event(ev("response.created", None, None)), Ok(Some(ResponseEvent::Created))));
    match process_responses_event(ev("response.output_text.delta", Some("你"), None)) {
        Ok(Some(ResponseEvent::OutputTextDelta(d))) => assert_eq!(d, "你"),
        _ => panic!("expected a delta"),
    }
    assert!(matches!(process_responses_event(ev("response.output_text.delta", None, None)), Ok(None)));
    let done = ev(
        "response.completed",
        None,
        Some(CompletedPayload::Parsed(ResponseCompleted { id: "resp_1".to_string() })),
    );
    match process_responses_event(done) {
        Ok(Some(ResponseEvent::Completed { response_id })) => assert_eq!(response_id, "resp_1"),
        _ => panic!("expected a completion"),
    }
    assert!(matches!(process_responses_event(ev("response.completed", None, None)), Ok(None)));
    assert!(matches!(process_responses_event(ev("response.reasoning.delta", Some("x"), None)), Ok(None)));
}

#[test]
fn responses_event_errors() {
    match process_responses_event(ev("response.failed", None, None)) {
        Err(ApiError::Stream(m)) => assert_eq!(m, "response.failed event received"),
        _ => panic!("expected an error"),
    }
    let bad = ev("response.completed", None, Some(CompletedPayload::Malformed("missing field `id`".to_string())));
    match process_responses_event(bad) {
        Err(ApiError::Stream(m)) => assert_eq!(m, "failed to parse ResponseCompleted: missing field `id`"),
        _ => panic!("expected an error"),
    }
}

#[test]
fn responses_pump_steps() {
    let s = process_sse_step(SseInput::Event(Ok(ev("response.created", None, None))));
    assert_eq!(describe_step(&s), (vec!["created".to_string()], false));
    let s = process_sse_step(SseInput::Event(Ok(ev("response.in_progress", None, None))));
    assert_eq!(describe_step(&s), (vec![], false));
    let s = process_sse_step(SseInput::Event(Ok(ev(
        "response.completed",
        None,
        Some(CompletedPayload::Parsed(ResponseCompleted { id: "r9".to_string() })),
    ))));
    assert_eq!(describe_step(&s), (vec!["completed:r9".to_string()], true));
    let s = process_sse_step(SseInput::Event(Err("expected value at line 1 column 1".to_string())));
    assert_eq!(
        describe_step(&s),
        (vec!["error:failed to parse SSE event: expected value at line 1 column 1".to_string()], true)
    );
    let s = process_sse_step(SseInput::TransportError("connection reset".to_string()));
    assert_eq!(describe_step(&s), (vec!["error:connection reset".to_string()], true));
    let s = process_sse_step(SseInput::Closed);
    assert_eq!(describe_step(&s), (vec!["error:stream closed before response.completed".to_string()], true));
    let s = process_sse_step(SseInput::IdleTimeout);
    assert_eq!(describe_step(&s), (vec!["error:idle timeout waiting for SSE".to_string()], true));
}

#[test]
fn responses_pump_stops_exactly_on_terminal_steps() {
    let inputs = vec![
        SseInput::Event(Ok(ev("response.created", None, None))),
        SseInput::Event(Ok(ev("response.output_text.delta", Some("a"), None))),
        SseInput::Event(Ok(ev("response.failed", None, None))),
        SseInput::Closed,
    ];
    for input in inputs {
        let s = process_sse_step(input);
        assert!(s.events.len() <= 1);
        let terminal = s.events.iter().any(|e| matches!(e, Err(_) | Ok(ResponseEvent::Completed { .. })));
        assert_eq!(s.done, terminal);
    }
}

#[test]
fn chat_done_sentinel_with_whitespace() {
    let mut d = ChatSseDecoder::new();
    let s = d.on_chunk(Ok(ChatStreamChunk { id: Some("c1".to_string()), choices: vec![choice(Some("hi"), None)] }));
    assert_eq!(describe_step(&s), (vec!["delta:hi".to_string()], false));
    assert_eq!(d.last_id, "c1");
    let s = d.on_input(SseInput::Event("  [DONE]\n".to_string())).expect("the sentinel is decided at once");
    assert_eq!(describe_step(&s), (vec!["completed:c1".to_string()], true));
    assert_eq!(d.last_id, "");
}

#[test]
fn chat_data_that_is_not_the_sentinel_is_decoded() {
    let mut d = ChatSseDecoder::new();
    assert!(d.on_input(SseInput::Event("{\"choices\":[]}".to_string())).is_none());
    assert!(d.on_input(SseInput::Event("[DONE]x".to_string())).is_none());
    assert!(d.on_input(SseInput::Event("[done]".to_string())).is_none());
}

#[test]
fn chat_finish_reason_completes_and_drops_later_choices() {
    let mut d = ChatSseDecoder::new();
    let chunk = ChatStreamChunk {
        id: Some("c2".to_string()),
        choices: vec![
            choice(Some(""), None),
            choice(Some("A"), Some("stop")),
            choice(Some("B"), None),
        ],
    };
    let s = d.on_chunk(Ok(chunk));
    assert_eq!(describe_step(&s), (vec!["delta:A".to_string(), "completed:c2".to_string()], true));
}

#[test]
fn chat_completion_carries_latest_id() {
    let mut d = ChatSseDecoder::new();
    d.on_chunk(Ok(ChatStreamChunk { id: Some("first".to_string()), choices: vec![choice(Some("x"), None)] }));
    d.on_chunk(Ok(ChatStreamChunk { id: Some("second".to_string()), choices: vec![] }));
    d.on_chunk(Ok(ChatStreamChunk { id: None, choices: vec![choice(Some("y"), None)] }));
    let s = d.on_input(SseInput::Closed).expect("end of stream is decided at once");
    assert_eq!(describe_step(&s), (vec!["completed:second".to_string()], true));
}

#[test]
fn chat_completion_without_any_id_is_empty() {
    let mut d = ChatSseDecoder::new();
    let s = d.on_input(SseInput::Event("[DONE]".to_string())).unwrap();
    assert_eq!(describe_step(&s), (vec!["completed:".to_string()], true));
}

#[test]
fn chat_errors() {
    let mut d = ChatSseDecoder::new();
    let s = d.on_chunk(Err("missing field `choices`".to_string()));
    assert_eq!(
        describe_step(&s),
        (vec!["error:failed to parse chat SSE chunk: missing field `choices`".to_string()], true)
    );
    let s = d.on_input(SseInput::IdleTimeout).unwrap();
    assert_eq!(describe_step(&s), (vec!["error:idle timeout waiting for SSE".to_string()], true));
    let s = d.on_input(SseInput::TransportError("eof".to_string())).unwrap();
    assert_eq!(describe_step(&s), (vec!["error:eof".to_string()], true));
}
