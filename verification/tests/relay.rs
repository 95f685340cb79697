use std::sync::Arc;

use simple_codex::client::{ModelClient, RequestBody};
use simple_codex::config::WireApi;
use simple_codex::protocol::{EventMsg, Op, UserTurnRequest};
use simple_codex::state::AppState;
use simple_codex::transport::{build_prompt, turn_request, TurnRelay};
use simple_codex::types::{ApiError, ContentItem, ResponseEvent, ResponseItem};

fn show(m: &EventMsg) -> String {
    match m {
        EventMsg::TaskStarted => "started".to_string(),
        EventMsg::AgentMessageDelta { delta } => format!("delta:{delta}"),
        EventMsg::AgentMessage { message } => format!("message:{message}"),
        EventMsg::TaskComplete { response_id } => format!("complete:{response_id}"),
        EventMsg::Error { message } => format!("error:{message}"),
    }
}

fn shows(v: &[EventMsg]) -> Vec<String> {
    v.iter().map(show).collect()
}

#[test]
fn event_names_match_the_variants() {
    assert_eq!(EventMsg::TaskStarted.event_name(), "task_started");
    assert_eq!(EventMsg::AgentMessageDelta { delta: "x".into() }.event_name(), "agent_message_delta");
    assert_eq!(EventMsg::AgentMessage { message: "x".into() }.event_name(), "agent_message");
    assert_eq!(EventMsg::TaskComplete { response_id: "x".into() }.event_name(), "task_complete");
    assert_eq!(EventMsg::Error { message: "x".into() }.event_name(), "error");
}

#[test]
fn op_from_request() {
    let op = Op::from(UserTurnRequest { message: "你好".to_string() });
    let Op::UserTurn { message } = op;
    assert_eq!(message, "你好");
}

#[test]
fn relay_joins_deltas_into_the_agent_message() {
    let (mut relay, start) = TurnRelay::begin(Ok(()));
    assert_eq!(shows(&start), vec!["started"]);
    assert!(shows(&relay.on_event(Some(Ok(ResponseEvent::Created)))).is_empty());
    assert_eq!(shows(&relay.on_event(Some(Ok(ResponseEvent::OutputTextDelta("你".into()))))), vec!["delta:你"]);
    assert_eq!(shows(&relay.on_event(Some(Ok(ResponseEvent::OutputTextDelta("好".into()))))), vec!["delta:好"]);
    assert!(!relay.is_finished());
    let end = relay.on_event(Some(Ok(ResponseEvent::Completed { response_id: "resp_xxx".into() })));
    assert_eq!(shows(&end), vec!["message:你好", "complete:resp_xxx"]);
    assert!(relay.is_finished());
}

#[test]
fn relay_is_silent_after_the_turn_ends() {
    let (mut relay, _) = TurnRelay::begin(Ok(()));
    let out = relay.on_event(Some(Err(ApiError::Stream("boom".into()))));
    assert_eq!(shows(&out), vec!["error:stream error: boom"]);
    assert!(relay.is_finished());
    assert!(relay.on_event(Some(Ok(ResponseEvent::OutputTextDelta("late".into())))).is_empty());
    assert!(relay.on_event(Some(Ok(ResponseEvent::Completed { response_id: "r".into() }))).is_empty());
    assert!(relay.on_event(None).is_empty());
}

#[test]
fn relay_reports_a_stream_that_could_not_open() {
    let (relay, start) = TurnRelay::begin(Err(ApiError::Stream("HTTP 401 Unauthorized: no".into())));
    assert_eq!(shows(&start), vec!["started", "error:stream error: HTTP 401 Unauthorized: no"]);
    assert!(relay.is_finished());
}

#[test]
fn relay_ends_quietly_when_the_channel_closes() {
    let (mut relay, _) = TurnRelay::begin(Ok(()));
    relay.on_event(Some(Ok(ResponseEvent::OutputTextDelta("partial".into()))));
    assert!(relay.on_event(None).is_empty());
    assert!(relay.is_finished());
}

#[test]
fn relay_never_sends_task_started_twice() {
    let (mut relay, _) = TurnRelay::begin(Ok(()));
    let mut all = Vec::new();
    all.extend(relay.on_event(Some(Ok(ResponseEvent::Created))));
    all.extend(relay.on_event(Some(Ok(ResponseEvent::Created))));
    all.extend(relay.on_event(Some(Ok(ResponseEvent::Completed { response_id: "r".into() }))));
    assert!(all.iter().all(|m| !matches!(m, EventMsg::TaskStarted)));
}

#[test]
fn prompt_of_a_user_turn() {
    let p = build_prompt("You are a helpful assistant.", &Op::UserTurn { message: "hi".into() });
    assert_eq!(p.base_instructions.text, "You are a helpful assistant.");
    assert_eq!(p.input.len(), 1);
    let ResponseItem::Message { role, content } = &p.input[0];
    assert_eq!(role, "user");
    assert_eq!(content.len(), 1);
    assert!(matches!(&content[0], ContentItem::InputText { text } if text == "hi"));
    assert!(p.tools.is_empty());
    assert!(!p.parallel_tool_calls);
    assert!(p.output_schema.is_none());
    assert!(p.output_schema_strict);
}

#[test]
fn turn_request_follows_the_wire_api() {
    let client = Arc::new(ModelClient::new("k".into(), "https://api.example.com/v1/".into(), "m1".into()));
    let state = AppState { client: client.clone(), system_prompt: "sys".into(), wire_api: WireApi::Chat };
    let r = turn_request(&state, &Op::UserTurn { message: "hello".into() });
    assert_eq!(r.url, "https://api.example.com/v1/chat/completions");
    assert_eq!(r.authorization, "Bearer k");
    match r.body {
        RequestBody::Chat(b) => {
            assert_eq!(b.model, "m1");
            assert!(b.stream);
            let msgs: Vec<(String, String)> = b.messages.into_iter().map(|m| (m.role, m.content)).collect();
            assert_eq!(msgs, vec![("system".to_string(), "sys".to_string()), ("user".to_string(), "hello".to_string())]);
        }
        RequestBody::Responses(_) => panic!("expected a chat body"),
    }
    let state = AppState { client, system_prompt: String::new(), wire_api: WireApi::Responses };
    let r = turn_request(&state, &Op::UserTurn { message: "hello".into() });
    assert_eq!(r.url, "https://api.example.com/v1/responses");
    match r.body {
        RequestBody::Responses(b) => {
            assert_eq!(b.instructions, "");
            assert_eq!(b.input.len(), 1);
            assert!(b.stream && !b.store && b.text.is_none());
        }
        RequestBody::Chat(_) => panic!("expected a responses body"),
    }
}
