//! The app server's wire contract: the request it takes, the operation it
//! turns that into, and the events it streams back.

use vstd::prelude::*;

verus! {

/// The body of `POST /v1/chat`: `{"message": "..."}`.
#[derive(Debug)]
pub struct UserTurnRequest {
    pub message: String,
}

/// The internal form of a request.
#[derive(Debug)]
pub enum Op {
    UserTurn { message: String },
}

impl From<UserTurnRequest> for Op {
    fn from(req: UserTurnRequest) -> (r: Self) {
        Op::UserTurn { message: req.message }
    }
}

impl vstd::std_specs::convert::FromSpecImpl<UserTurnRequest> for Op {
    open spec fn obeys_from_spec() -> bool {
        true
    }

    open spec fn from_spec(req: UserTurnRequest) -> Self {
        Op::UserTurn { message: req.message }
    }
}

/// An event streamed back to the client of the app server.
#[derive(Debug)]
pub enum EventMsg {
    TaskStarted,
    AgentMessageDelta { delta: String },
    AgentMessage { message: String },
    TaskComplete { response_id: String },
    Error { message: String },
}

/// The abstract form of an [`EventMsg`], over character sequences.
pub enum EventMsgView {
    TaskStarted,
    AgentMessageDelta { delta: Seq<char> },
    AgentMessage { message: Seq<char> },
    TaskComplete { response_id: Seq<char> },
    Error { message: Seq<char> },
}

impl View for EventMsg {
    type V = EventMsgView;

    open spec fn view(&self) -> EventMsgView {
        match self {
            EventMsg::TaskStarted => EventMsgView::TaskStarted,
            EventMsg::AgentMessageDelta { delta } => EventMsgView::AgentMessageDelta { delta: delta@ },
            EventMsg::AgentMessage { message } => EventMsgView::AgentMessage { message: message@ },
            EventMsg::TaskComplete { response_id } => EventMsgView::TaskComplete {
                response_id: response_id@,
            },
            EventMsg::Error { message } => EventMsgView::Error { message: message@ },
        }
    }
}

/// The SSE event name of each kind of message: the snake-case form of the
/// variant's name, which is also its `type` tag in the JSON payload.
pub open spec fn event_name_spec(m: EventMsgView) -> Seq<char> {
    match m {
        EventMsgView::TaskStarted => "task_started"@,
        EventMsgView::AgentMessageDelta { .. } => "agent_message_delta"@,
        EventMsgView::AgentMessage { .. } => "agent_message"@,
        EventMsgView::TaskComplete { .. } => "task_complete"@,
        EventMsgView::Error { .. } => "error"@,
    }
}

impl EventMsg {
    /// The SSE event name under which the message is sent.
    pub fn event_name(&self) -> (r: &'static str)
        ensures
            r@ == event_name_spec(self@),
    {
        match self {
            EventMsg::TaskStarted => "task_started",
            EventMsg::AgentMessageDelta { .. } => "agent_message_delta",
            EventMsg::AgentMessage { .. } => "agent_message",
            EventMsg::TaskComplete { .. } => "task_complete",
            EventMsg::Error { .. } => "error",
        }
    }
}

/// The abstract form of a list of messages.
pub open spec fn msgs_view(v: Seq<EventMsg>) -> Seq<EventMsgView> {
    v.map_values(|m: EventMsg| m@)
}

} // verus!
