//! The app server's turn: an [`Op`] becomes a [`Prompt`], and the model's
//! response stream becomes the [`EventMsg`] stream sent back.
//!
//! The relay below holds the decisions; waiting on the model's channel and
//! writing the SSE response happen outside the library.

use vstd::prelude::*;
use vstd::string::*;

use crate::client::{chat_message_view, chat_messages_spec, OutboundRequest, RequestBody};
use crate::config::WireApi;
use crate::protocol::{msgs_view, EventMsg, EventMsgView, Op};
use crate::state::AppState;
use crate::text::trim_trailing_slashes;
use crate::sse::OutcomeView;
use crate::types::{
    outcome_view, ApiError, ChatMessage, BaseInstructions, ContentItem, ContentItemView, Prompt, ResponseEvent,
    ResponseEventView, ResponseItem, ResponseItemView,
};

verus! {

/// The prompt of a user turn: the server's system prompt, then one user
/// message holding the turn's text.
pub fn build_prompt(system: &str, op: &Op) -> (p: Prompt)
    ensures
        p.base_instructions.text@ == system@,
        p.input@.len() == 1,
        p.input@[0]@ == (match op {
            Op::UserTurn { message } => ResponseItemView::Message {
                role: "user"@,
                content: seq![ContentItemView::InputText { text: message@ }],
            },
        }),
        p.tools@.len() == 0,
        !p.parallel_tool_calls,
        p.personality.is_none(),
        p.output_schema.is_none(),
        p.output_schema_strict,
{
    let Op::UserTurn { message } = op;
    let mut content: Vec<ContentItem> = Vec::new();
    content.push(ContentItem::InputText { text: message.clone() });
    let mut input: Vec<ResponseItem> = Vec::new();
    input.push(ResponseItem::Message { role: String::from_str("user"), content });
    let mut p = Prompt::default();
    p.base_instructions = BaseInstructions { text: String::from_str(system) };
    p.input = input;
    proof {
        let c = p.input@[0];
        match c {
            ResponseItem::Message { role, content } => {
                assert(content@.map_values(|x: ContentItem| x@) =~= seq![
                    ContentItemView::InputText { text: message@ },
                ]);
            },
        }
    }
    p
}

/// The request of a user turn: the turn's prompt, sent to the state's
/// client over the state's wire protocol.
pub fn turn_request(state: &AppState, op: &Op) -> (r: OutboundRequest)
    ensures
        r.method@ == "POST"@,
        r.authorization@ == "Bearer "@ + state.client.api_key@,
        r.content_type@ == "application/json"@,
        r.accept@ == "text/event-stream"@,
        match state.wire_api {
            WireApi::Responses => r.url@ == trim_trailing_slashes(state.client.base_url@)
                + "/responses"@,
            WireApi::Chat => r.url@ == trim_trailing_slashes(state.client.base_url@)
                + "/chat/completions"@,
        },
        match r.body {
            RequestBody::Responses(b) => state.wire_api == WireApi::Responses
                && b.model@ == state.client.model@
                && b.instructions@ == state.system_prompt@
                && b.input@.len() == 1
                && b.input@[0]@ == (match op {
                    Op::UserTurn { message } => ResponseItemView::Message {
                        role: "user"@,
                        content: seq![ContentItemView::InputText { text: message@ }],
                    },
                })
                && b.tools@.len() == 0 && !b.parallel_tool_calls && b.stream && !b.store
                && b.text is None,
            RequestBody::Chat(b) => state.wire_api == WireApi::Chat
                && b.model@ == state.client.model@
                && b.messages@.map_values(|m: ChatMessage| chat_message_view(m))
                    == (if state.system_prompt@.len() > 0 {
                    seq![("system"@, state.system_prompt@)]
                } else {
                    Seq::empty()
                }) + (match op {
                    Op::UserTurn { message } => seq![("user"@, message@)],
                })
                && b.stream,
        },
{
    let prompt = build_prompt(state.system_prompt.as_str(), op);
    let r = state.client.prepare_request(&prompt, state.wire_api);
    proof {
        let item = prompt.input@[0];
        let Op::UserTurn { message } = op;
        let cv = seq![ContentItemView::InputText { text: message@ }];
        assert(crate::client::joined_text(cv.drop_last()) =~= Seq::<char>::empty());
        assert(crate::client::joined_text(cv) =~= message@);
        assert(prompt.input@.map_values(|i: ResponseItem| crate::client::item_chat_message(i@))
            =~= seq![("user"@, message@)]);
    }
    r
}

/// The abstract state of a relay: the text of the deltas gathered so far,
/// and whether the turn has ended.
pub struct RelayView {
    pub buffered: Seq<char>,
    pub finished: bool,
}

/// What the relay does with one receive from the model's channel (`None`:
/// the channel closed): its next state and the messages it sends.
pub open spec fn relay_step(s: RelayView, ev: Option<OutcomeView>) -> (RelayView, Seq<EventMsgView>) {
    if s.finished {
        (s, Seq::empty())
    } else {
        match ev {
            None => (RelayView { buffered: s.buffered, finished: true }, Seq::empty()),
            Some(Ok(ResponseEventView::Created)) => (s, Seq::empty()),
            Some(Ok(ResponseEventView::OutputTextDelta(d))) => (
                RelayView { buffered: s.buffered + d, finished: false },
                seq![EventMsgView::AgentMessageDelta { delta: d }],
            ),
            Some(Ok(ResponseEventView::Completed { response_id })) => (
                RelayView { buffered: Seq::empty(), finished: true },
                seq![
                    EventMsgView::AgentMessage { message: s.buffered },
                    EventMsgView::TaskComplete { response_id },
                ],
            ),
            Some(Err(m)) => (
                RelayView { buffered: s.buffered, finished: true },
                seq![EventMsgView::Error { message: "stream error: "@ + m }],
            ),
        }
    }
}

/// The state a relay starts in once the model stream opened.
pub open spec fn relay_initial() -> RelayView {
    RelayView { buffered: Seq::empty(), finished: false }
}

/// What the relay does with a run of receives: its final state and all the
/// messages it sends, in order.
pub open spec fn relay_run(s: RelayView, evs: Seq<Option<OutcomeView>>) -> (RelayView, Seq<EventMsgView>)
    decreases evs.len(),
{
    if evs.len() == 0 {
        (s, Seq::empty())
    } else {
        let (s1, out1) = relay_step(s, evs[0]);
        let (s2, out2) = relay_run(s1, evs.drop_first());
        (s2, out1 + out2)
    }
}

/// The abstract form of one receive from the model's channel.
pub open spec fn received_view(ev: Option<Result<ResponseEvent, ApiError>>) -> Option<OutcomeView> {
    match ev {
        Some(r) => Some(outcome_view(r)),
        None => None,
    }
}

/// The relay of one turn: it buffers the text deltas so that, when the
/// model completes, the whole message goes out before the completion.
pub struct TurnRelay {
    buffered: String,
    finished: bool,
}

impl View for TurnRelay {
    type V = RelayView;

    closed spec fn view(&self) -> RelayView {
        RelayView { buffered: self.buffered@, finished: self.finished }
    }
}

impl TurnRelay {
    /// Starts a turn. The first message is always `TaskStarted`; when the
    /// model stream could not be opened, an `Error` with the error's text
    /// follows and the turn is over.
    pub fn begin(opened: Result<(), ApiError>) -> (r: (TurnRelay, Vec<EventMsg>))
        ensures
            match opened {
                Ok(()) => r.0@ == relay_initial() && msgs_view(r.1@) == seq![EventMsgView::TaskStarted],
                Err(e) => r.0@ == (RelayView { buffered: Seq::empty(), finished: true })
                    && msgs_view(r.1@) == seq![
                    EventMsgView::TaskStarted,
                    EventMsgView::Error { message: e.display_spec() },
                ],
            },
    {
        let mut out: Vec<EventMsg> = Vec::new();
        out.push(EventMsg::TaskStarted);
        match opened {
            Ok(()) => {
                let relay = TurnRelay { buffered: String::new(), finished: false };
                proof {
                    assert(msgs_view(out@) =~= seq![EventMsgView::TaskStarted]);
                }
                (relay, out)
            },
            Err(e) => {
                let message = e.display();
                out.push(EventMsg::Error { message });
                let relay = TurnRelay { buffered: String::new(), finished: true };
                proof {
                    assert(msgs_view(out@) =~= seq![
                        EventMsgView::TaskStarted,
                        EventMsgView::Error { message: e.display_spec() },
                    ]);
                }
                (relay, out)
            },
        }
    }

    /// Whether the turn is over: nothing more is to be received or sent.
    pub fn is_finished(&self) -> (b: bool)
        ensures
            b == self@.finished,
    {
        self.finished
    }

    /// One receive from the model's channel (`None`: the channel closed);
    /// returns the messages to send, in order.
    pub fn on_event(&mut self, ev: Option<Result<ResponseEvent, ApiError>>) -> (out: Vec<EventMsg>)
        ensures
            (final(self)@, msgs_view(out@)) == relay_step(old(self)@, received_view(ev)),
    {
        let mut out: Vec<EventMsg> = Vec::new();
        if self.finished {
            proof {
                assert(msgs_view(out@) =~= Seq::<EventMsgView>::empty());
            }
            return out;
        }
        match ev {
            None => {
                self.finished = true;
            },
            Some(Ok(ResponseEvent::Created)) => {},
            Some(Ok(ResponseEvent::OutputTextDelta(delta))) => {
                self.buffered.append(delta.as_str());
                out.push(EventMsg::AgentMessageDelta { delta });
            },
            Some(Ok(ResponseEvent::Completed { response_id })) => {
                let mut message = String::new();
                std::mem::swap(&mut message, &mut self.buffered);
                out.push(EventMsg::AgentMessage { message });
                out.push(EventMsg::TaskComplete { response_id });
                self.finished = true;
            },
            Some(Err(err)) => {
                let message = err.display();
                out.push(EventMsg::Error { message });
                self.finished = true;
            },
        }
        proof {
            let (s1, o1) = relay_step(old(self)@, received_view(ev));
            assert(msgs_view(out@) =~= o1);
        }
        out
    }
}

} // verus!
