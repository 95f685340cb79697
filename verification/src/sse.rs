//! Decisions of the two SSE pumps.
//!
//! The pumps themselves wait for the next server-sent event (with an idle
//! timeout) and forward typed events to a channel; that waiting and sending
//! happens outside the library. Here each observation of the transport is
//! turned into the events to forward and whether the pump stops afterwards.
//!
//! The events of a step are sent in order; a send that fails (the receiver
//! is gone) ends the pump at once.

use vstd::prelude::*;
use vstd::string::*;

use crate::laws_content::content_deltas;
use crate::text::{concat2, str_equal, trim_whitespace, trim_ws};
use crate::types::{
    outcome_view, ApiError, ChatChunkChoice, ChatStreamChunk, CompletedPayload, ResponseEvent,
    ResponseEventView, ResponsesStreamEvent,
};

verus! {

/// What the transport observed while the pump waited for the next event.
#[derive(Debug)]
pub enum SseInput<T> {
    /// An event arrived; `T` is what the pump has of it.
    Event(T),
    /// The event source reported an error, with its message.
    TransportError(String),
    /// The upstream stream ended.
    Closed,
    /// No event arrived within the idle timeout.
    IdleTimeout,
}

/// A decoded event, or the message of the error that ends the stream.
pub type OutcomeView = Result<ResponseEventView, Seq<char>>;

/// The abstract form of a sequence of stream outcomes.
pub open spec fn outcomes_view(v: Seq<Result<ResponseEvent, ApiError>>) -> Seq<OutcomeView> {
    v.map_values(|r: Result<ResponseEvent, ApiError>| outcome_view(r))
}

/// What one step of a pump does: the events to forward, in order, and
/// whether the pump stops after them.
#[derive(Debug)]
pub struct SseStep {
    pub events: Vec<Result<ResponseEvent, ApiError>>,
    pub done: bool,
}

impl SseStep {
    pub open spec fn view_events(&self) -> Seq<OutcomeView> {
        outcomes_view(self.events@)
    }
}

/// Whether an outcome ends a stream: a completion or an error.
pub open spec fn is_terminal(o: OutcomeView) -> bool {
    match o {
        Ok(ResponseEventView::Completed { .. }) => true,
        Ok(_) => false,
        Err(_) => true,
    }
}

/// The message sent when the upstream stream closes early.
pub open spec fn closed_early_msg() -> Seq<char> {
    "stream closed before response.completed"@
}

/// The message sent when no event arrives within the idle timeout.
pub open spec fn idle_timeout_msg() -> Seq<char> {
    "idle timeout waiting for SSE"@
}

fn stream_error(msg: String) -> (r: Result<ResponseEvent, ApiError>)
    ensures
        outcome_view(r) == Err::<ResponseEventView, Seq<char>>(msg@),
{
    Err(ApiError::Stream(msg))
}

fn one_step(r: Result<ResponseEvent, ApiError>, done: bool) -> (s: SseStep)
    ensures
        s.view_events() == seq![outcome_view(r)],
        s.done == done,
{
    let mut events = Vec::new();
    let ghost rr = r;
    events.push(r);
    proof {
        assert(outcomes_view(events@) =~= seq![outcome_view(rr)]);
    }
    SseStep { events, done }
}

fn empty_step() -> (s: SseStep)
    ensures
        s.view_events() == Seq::<OutcomeView>::empty(),
        !s.done,
{
    let events: Vec<Result<ResponseEvent, ApiError>> = Vec::new();
    proof {
        assert(outcomes_view(events@) =~= Seq::<OutcomeView>::empty());
    }
    SseStep { events, done: false }
}

// ---------------------------------------------------------------------------
// Responses API
// ---------------------------------------------------------------------------

/// What one Responses-API event envelope decodes to: an event, nothing (the
/// kind is ignored, or carries nothing), or an error message.
pub open spec fn responses_event_spec(e: ResponsesStreamEvent) -> Result<Option<ResponseEventView>, Seq<char>> {
    let k = e.kind@;
    if k == "response.created"@ {
        Ok(Some(ResponseEventView::Created))
    } else if k == "response.output_text.delta"@ {
        match e.delta {
            Some(d) => Ok(Some(ResponseEventView::OutputTextDelta(d@))),
            None => Ok(None),
        }
    } else if k == "response.completed"@ {
        match e.response {
            Some(CompletedPayload::Parsed(r)) => Ok(
                Some(ResponseEventView::Completed { response_id: r.id@ }),
            ),
            Some(CompletedPayload::Malformed(m)) => Err("failed to parse ResponseCompleted: "@ + m@),
            None => Ok(None),
        }
    } else if k == "response.failed"@ {
        Err("response.failed event received"@)
    } else {
        Ok(None)
    }
}

/// The abstract form of what `process_responses_event` returns.
pub open spec fn decoded_view(r: Result<Option<ResponseEvent>, ApiError>) -> Result<Option<ResponseEventView>, Seq<char>> {
    match r {
        Ok(Some(e)) => Ok(Some(e@)),
        Ok(None) => Ok(None),
        Err(err) => Err(err.msg()),
    }
}

/// Decodes one Responses-API event envelope by its kind: `response.created`,
/// `response.output_text.delta` and `response.completed` become events,
/// `response.failed` an error, and every other kind is ignored.
pub fn process_responses_event(event: ResponsesStreamEvent) -> (r: Result<Option<ResponseEvent>, ApiError>)
    ensures
        decoded_view(r) == responses_event_spec(event),
        event.kind@ == "response.output_text.delta"@ && event.delta is Some ==> decoded_view(r)
            == Ok::<Option<ResponseEventView>, Seq<char>>(
            Some(ResponseEventView::OutputTextDelta(event.delta->0@)),
        ),
{
    proof {
        crate::laws_content::law_responses_event_kinds(event);
    }
    let ghost e = event;
    let ResponsesStreamEvent { kind, delta, response } = event;
    if str_equal(kind.as_str(), "response.created") {
        Ok(Some(ResponseEvent::Created))
    } else if str_equal(kind.as_str(), "response.output_text.delta") {
        match delta {
            Some(d) => Ok(Some(ResponseEvent::OutputTextDelta(d))),
            None => Ok(None),
        }
    } else if str_equal(kind.as_str(), "response.completed") {
        match response {
            Some(CompletedPayload::Parsed(resp)) => Ok(
                Some(ResponseEvent::Completed { response_id: resp.id }),
            ),
            Some(CompletedPayload::Malformed(m)) => Err(
                ApiError::Stream(concat2("failed to parse ResponseCompleted: ", m.as_str())),
            ),
            None => Ok(None),
        }
    } else if str_equal(kind.as_str(), "response.failed") {
        Err(ApiError::Stream(String::from_str("response.failed event received")))
    } else {
        Ok(None)
    }
}

/// What the Responses-API pump does on one observation: the events it
/// forwards and whether it stops.
pub open spec fn responses_step_spec(input: SseInput<Result<ResponsesStreamEvent, String>>) -> (Seq<OutcomeView>, bool) {
    match input {
        SseInput::Event(Ok(e)) => match responses_event_spec(e) {
            Ok(Some(ev)) => (seq![Ok(ev)], ev is Completed),
            Ok(None) => (Seq::empty(), false),
            Err(m) => (seq![Err(m)], true),
        },
        SseInput::Event(Err(m)) => (seq![Err("failed to parse SSE event: "@ + m@)], true),
        SseInput::TransportError(m) => (seq![Err(m@)], true),
        SseInput::Closed => (seq![Err(closed_early_msg())], true),
        SseInput::IdleTimeout => (seq![Err(idle_timeout_msg())], true),
    }
}

/// One step of the Responses-API pump. An arrived event is given as its
/// decoded envelope, or as the message of the JSON decoder that refused it.
pub fn process_sse_step(input: SseInput<Result<ResponsesStreamEvent, String>>) -> (s: SseStep)
    ensures
        (s.view_events(), s.done) == responses_step_spec(input),
        (input matches SseInput::Event(Ok(e)) ==> (e.kind@ == "response.output_text.delta"@
            && e.delta is Some ==> s.view_events() == seq![
            Ok::<ResponseEventView, Seq<char>>(ResponseEventView::OutputTextDelta(e.delta->0@)),
        ] && !s.done)),
{
    match input {
        SseInput::Event(Ok(event)) => {
            proof {
                if event.kind@ == "response.output_text.delta"@ && event.delta is Some {
                    crate::laws_content::law_responses_delta_forwarded_verbatim(event);
                }
            }
            let decoded = process_responses_event(event);
            match decoded {
                Ok(Some(ev)) => {
                    let is_completed = match &ev {
                        ResponseEvent::Completed { .. } => true,
                        _ => false,
                    };
                    one_step(Ok(ev), is_completed)
                },
                Ok(None) => empty_step(),
                Err(err) => one_step(Err(err), true),
            }
        },
        SseInput::Event(Err(m)) => one_step(
            stream_error(concat2("failed to parse SSE event: ", m.as_str())),
            true,
        ),
        SseInput::TransportError(m) => one_step(stream_error(m), true),
        SseInput::Closed => one_step(
            stream_error(String::from_str("stream closed before response.completed")),
            true,
        ),
        SseInput::IdleTimeout => one_step(
            stream_error(String::from_str("idle timeout waiting for SSE")),
            true,
        ),
    }
}

// ---------------------------------------------------------------------------
// Chat completions
// ---------------------------------------------------------------------------

/// The content a choice carries, when it carries a non-empty one.
pub open spec fn choice_text(c: ChatChunkChoice) -> Option<Seq<char>> {
    match c.delta.content {
        Some(s) => if s@.len() > 0 {
            Some(s@)
        } else {
            None
        },
        None => None,
    }
}

/// The events the choices of one chunk give, in order, and whether one of
/// them finished the stream: each non-empty content becomes a delta, and
/// the first choice with a finish reason adds a completion carrying `id`
/// and ends the list.
pub open spec fn chat_choice_events(cs: Seq<ChatChunkChoice>, id: Seq<char>) -> (Seq<OutcomeView>, bool)
    decreases cs.len(),
{
    if cs.len() == 0 {
        (Seq::empty(), false)
    } else {
        let c = cs[0];
        let d: Seq<OutcomeView> = match choice_text(c) {
            Some(t) => seq![Ok(ResponseEventView::OutputTextDelta(t))],
            None => Seq::empty(),
        };
        if c.finish_reason is Some {
            (d.push(Ok(ResponseEventView::Completed { response_id: id })), true)
        } else {
            let rest = chat_choice_events(cs.drop_first(), id);
            (d + rest.0, rest.1)
        }
    }
}

/// The state of the chat-completions pump: the id of the latest chunk that
/// carried one (empty before any, and again once a completion took it).
#[derive(Debug)]
pub struct ChatSseDecoder {
    pub last_id: String,
}

/// What the chat pump does on one observation: `None` when an event arrived
/// that is not the `[DONE]` sentinel (its data is then decoded as a chunk),
/// else the events forwarded and whether the pump stops.
pub open spec fn chat_input_spec(last_id: Seq<char>, input: SseInput<String>) -> Option<(Seq<OutcomeView>, bool)> {
    match input {
        SseInput::Event(data) => if trim_ws(data@) == "[DONE]"@ {
            Some((seq![Ok(ResponseEventView::Completed { response_id: last_id })], true))
        } else {
            None
        },
        SseInput::TransportError(m) => Some((seq![Err(m@)], true)),
        SseInput::Closed => Some(
            (seq![Ok(ResponseEventView::Completed { response_id: last_id })], true),
        ),
        SseInput::IdleTimeout => Some((seq![Err(idle_timeout_msg())], true)),
    }
}

/// Whether an observation completes the chat stream: the `[DONE]` sentinel
/// (whitespace around it aside) or the end of the upstream stream.
pub open spec fn chat_input_completes(input: SseInput<String>) -> bool {
    match input {
        SseInput::Event(data) => trim_ws(data@) == "[DONE]"@,
        SseInput::Closed => true,
        _ => false,
    }
}

/// The id a chunk leaves behind: its own when it has one, else the previous.
pub open spec fn next_last_id(last_id: Seq<char>, chunk: ChatStreamChunk) -> Seq<char> {
    match chunk.id {
        Some(id) => id@,
        None => last_id,
    }
}

/// What the chat pump does with a decoded chunk (or the decoder's message).
pub open spec fn chat_chunk_spec(last_id: Seq<char>, chunk: Result<ChatStreamChunk, String>) -> (Seq<OutcomeView>, bool) {
    match chunk {
        Ok(c) => chat_choice_events(c.choices@, next_last_id(last_id, c)),
        Err(m) => (seq![Err("failed to parse chat SSE chunk: "@ + m@)], true),
    }
}

impl ChatSseDecoder {
    /// A pump that has seen no chunk yet.
    pub fn new() -> (d: Self)
        ensures
            d.last_id@ == Seq::<char>::empty(),
    {
        ChatSseDecoder { last_id: String::new() }
    }

    fn take_last_id(&mut self) -> (id: String)
        ensures
            id@ == old(self).last_id@,
            final(self).last_id@ == Seq::<char>::empty(),
    {
        let mut id = String::new();
        std::mem::swap(&mut id, &mut self.last_id);
        id
    }

    /// One observation of the transport. Returns `None` when an event
    /// arrived that is not `[DONE]` (after trimming whitespace): its data is
    /// then to be decoded as a chunk and given to [`Self::on_chunk`].
    pub fn on_input(&mut self, input: SseInput<String>) -> (r: Option<SseStep>)
        ensures
            match r {
                Some(s) => chat_input_spec(old(self).last_id@, input) == Some((s.view_events(), s.done)),
                None => chat_input_spec(old(self).last_id@, input) is None,
            },
            final(self).last_id@ == (if chat_input_completes(input) {
                Seq::<char>::empty()
            } else {
                old(self).last_id@
            }),
    {
        match input {
            SseInput::Event(data) => {
                let trimmed = trim_whitespace(data.as_str());
                if str_equal(trimmed, "[DONE]") {
                    let id = self.take_last_id();
                    Some(one_step(Ok(ResponseEvent::Completed { response_id: id }), true))
                } else {
                    None
                }
            },
            SseInput::TransportError(m) => Some(one_step(stream_error(m), true)),
            SseInput::Closed => {
                let id = self.take_last_id();
                Some(one_step(Ok(ResponseEvent::Completed { response_id: id }), true))
            },
            SseInput::IdleTimeout => Some(
                one_step(stream_error(String::from_str("idle timeout waiting for SSE")), true),
            ),
        }
    }

    /// One decoded chunk (or the message of the JSON decoder that refused
    /// the data). The chunk's id, when present, becomes the latest id; each
    /// choice then forwards its non-empty content, and the first choice with
    /// a finish reason forwards a completion carrying the latest id and
    /// stops the pump.
    pub fn on_chunk(&mut self, chunk: Result<ChatStreamChunk, String>) -> (s: SseStep)
        ensures
            (s.view_events(), s.done) == chat_chunk_spec(old(self).last_id@, chunk),
            final(self).last_id@ == (match chunk {
                Ok(c) => if s.done {
                    Seq::<char>::empty()
                } else {
                    next_last_id(old(self).last_id@, c)
                },
                Err(_) => old(self).last_id@,
            }),
            (chunk matches Ok(c) ==> ((forall|j: int|
                0 <= j < c.choices@.len() ==> (#[trigger] c.choices@[j]).finish_reason is None)
                ==> s.view_events() == content_deltas(c.choices@) && !s.done)),
    {
        match chunk {
            Err(m) => one_step(
                stream_error(concat2("failed to parse chat SSE chunk: ", m.as_str())),
                true,
            ),
            Ok(c) => {
                let ghost c0 = c;
                let ChatStreamChunk { id, choices } = c;
                match id {
                    Some(i) => {
                        self.last_id = i;
                    },
                    None => {},
                }
                let ghost lid = self.last_id@;
                assert(lid == next_last_id(old(self).last_id@, c0));
                let ghost cs = choices@;
                proof {
                    if forall|j: int| 0 <= j < cs.len() ==> (#[trigger] cs[j]).finish_reason is None {
                        crate::laws_content::law_chat_contents_forwarded_verbatim(cs, lid);
                    }
                }
                let mut events: Vec<Result<ResponseEvent, ApiError>> = Vec::new();
                let n: usize = choices.len();
                let mut k: usize = 0;
                assert(cs.skip(0) =~= cs);
                while k < n
                    invariant
                        n == cs.len(),
                        cs == choices@,
                        k <= n,
                        self.last_id@ == lid,
                        lid == next_last_id(old(self).last_id@, c0),
                        c0.choices@ == cs,
                        chunk == Ok::<ChatStreamChunk, String>(c0),
                        (forall|j: int| 0 <= j < cs.len() ==> (#[trigger] cs[j]).finish_reason is None)
                            ==> chat_choice_events(cs, lid) == (content_deltas(cs), false),
                        chat_choice_events(cs, lid) == (
                            outcomes_view(events@) + chat_choice_events(cs.skip(k as int), lid).0,
                            chat_choice_events(cs.skip(k as int), lid).1,
                        ),
                    decreases n - k,
                {
                    let ghost rest = cs.skip(k as int);
                    let ghost ev0 = outcomes_view(events@);
                    assert(rest[0] == cs[k as int]);
                    assert(rest.drop_first() =~= cs.skip(k + 1));
                    let choice = &choices[k];
                    match &choice.delta.content {
                        Some(content) => {
                            if !content.as_str().is_empty() {
                                events.push(Ok(ResponseEvent::OutputTextDelta(content.clone())));
                            }
                        },
                        None => {},
                    }
                    let ghost d = outcomes_view(events@);
                    proof {
                        let dd: Seq<OutcomeView> = match choice_text(cs[k as int]) {
                            Some(t) => seq![Ok(ResponseEventView::OutputTextDelta(t))],
                            None => Seq::empty(),
                        };
                        assert(d =~= ev0 + dd);
                    }
                    if choice.finish_reason.is_some() {
                        let id = self.take_last_id();
                        events.push(Ok(ResponseEvent::Completed { response_id: id }));
                        proof {
                            let dd: Seq<OutcomeView> = match choice_text(cs[k as int]) {
                                Some(t) => seq![Ok(ResponseEventView::OutputTextDelta(t))],
                                None => Seq::empty(),
                            };
                            assert(outcomes_view(events@) =~= ev0 + dd.push(
                                Ok(ResponseEventView::Completed { response_id: lid }),
                            ));
                        }
                        return SseStep { events, done: true };
                    }
                    k = k + 1;
                }
                proof {
                    assert(cs.skip(n as int) =~= Seq::<ChatChunkChoice>::empty());
                    assert(outcomes_view(events@) + Seq::<OutcomeView>::empty() =~= outcomes_view(events@));
                }
                SseStep { events, done: false }
            },
        }
    }
}

} // verus!
