//! Properties of the library as a whole, stated over the specifications
//! that the functions' contracts use, and proved.

use vstd::prelude::*;

use crate::config::{find_provider, ids_unique, is_first_with_id, ModelProviderInfo};
use crate::protocol::EventMsgView;
use crate::sse::{
    chat_choice_events, chat_input_completes, chat_input_spec, is_terminal, next_last_id,
    responses_step_spec, OutcomeView, SseInput,
};
use crate::text::trim_trailing_slashes;
use crate::transport::{relay_initial, relay_run, relay_step, RelayView};
use crate::types::{ChatChunkChoice, ChatStreamChunk, ResponseEventView, ResponsesStreamEvent};

verus! {

// ---------------------------------------------------------------------------
// The Responses-API pump
// ---------------------------------------------------------------------------

/// The Responses-API pump forwards at most one outcome per observation, and
/// it stops exactly when that outcome is a completion or an error.
pub proof fn law_responses_pump_stops_exactly_on_terminal(input: SseInput<Result<ResponsesStreamEvent, String>>)
    ensures
        responses_step_spec(input).0.len() <= 1,
        responses_step_spec(input).1 <==> (responses_step_spec(input).0.len() == 1 && is_terminal(
            responses_step_spec(input).0[0],
        )),
{
}

// ---------------------------------------------------------------------------
// The chat-completions pump
// ---------------------------------------------------------------------------

/// Whether every outcome of a list is a text delta.
pub open spec fn only_deltas(evs: Seq<OutcomeView>) -> bool {
    forall|i: int| 0 <= i < evs.len() ==> (#[trigger] evs[i]) matches Ok(ResponseEventView::OutputTextDelta(_))
}

/// Whether some choice of a list has a finish reason.
pub open spec fn some_choice_finishes(cs: Seq<ChatChunkChoice>) -> bool {
    exists|i: int| 0 <= i < cs.len() && (#[trigger] cs[i]).finish_reason is Some
}

/// Within one chunk, the chat pump forwards text deltas only, except that
/// it ends with a completion carrying `id` exactly when some choice has a
/// finish reason, and then stops.
pub proof fn law_chat_chunk_completion_comes_last(cs: Seq<ChatChunkChoice>, id: Seq<char>)
    ensures
        chat_choice_events(cs, id).1 == some_choice_finishes(cs),
        chat_choice_events(cs, id).1 ==> {
            let evs = chat_choice_events(cs, id).0;
            &&& evs.len() > 0
            &&& evs.last() == Ok::<ResponseEventView, Seq<char>>(
                ResponseEventView::Completed { response_id: id },
            )
            &&& only_deltas(evs.drop_last())
        },
        !chat_choice_events(cs, id).1 ==> only_deltas(chat_choice_events(cs, id).0),
    decreases cs.len(),
{
    if cs.len() == 0 {
        assert(!some_choice_finishes(cs));
    } else {
        let c = cs[0];
        let d: Seq<OutcomeView> = match crate::sse::choice_text(c) {
            Some(t) => seq![Ok(ResponseEventView::OutputTextDelta(t))],
            None => Seq::empty(),
        };
        assert(only_deltas(d));
        if c.finish_reason is Some {
            assert(some_choice_finishes(cs));
            let evs = d.push(Ok(ResponseEventView::Completed { response_id: id }));
            assert(evs.drop_last() =~= d);
        } else {
            let rest = chat_choice_events(cs.drop_first(), id);
            law_chat_chunk_completion_comes_last(cs.drop_first(), id);
            let evs = d + rest.0;
            if some_choice_finishes(cs) {
                let i: int = choose|i: int| 0 <= i < cs.len() && (#[trigger] cs[i]).finish_reason is Some;
                assert(i > 0);
                assert(cs.drop_first()[i - 1] == cs[i]);
            }
            if some_choice_finishes(cs.drop_first()) {
                let i: int = choose|i: int|
                    0 <= i < cs.drop_first().len() && (#[trigger] cs.drop_first()[i]).finish_reason is Some;
                assert(cs[i + 1] == cs.drop_first()[i]);
            }
            if rest.1 {
                assert(evs.last() == rest.0.last());
                assert(evs.drop_last() =~= d + rest.0.drop_last());
                assert forall|k: int| 0 <= k < evs.drop_last().len() implies (#[trigger] evs.drop_last()[k]) matches Ok(
                    ResponseEventView::OutputTextDelta(_),
                ) by {
                    if k >= d.len() {
                        assert(evs.drop_last()[k] == rest.0.drop_last()[k - d.len()]);
                    }
                }
            } else {
                assert forall|k: int| 0 <= k < evs.len() implies (#[trigger] evs[k]) matches Ok(
                    ResponseEventView::OutputTextDelta(_),
                ) by {
                    if k >= d.len() {
                        assert(evs[k] == rest.0[k - d.len()]);
                    }
                }
            }
        }
    }
}

/// The chat pump's latest id after a run of chunks (none of them
/// finishing), starting from `last_id`.
pub open spec fn chat_state_after(last_id: Seq<char>, chunks: Seq<ChatStreamChunk>) -> Seq<char>
    decreases chunks.len(),
{
    if chunks.len() == 0 {
        last_id
    } else {
        chat_state_after(next_last_id(last_id, chunks[0]), chunks.drop_first())
    }
}

/// The id of the last chunk of a run that carried one; `otherwise` when
/// none did.
pub open spec fn latest_chunk_id_or(otherwise: Seq<char>, chunks: Seq<ChatStreamChunk>) -> Seq<char>
    decreases chunks.len(),
{
    if chunks.len() == 0 {
        otherwise
    } else {
        match chunks.last().id {
            Some(i) => i@,
            None => latest_chunk_id_or(otherwise, chunks.drop_last()),
        }
    }
}

proof fn lemma_latest_peel_first(s: Seq<char>, chunks: Seq<ChatStreamChunk>)
    requires
        chunks.len() > 0,
    ensures
        latest_chunk_id_or(s, chunks) == latest_chunk_id_or(next_last_id(s, chunks[0]), chunks.drop_first()),
    decreases chunks.len(),
{
    let n = next_last_id(s, chunks[0]);
    if chunks.len() == 1 {
        assert(chunks.drop_last().len() == 0);
        assert(chunks.drop_first().len() == 0);
        assert(chunks.last() == chunks[0]);
        assert(latest_chunk_id_or(s, chunks.drop_last()) == s);
        assert(latest_chunk_id_or(n, chunks.drop_first()) == n);
    } else {
        assert(chunks.drop_first().last() == chunks.last());
        if chunks.last().id is None {
            lemma_latest_peel_first(s, chunks.drop_last());
            assert(chunks.drop_last()[0] == chunks[0]);
            assert(chunks.drop_last().drop_first() =~= chunks.drop_first().drop_last());
            assert(latest_chunk_id_or(n, chunks.drop_first()) == latest_chunk_id_or(
                n,
                chunks.drop_first().drop_last(),
            ));
        }
    }
}

proof fn lemma_state_after_is_latest(s: Seq<char>, chunks: Seq<ChatStreamChunk>)
    ensures
        chat_state_after(s, chunks) == latest_chunk_id_or(s, chunks),
    decreases chunks.len(),
{
    if chunks.len() > 0 {
        lemma_state_after_is_latest(next_last_id(s, chunks[0]), chunks.drop_first());
        lemma_latest_peel_first(s, chunks);
    }
}

/// The completion the chat pump sends when the stream ends (the `[DONE]`
/// sentinel or the end of the upstream stream) carries the id of the latest
/// chunk that had one, or the empty id when none had.
pub proof fn law_chat_completion_carries_latest_id(chunks: Seq<ChatStreamChunk>, input: SseInput<String>)
    requires
        chat_input_completes(input),
    ensures
        chat_input_spec(chat_state_after(Seq::empty(), chunks), input) == Some(
            (
                seq![
                    Ok::<ResponseEventView, Seq<char>>(
                        ResponseEventView::Completed {
                            response_id: latest_chunk_id_or(Seq::empty(), chunks),
                        },
                    ),
                ],
                true,
            ),
        ),
{
    lemma_state_after_is_latest(Seq::empty(), chunks);
}

// ---------------------------------------------------------------------------
// The app server's relay
// ---------------------------------------------------------------------------

/// Whether a receive is a `Created` event or a text delta.
pub open spec fn is_created_or_delta(e: Option<OutcomeView>) -> bool {
    ||| e matches Some(Ok(ResponseEventView::Created))
    ||| e matches Some(Ok(ResponseEventView::OutputTextDelta(_)))
}

/// The text of all the deltas of a run of receives, one after the other.
pub open spec fn delta_text(evs: Seq<Option<OutcomeView>>) -> Seq<char>
    decreases evs.len(),
{
    if evs.len() == 0 {
        Seq::empty()
    } else {
        let head: Seq<char> = match evs[0] {
            Some(Ok(ResponseEventView::OutputTextDelta(d))) => d,
            _ => Seq::empty(),
        };
        head + delta_text(evs.drop_first())
    }
}

/// One `AgentMessageDelta` per delta of a run of receives, in order.
pub open spec fn delta_messages(evs: Seq<Option<OutcomeView>>) -> Seq<EventMsgView>
    decreases evs.len(),
{
    if evs.len() == 0 {
        Seq::empty()
    } else {
        let head: Seq<EventMsgView> = match evs[0] {
            Some(Ok(ResponseEventView::OutputTextDelta(d))) => seq![
                EventMsgView::AgentMessageDelta { delta: d },
            ],
            _ => Seq::empty(),
        };
        head + delta_messages(evs.drop_first())
    }
}

proof fn lemma_relay_completion(buf: Seq<char>, evs: Seq<Option<OutcomeView>>, id: Seq<char>)
    requires
        forall|i: int| 0 <= i < evs.len() ==> is_created_or_delta(#[trigger] evs[i]),
    ensures
        relay_run(
            RelayView { buffered: buf, finished: false },
            evs.push(Some(Ok(ResponseEventView::Completed { response_id: id }))),
        ) == (
            RelayView { buffered: Seq::empty(), finished: true },
            delta_messages(evs) + seq![
                EventMsgView::AgentMessage { message: buf + delta_text(evs) },
                EventMsgView::TaskComplete { response_id: id },
            ],
        ),
    decreases evs.len(),
{
    let s = RelayView { buffered: buf, finished: false };
    let last: Option<OutcomeView> = Some(Ok(ResponseEventView::Completed { response_id: id }));
    let all = evs.push(last);
    if evs.len() == 0 {
        assert(all.drop_first().len() == 0);
        assert(all[0] == last);
        assert(buf + Seq::<char>::empty() =~= buf);
        assert(delta_text(evs) == Seq::<char>::empty());
        assert(delta_messages(evs) == Seq::<EventMsgView>::empty());
        let (s1, out1) = relay_step(s, last);
        assert(relay_run(s1, all.drop_first()) == (s1, Seq::<EventMsgView>::empty()));
        assert(out1 + Seq::<EventMsgView>::empty() =~= out1);
        assert(Seq::<EventMsgView>::empty() + out1 =~= out1);
        assert(relay_run(s, all) == (s1, out1 + Seq::<EventMsgView>::empty()));
    } else {
        let e0 = evs[0];
        assert(all[0] == e0);
        assert(all.drop_first() =~= evs.drop_first().push(last));
        assert(is_created_or_delta(e0));
        let (s1, out1) = relay_step(s, e0);
        assert forall|i: int| 0 <= i < evs.drop_first().len() implies is_created_or_delta(
            #[trigger] evs.drop_first()[i],
        ) by {
            assert(evs.drop_first()[i] == evs[i + 1]);
        }
        lemma_relay_completion(s1.buffered, evs.drop_first(), id);
        match e0 {
            Some(Ok(ResponseEventView::OutputTextDelta(d))) => {
                assert(buf + d + delta_text(evs.drop_first()) =~= buf + (d + delta_text(
                    evs.drop_first(),
                )));
                assert(out1 + (delta_messages(evs.drop_first()) + seq![
                    EventMsgView::AgentMessage { message: buf + delta_text(evs) },
                    EventMsgView::TaskComplete { response_id: id },
                ]) =~= delta_messages(evs) + seq![
                    EventMsgView::AgentMessage { message: buf + delta_text(evs) },
                    EventMsgView::TaskComplete { response_id: id },
                ]);
            },
            _ => {
                assert(Seq::<char>::empty() + delta_text(evs.drop_first()) =~= delta_text(
                    evs.drop_first(),
                ));
                assert(Seq::<EventMsgView>::empty() + delta_messages(evs.drop_first())
                    =~= delta_messages(evs.drop_first()));
                assert(out1 =~= Seq::<EventMsgView>::empty());
                assert(out1 + (delta_messages(evs.drop_first()) + seq![
                    EventMsgView::AgentMessage { message: buf + delta_text(evs) },
                    EventMsgView::TaskComplete { response_id: id },
                ]) =~= delta_messages(evs) + seq![
                    EventMsgView::AgentMessage { message: buf + delta_text(evs) },
                    EventMsgView::TaskComplete { response_id: id },
                ]);
            },
        }
    }
}

/// When the model completes after a run of `Created` events and text
/// deltas, the relay has sent one `AgentMessageDelta` per delta, then sends
/// an `AgentMessage` holding all the deltas' text joined together and a
/// `TaskComplete` with the response id, and the turn is over.
pub proof fn law_agent_message_joins_all_deltas(evs: Seq<Option<OutcomeView>>, id: Seq<char>)
    requires
        forall|i: int| 0 <= i < evs.len() ==> is_created_or_delta(#[trigger] evs[i]),
    ensures
        relay_run(relay_initial(), evs.push(Some(Ok(ResponseEventView::Completed { response_id: id }))))
            == (
            RelayView { buffered: Seq::empty(), finished: true },
            delta_messages(evs) + seq![
                EventMsgView::AgentMessage { message: delta_text(evs) },
                EventMsgView::TaskComplete { response_id: id },
            ],
        ),
{
    lemma_relay_completion(Seq::empty(), evs, id);
    assert(Seq::<char>::empty() + delta_text(evs) =~= delta_text(evs));
}

/// Once a turn is over, the relay sends nothing more, whatever it receives.
pub proof fn law_finished_relay_is_silent(s: RelayView, evs: Seq<Option<OutcomeView>>)
    requires
        s.finished,
    ensures
        relay_run(s, evs) == (s, Seq::<EventMsgView>::empty()),
    decreases evs.len(),
{
    if evs.len() > 0 {
        law_finished_relay_is_silent(s, evs.drop_first());
        assert(Seq::<EventMsgView>::empty() + Seq::<EventMsgView>::empty() =~= Seq::<
            EventMsgView,
        >::empty());
    }
}

/// A turn ends at its first completion, error or channel close: after it
/// the relay is finished.
pub proof fn law_relay_ends_on_terminal(s: RelayView, ev: Option<OutcomeView>)
    requires
        !s.finished,
        ev is None || is_terminal(ev->0),
    ensures
        relay_step(s, ev).0.finished,
{
}

/// The relay never sends `TaskStarted` again: only the start of a turn does.
pub proof fn law_relay_never_restarts(s: RelayView, evs: Seq<Option<OutcomeView>>)
    ensures
        forall|i: int|
            0 <= i < relay_run(s, evs).1.len() ==> !((#[trigger] relay_run(s, evs).1[i]) is TaskStarted),
    decreases evs.len(),
{
    if evs.len() > 0 {
        let (s1, out1) = relay_step(s, evs[0]);
        law_relay_never_restarts(s1, evs.drop_first());
        let out = relay_run(s, evs).1;
        let out2 = relay_run(s1, evs.drop_first()).1;
        assert(out =~= out1 + out2);
        assert forall|i: int| 0 <= i < out.len() implies !((#[trigger] out[i]) is TaskStarted) by {
            if i >= out1.len() {
                assert(out[i] == out2[i - out1.len()]);
            }
        }
    }
}

// ---------------------------------------------------------------------------
// Configuration and URLs
// ---------------------------------------------------------------------------

/// With unique provider ids, as in a configuration file, looking up an id
/// finds the provider declared under it, wherever it stands.
pub proof fn law_provider_lookup_by_unique_id(ps: Seq<(String, ModelProviderInfo)>, i: int)
    requires
        ids_unique(ps),
        0 <= i < ps.len(),
    ensures
        find_provider(ps, ps[i].0@) == Some(ps[i].1),
{
    let id = ps[i].0@;
    assert forall|j: int| 0 <= j < i implies (#[trigger] ps[j]).0@ != id by {
        assert(ps[j].0@ != ps[i].0@);
    }
    assert(is_first_with_id(ps, id, i));
    let k: int = choose|k: int| is_first_with_id(ps, id, k);
    assert(is_first_with_id(ps, id, k));
    if k != i {
        if k < i {
            assert(ps[k].0@ != ps[i].0@);
        } else {
            assert(ps[i].0@ != id);
        }
    }
}

/// A base URL gives the same endpoint URLs with or without a trailing
/// slash, and the trimmed base never ends with one.
pub proof fn law_trailing_slash_is_irrelevant(base: Seq<char>)
    ensures
        trim_trailing_slashes(base.push('/')) == trim_trailing_slashes(base),
        trim_trailing_slashes(base).len() > 0 ==> trim_trailing_slashes(base).last() != '/',
    decreases base.len(),
{
    assert(base.push('/').drop_last() =~= base);
    if base.len() > 0 && base.last() == '/' {
        law_trailing_slash_is_irrelevant(base.drop_last());
    }
}

} // verus!
