//! Properties about what the pumps, the request builder and the
//! configuration resolution carry over from their inputs, stated directly
//! over the inputs' fields, and proved.

use vstd::prelude::*;

use crate::client::{chat_messages_spec, item_chat_message, joined_text};
use crate::config::{
    find_provider, ids_unique, is_first_with_id, resolve_spec, ConfigToml, ModelProviderInfo,
};
use crate::sse::{
    chat_choice_events, choice_text, responses_event_spec, responses_step_spec, OutcomeView,
    SseInput,
};
use crate::types::{
    ChatChunkChoice, CompletedPayload, ContentItem, ResponseEventView, ResponseItem,
    ResponsesStreamEvent,
};

verus! {

// ---------------------------------------------------------------------------
// Chat chunks: the content of each choice goes out unchanged
// ---------------------------------------------------------------------------

/// The content of a choice's delta; empty when it has none.
pub open spec fn content_of(c: ChatChunkChoice) -> Seq<char> {
    match c.delta.content {
        Some(s) => s@,
        None => Seq::empty(),
    }
}

/// One text delta per choice of the list whose content is not empty, in
/// order, each holding that content as it is.
pub open spec fn content_deltas(cs: Seq<ChatChunkChoice>) -> Seq<OutcomeView>
    decreases cs.len(),
{
    if cs.len() == 0 {
        Seq::empty()
    } else {
        let head: Seq<OutcomeView> = if content_of(cs[0]).len() > 0 {
            seq![Ok(ResponseEventView::OutputTextDelta(content_of(cs[0])))]
        } else {
            Seq::empty()
        };
        head + content_deltas(cs.drop_first())
    }
}

/// When no choice of a chunk finishes, the chat pump forwards exactly one
/// delta per choice with non-empty content, holding that content verbatim,
/// and goes on.
pub proof fn law_chat_contents_forwarded_verbatim(cs: Seq<ChatChunkChoice>, id: Seq<char>)
    requires
        forall|j: int| 0 <= j < cs.len() ==> (#[trigger] cs[j]).finish_reason is None,
    ensures
        chat_choice_events(cs, id) == (content_deltas(cs), false),
    decreases cs.len(),
{
    if cs.len() > 0 {
        assert forall|j: int| 0 <= j < cs.drop_first().len() implies (
        #[trigger] cs.drop_first()[j]).finish_reason is None by {
            assert(cs.drop_first()[j] == cs[j + 1]);
        }
        law_chat_contents_forwarded_verbatim(cs.drop_first(), id);
        assert(cs[0].finish_reason is None);
        match cs[0].delta.content {
            Some(s) => {},
            None => {},
        }
    }
}

/// When choice `k` is the first of a chunk with a finish reason, the chat
/// pump forwards the non-empty contents of choices `0..=k` verbatim, then a
/// completion carrying `id`, and stops; later choices are not forwarded.
pub proof fn law_chat_finish_forwards_contents_then_completes(
    cs: Seq<ChatChunkChoice>,
    id: Seq<char>,
    k: int,
)
    requires
        0 <= k < cs.len(),
        cs[k].finish_reason is Some,
        forall|j: int| 0 <= j < k ==> (#[trigger] cs[j]).finish_reason is None,
    ensures
        chat_choice_events(cs, id) == (
            content_deltas(cs.take(k + 1)).push(
                Ok(ResponseEventView::Completed { response_id: id }),
            ),
            true,
        ),
    decreases k,
{
    let c0 = cs[0];
    assert(cs.take(k + 1)[0] == c0);
    let head: Seq<OutcomeView> = if content_of(c0).len() > 0 {
        seq![Ok(ResponseEventView::OutputTextDelta(content_of(c0)))]
    } else {
        Seq::empty()
    };
    let d: Seq<OutcomeView> = match choice_text(c0) {
        Some(t) => seq![Ok(ResponseEventView::OutputTextDelta(t))],
        None => Seq::empty(),
    };
    match c0.delta.content {
        Some(s) => {},
        None => {},
    }
    assert(d == head);
    let done: OutcomeView = Ok(ResponseEventView::Completed { response_id: id });
    if k == 0 {
        assert(cs.take(1).drop_first() =~= Seq::<ChatChunkChoice>::empty());
        assert(content_deltas(cs.take(1).drop_first()) == Seq::<OutcomeView>::empty());
        assert(head + Seq::<OutcomeView>::empty() =~= head);
        assert(content_deltas(cs.take(1)) == head + content_deltas(cs.take(1).drop_first()));
        assert(content_deltas(cs.take(1)) =~= head);
    } else {
        assert forall|j: int| 0 <= j < k - 1 implies (#[trigger] cs.drop_first()[j]).finish_reason is None by {
            assert(cs.drop_first()[j] == cs[j + 1]);
        }
        assert(cs.drop_first()[k - 1] == cs[k]);
        law_chat_finish_forwards_contents_then_completes(cs.drop_first(), id, k - 1);
        assert(cs.take(k + 1).drop_first() =~= cs.drop_first().take(k));
        let rest = content_deltas(cs.drop_first().take(k));
        assert(content_deltas(cs.take(k + 1)) == head + rest);
        assert((head + rest).push(done) =~= head + rest.push(done));
    }
}

// ---------------------------------------------------------------------------
// Responses-API events: the decoder and the pump keep what they decode
// ---------------------------------------------------------------------------

/// How each kind of Responses-API event decodes, stated over the envelope's
/// fields: a created event; a text delta holding the envelope's delta
/// exactly (nothing when it has none); a completion carrying the decoded id;
/// an error for `response.failed`; and nothing for any other kind.
pub proof fn law_responses_event_kinds(e: ResponsesStreamEvent)
    ensures
        e.kind@ == "response.created"@ ==> responses_event_spec(e) == Ok::<
            Option<ResponseEventView>,
            Seq<char>,
        >(Some(ResponseEventView::Created)),
        e.kind@ == "response.output_text.delta"@ && e.delta is Some ==> responses_event_spec(e)
            == Ok::<Option<ResponseEventView>, Seq<char>>(
            Some(ResponseEventView::OutputTextDelta(e.delta->0@)),
        ),
        e.kind@ == "response.output_text.delta"@ && e.delta is None ==> responses_event_spec(e)
            == Ok::<Option<ResponseEventView>, Seq<char>>(None),
        e.kind@ == "response.completed"@ ==> (e.response matches Some(CompletedPayload::Parsed(r))
            ==> responses_event_spec(e) == Ok::<Option<ResponseEventView>, Seq<char>>(
            Some(ResponseEventView::Completed { response_id: r.id@ }),
        )),
        e.kind@ == "response.failed"@ ==> responses_event_spec(e) is Err,
        e.kind@ != "response.created"@ && e.kind@ != "response.output_text.delta"@ && e.kind@
            != "response.completed"@ && e.kind@ != "response.failed"@ ==> responses_event_spec(e)
            == Ok::<Option<ResponseEventView>, Seq<char>>(None),
{
    reveal_strlit("response.created");
    reveal_strlit("response.output_text.delta");
    reveal_strlit("response.completed");
    reveal_strlit("response.failed");
    assert("response.created"@.len() == 16);
    assert("response.output_text.delta"@.len() == 26);
    assert("response.completed"@.len() == 18);
    assert("response.failed"@.len() == 15);
    assert("response.completed"@ != "response.created"@);
    assert("response.completed"@ != "response.output_text.delta"@);
    assert("response.failed"@ != "response.created"@);
    assert("response.failed"@ != "response.output_text.delta"@);
    assert("response.failed"@ != "response.completed"@);
    assert("response.output_text.delta"@ != "response.created"@);
}

/// The Responses-API pump forwards exactly what the decoder gives for an
/// arrived event: the decoded event alone (stopping only on a completion),
/// nothing for an ignored event, or the decoder's error (stopping).
pub proof fn law_responses_pump_forwards_decoded_event(e: ResponsesStreamEvent)
    ensures
        match responses_event_spec(e) {
            Ok(Some(ev)) => responses_step_spec(SseInput::Event(Ok(e))) == (
                seq![Ok::<ResponseEventView, Seq<char>>(ev)],
                ev is Completed,
            ),
            Ok(None) => responses_step_spec(SseInput::Event(Ok(e))) == (
                Seq::<OutcomeView>::empty(),
                false,
            ),
            Err(m) => responses_step_spec(SseInput::Event(Ok(e))) == (
                seq![Err::<ResponseEventView, Seq<char>>(m)],
                true,
            ),
        },
{
}

/// A text delta event goes through the Responses-API pump unchanged, as one
/// delta with the envelope's text exactly, whatever that text is (blank or
/// not), and the pump goes on.
pub proof fn law_responses_delta_forwarded_verbatim(e: ResponsesStreamEvent)
    requires
        e.kind@ == "response.output_text.delta"@,
        e.delta is Some,
    ensures
        responses_step_spec(SseInput::Event(Ok(e))) == (
            seq![Ok::<ResponseEventView, Seq<char>>(ResponseEventView::OutputTextDelta(e.delta->0@))],
            false,
        ),
{
    law_responses_event_kinds(e);
    law_responses_pump_forwards_decoded_event(e);
}

// ---------------------------------------------------------------------------
// Configuration: where the API key comes from, and when resolution succeeds
// ---------------------------------------------------------------------------

/// When the provider declared under the active id names an environment
/// variable whose value is set and not empty, and has a base URL,
/// resolution succeeds with that value as the key, whatever key the file
/// also holds.
pub proof fn law_resolve_environment_key_wins(cfg: ConfigToml, env: Option<String>, i: int)
    requires
        ids_unique(cfg.model_providers@),
        0 <= i < cfg.model_providers@.len(),
        cfg.model_providers@[i].0@ == cfg.model_provider@,
        cfg.model_providers@[i].1.base_url is Some,
        cfg.model_providers@[i].1.env_key is Some,
        env is Some,
        env->0@.len() > 0,
    ensures
        resolve_spec(cfg, env) is Ok,
        resolve_spec(cfg, env)->Ok_0.api_key == env->0@,
        resolve_spec(cfg, env)->Ok_0.base_url == cfg.model_providers@[i].1.base_url->0@,
        resolve_spec(cfg, env)->Ok_0.provider_id == cfg.model_provider@,
        resolve_spec(cfg, env)->Ok_0.model == cfg.model@,
        resolve_spec(cfg, env)->Ok_0.provider_display_name == cfg.model_providers@[i].1.name@,
        resolve_spec(cfg, env)->Ok_0.wire_api == cfg.model_providers@[i].1.wire_api,
{
    crate::laws::law_provider_lookup_by_unique_id(cfg.model_providers@, i);
}

/// When the environment gives no usable key (the variable is unset or
/// empty, or none is named), the key written in the file is used.
pub proof fn law_resolve_configured_key_fallback(cfg: ConfigToml, env: Option<String>, i: int)
    requires
        ids_unique(cfg.model_providers@),
        0 <= i < cfg.model_providers@.len(),
        cfg.model_providers@[i].0@ == cfg.model_provider@,
        cfg.model_providers@[i].1.base_url is Some,
        cfg.model_providers@[i].1.api_key is Some,
        cfg.model_providers@[i].1.env_key is None || env is None || env->0@.len() == 0,
    ensures
        resolve_spec(cfg, env) is Ok,
        resolve_spec(cfg, env)->Ok_0.api_key == cfg.model_providers@[i].1.api_key->0@,
{
    crate::laws::law_provider_lookup_by_unique_id(cfg.model_providers@, i);
}

/// Resolution succeeds exactly when a provider is declared under the active
/// id with a base URL and a key: a set, non-empty environment value of the
/// variable it names, or a key in the file.
pub proof fn law_resolve_succeeds_exactly_when(cfg: ConfigToml, env: Option<String>)
    requires
        ids_unique(cfg.model_providers@),
    ensures
        resolve_spec(cfg, env) is Ok <==> exists|i: int|
            0 <= i < cfg.model_providers@.len() && (#[trigger] cfg.model_providers@[i]).0@
                == cfg.model_provider@ && cfg.model_providers@[i].1.base_url is Some && (
            (cfg.model_providers@[i].1.env_key is Some && env is Some && env->0@.len() > 0)
                || cfg.model_providers@[i].1.api_key is Some),
{
    let ps = cfg.model_providers@;
    let id = cfg.model_provider@;
    if exists|i: int| 0 <= i < ps.len() && (#[trigger] ps[i]).0@ == id {
        let i = choose|i: int| 0 <= i < ps.len() && (#[trigger] ps[i]).0@ == id;
        crate::laws::law_provider_lookup_by_unique_id(ps, i);
        assert forall|j: int| 0 <= j < ps.len() && (#[trigger] ps[j]).0@ == id implies j == i by {
            if j != i {
                if j < i {
                    assert(ps[j].0@ != ps[i].0@);
                } else {
                    assert(ps[i].0@ != ps[j].0@);
                }
            }
        }
    } else {
        if exists|i: int| is_first_with_id(ps, id, i) {
            let i = choose|i: int| is_first_with_id(ps, id, i);
            assert(ps[i].0@ == id);
        }
        assert(find_provider(ps, id) is None);
    }
}

// ---------------------------------------------------------------------------
// Chat messages: one per input item, with its role and all its text
// ---------------------------------------------------------------------------

/// The text of a content item, whichever its direction.
pub open spec fn item_text_of(c: ContentItem) -> Seq<char> {
    match c {
        ContentItem::InputText { text } => text@,
        ContentItem::OutputText { text } => text@,
    }
}

/// The texts of a list of content items, first to last.
pub open spec fn texts_in_order(cs: Seq<ContentItem>) -> Seq<char>
    decreases cs.len(),
{
    if cs.len() == 0 {
        Seq::empty()
    } else {
        item_text_of(cs[0]) + texts_in_order(cs.drop_first())
    }
}

/// The role of an input item.
pub open spec fn role_of(it: ResponseItem) -> Seq<char> {
    match it {
        ResponseItem::Message { role, .. } => role@,
    }
}

/// All the text of an input item's content, first to last.
pub open spec fn text_of(it: ResponseItem) -> Seq<char> {
    match it {
        ResponseItem::Message { content, .. } => texts_in_order(content@),
    }
}

proof fn lemma_texts_in_order_last(cs: Seq<ContentItem>)
    requires
        cs.len() > 0,
    ensures
        texts_in_order(cs) == texts_in_order(cs.drop_last()) + item_text_of(cs.last()),
    decreases cs.len(),
{
    if cs.len() == 1 {
        assert(cs.drop_last().len() == 0);
        assert(cs.drop_first().len() == 0);
        assert(cs.last() == cs[0]);
        assert(texts_in_order(cs.drop_first()) == Seq::<char>::empty());
        assert(texts_in_order(cs.drop_last()) == Seq::<char>::empty());
        assert(item_text_of(cs[0]) + Seq::<char>::empty() =~= item_text_of(cs[0]));
        assert(Seq::<char>::empty() + item_text_of(cs[0]) =~= item_text_of(cs[0]));
    } else {
        lemma_texts_in_order_last(cs.drop_first());
        assert(cs.drop_first().drop_last() =~= cs.drop_last().drop_first());
        assert(cs.drop_last()[0] == cs[0]);
        assert(cs.drop_first().last() == cs.last());
        assert(texts_in_order(cs.drop_last()) == item_text_of(cs[0]) + texts_in_order(
            cs.drop_last().drop_first(),
        ));
        assert(item_text_of(cs[0]) + (texts_in_order(cs.drop_last().drop_first()) + item_text_of(
            cs.last(),
        )) =~= (item_text_of(cs[0]) + texts_in_order(cs.drop_last().drop_first())) + item_text_of(
            cs.last(),
        ));
    }
}

proof fn lemma_joined_is_in_order(cs: Seq<ContentItem>)
    ensures
        joined_text(cs.map_values(|c: ContentItem| c@)) == texts_in_order(cs),
    decreases cs.len(),
{
    let v = cs.map_values(|c: ContentItem| c@);
    if cs.len() > 0 {
        lemma_joined_is_in_order(cs.drop_last());
        lemma_texts_in_order_last(cs);
        assert(v.drop_last() =~= cs.drop_last().map_values(|c: ContentItem| c@));
        assert(v.last() == cs.last()@);
        match cs.last() {
            ContentItem::InputText { text } => {},
            ContentItem::OutputText { text } => {},
        }
    } else {
        assert(v.len() == 0);
    }
}

/// The chat messages of a prompt: a `system` message holding the
/// instructions first when they are not empty, then exactly one message per
/// input item, in order, with the item's role and all its text joined.
pub proof fn law_chat_messages_one_per_item(instructions: Seq<char>, input: Seq<ResponseItem>)
    ensures
        chat_messages_spec(instructions, input).len() == input.len() + (if instructions.len() > 0 {
            1int
        } else {
            0int
        }),
        instructions.len() > 0 ==> chat_messages_spec(instructions, input)[0] == ("system"@, instructions),
        forall|k: int|
            #![trigger input[k]]
            0 <= k < input.len() ==> chat_messages_spec(instructions, input)[k + (if instructions.len() > 0 {
                1int
            } else {
                0int
            })] == (role_of(input[k]), text_of(input[k])),
{
    let off: int = if instructions.len() > 0 {
        1
    } else {
        0
    };
    let ms = chat_messages_spec(instructions, input);
    let body = input.map_values(|i: ResponseItem| item_chat_message(i@));
    assert forall|k: int| #![trigger input[k]] 0 <= k < input.len() implies ms[k + off] == (
        role_of(input[k]),
        text_of(input[k]),
    ) by {
        assert(ms[k + off] == body[k]);
        match input[k] {
            ResponseItem::Message { role, content } => {
                lemma_joined_is_in_order(content@);
            },
        }
    }
}

} // verus!
