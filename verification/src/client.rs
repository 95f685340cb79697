//! The model client: what it sends to the provider and how it reads the
//! provider's answer. The HTTP exchange itself happens outside the library.

use vstd::prelude::*;
use vstd::string::*;

use crate::config::WireApi;
use crate::laws_content::{law_chat_messages_one_per_item, role_of, text_of};
use crate::text::{concat2, concat3, trim_end_slashes, trim_trailing_slashes};
use crate::types::{
    ApiError, ChatCompletionsRequest, ChatMessage, ContentItem, ContentItemView, Prompt,
    ResponseItem, ResponseItemView, ResponsesApiRequest, TextFormat, ToolSpec,
};

verus! {

/// A provider: its base URL (already carrying the API version prefix) and
/// the wire protocol it speaks.
#[derive(Debug)]
pub struct Provider {
    pub base_url: String,
    pub wire_api: WireApi,
}

impl Provider {
    pub fn new(base_url: String, wire_api: WireApi) -> (p: Self)
        ensures
            p.base_url == base_url,
            p.wire_api == wire_api,
    {
        Provider { base_url, wire_api }
    }
}

/// The idle timeout of a response stream, in seconds.
pub const DEFAULT_IDLE_TIMEOUT_SECS: u64 = 30;

/// The client of one provider and model.
#[derive(Debug)]
pub struct ModelClient {
    pub api_key: String,
    pub base_url: String,
    pub model: String,
    /// How long the stream pump waits for the next event, in seconds.
    pub idle_timeout_secs: u64,
}

/// The abstract form of a chat message: its role and its content.
pub open spec fn chat_message_view(m: ChatMessage) -> (Seq<char>, Seq<char>) {
    (m.role@, m.content@)
}

/// The texts of a message's content, one after the other.
pub open spec fn joined_text(cs: Seq<ContentItemView>) -> Seq<char>
    decreases cs.len(),
{
    if cs.len() == 0 {
        Seq::empty()
    } else {
        joined_text(cs.drop_last()) + cs.last().text()
    }
}

/// The chat message of one conversation item.
pub open spec fn item_chat_message(item: ResponseItemView) -> (Seq<char>, Seq<char>) {
    match item {
        ResponseItemView::Message { role, content } => (role, joined_text(content)),
    }
}

/// The chat messages of a prompt: a system message with the instructions
/// when they are not empty, then one message per input item.
pub open spec fn chat_messages_spec(instructions: Seq<char>, input: Seq<ResponseItem>) -> Seq<(Seq<char>, Seq<char>)> {
    let system: Seq<(Seq<char>, Seq<char>)> = if instructions.len() > 0 {
        seq![("system"@, instructions)]
    } else {
        Seq::empty()
    };
    system + input.map_values(|i: ResponseItem| item_chat_message(i@))
}

fn join_content(content: &Vec<ContentItem>) -> (r: String)
    ensures
        r@ == joined_text(content@.map_values(|c: ContentItem| c@)),
{
    let ghost cv = content@.map_values(|c: ContentItem| c@);
    let mut text = String::new();
    let mut i: usize = 0;
    while i < content.len()
        invariant
            i <= content@.len(),
            cv == content@.map_values(|c: ContentItem| c@),
            text@ == joined_text(cv.take(i as int)),
        decreases content.len() - i,
    {
        match &content[i] {
            ContentItem::InputText { text: t } => text.append(t.as_str()),
            ContentItem::OutputText { text: t } => text.append(t.as_str()),
        }
        proof {
            assert(cv.take(i + 1).drop_last() =~= cv.take(i as int));
        }
        i = i + 1;
    }
    proof {
        assert(cv.take(content@.len() as int) =~= cv);
    }
    text
}

/// Turns a prompt into chat-completions messages: the instructions as
/// a `system` message when they are not empty, then each input message with
/// its role and the texts of its content joined together.
pub fn build_chat_messages(prompt: &Prompt) -> (r: Vec<ChatMessage>)
    ensures
        r@.map_values(|m: ChatMessage| chat_message_view(m)) == chat_messages_spec(
            prompt.base_instructions.text@,
            prompt.input@,
        ),
        r@.len() == prompt.input@.len() + (if prompt.base_instructions.text@.len() > 0 {
            1int
        } else {
            0int
        }),
        prompt.base_instructions.text@.len() > 0 ==> r@[0].role@ == "system"@ && r@[0].content@
            == prompt.base_instructions.text@,
        forall|k: int|
            #![trigger prompt.input@[k]]
            0 <= k < prompt.input@.len() ==> {
                let m = r@[k + (if prompt.base_instructions.text@.len() > 0 {
                    1int
                } else {
                    0int
                })];
                &&& m.role@ == role_of(prompt.input@[k])
                &&& m.content@ == text_of(prompt.input@[k])
            },
{
    proof {
        law_chat_messages_one_per_item(prompt.base_instructions.text@, prompt.input@);
    }
    let ghost instr = prompt.base_instructions.text@;
    let mut messages: Vec<ChatMessage> = Vec::new();
    if !prompt.base_instructions.text.as_str().is_empty() {
        messages.push(
            ChatMessage {
                role: String::from_str("system"),
                content: prompt.base_instructions.text.clone(),
            },
        );
    }
    let ghost start = messages@.map_values(|m: ChatMessage| chat_message_view(m));
    proof {
        let system: Seq<(Seq<char>, Seq<char>)> = if instr.len() > 0 {
            seq![("system"@, instr)]
        } else {
            Seq::empty()
        };
        assert(start =~= system);
    }
    let n: usize = prompt.input.len();
    let mut i: usize = 0;
    while i < n
        invariant
            n == prompt.input@.len(),
            i <= n,
            messages@.map_values(|m: ChatMessage| chat_message_view(m)) == start + prompt.input@.take(
                i as int,
            ).map_values(|it: ResponseItem| item_chat_message(it@)),
        decreases n - i,
    {
        let ghost before = messages@.map_values(|m: ChatMessage| chat_message_view(m));
        match &prompt.input[i] {
            ResponseItem::Message { role, content } => {
                let text = join_content(content);
                messages.push(ChatMessage { role: role.clone(), content: text });
            },
        }
        proof {
            assert(messages@.map_values(|m: ChatMessage| chat_message_view(m)) =~= before.push(
                item_chat_message(prompt.input@[i as int]@),
            ));
            assert(prompt.input@.take(i + 1).map_values(|it: ResponseItem| item_chat_message(it@))
                =~= prompt.input@.take(i as int).map_values(
                |it: ResponseItem| item_chat_message(it@),
            ).push(item_chat_message(prompt.input@[i as int]@)));
        }
        i = i + 1;
    }
    proof {
        assert(prompt.input@.take(n as int) =~= prompt.input@);
        let mv = messages@.map_values(|m: ChatMessage| chat_message_view(m));
        assert(mv.len() == messages@.len());
        assert forall|k: int| 0 <= k < messages@.len() implies #[trigger] chat_message_view(messages@[k]) == mv[k] by {}
    }
    messages
}

/// A copy of a list of input items, item for item.
fn clone_items(v: &Vec<ResponseItem>) -> (r: Vec<ResponseItem>)
    ensures
        r@.len() == v@.len(),
        forall|i: int| 0 <= i < v@.len() ==> #[trigger] r@[i]@ == v@[i]@,
{
    let mut r: Vec<ResponseItem> = Vec::new();
    for i in 0..v.len()
        invariant
            r@.len() == i,
            forall|j: int| 0 <= j < i ==> #[trigger] r@[j]@ == v@[j]@,
    {
        r.push(v[i].clone());
    }
    r
}

/// A copy of a list of tools.
fn clone_tools(v: &Vec<ToolSpec>) -> (r: Vec<ToolSpec>)
    ensures
        r@ == v@,
{
    let mut r: Vec<ToolSpec> = Vec::new();
    for i in 0..v.len()
        invariant
            r@ == v@.take(i as int),
    {
        r.push(v[i].clone());
        proof {
            assert(v@.take(i + 1) =~= v@.take(i as int).push(v@[i as int]));
        }
    }
    proof {
        assert(v@.take(v@.len() as int) =~= v@);
    }
    r
}

/// Whether an HTTP status code is a success (2xx).
pub open spec fn status_success_spec(code: u16) -> bool {
    200 <= code < 300
}

/// Whether an HTTP status code is a success: in `200..300`.
pub fn status_is_success(code: u16) -> (b: bool)
    ensures
        b == status_success_spec(code),
{
    200 <= code && code < 300
}

/// The error for a request that could not be sent: `request failed: <why>`.
pub fn request_failed_error(why: &str) -> (e: ApiError)
    ensures
        e.msg() == "request failed: "@ + why@,
{
    ApiError::Stream(concat2("request failed: ", why))
}

/// The error for an unsuccessful answer: `HTTP <status>: <body>`.
pub fn http_status_error(status: &str, body: &str) -> (e: ApiError)
    ensures
        e.msg() == "HTTP "@ + status@ + ": "@ + body@,
{
    let mut s = concat2("HTTP ", status);
    s.append(": ");
    s.append(body);
    ApiError::Stream(s)
}

/// Whether `text` is the `json_schema` output format with the given
/// strictness and schema.
pub open spec fn text_format_spec(text: Option<TextFormat>, strict: bool, schema: serde_json::Value) -> bool {
    &&& text is Some
    &&& text->0.kind@ == "json_schema"@
    &&& text->0.strict == strict
    &&& text->0.schema == schema
}

/// How the client reads the status of the provider's answer: a success
/// (2xx) goes on to the stream, any other status is the error
/// `HTTP <status>: <body>`, with `status` the code and its reason phrase.
pub fn response_status(code: u16, status: &str, body: &str) -> (r: Result<(), ApiError>)
    ensures
        r is Ok <==> status_success_spec(code),
        match r {
            Ok(()) => true,
            Err(e) => e.msg() == "HTTP "@ + status@ + ": "@ + body@,
        },
{
    if status_is_success(code) {
        Ok(())
    } else {
        Err(http_status_error(status, body))
    }
}

/// The body the client sends, by wire protocol.
#[derive(Debug)]
pub enum RequestBody {
    Responses(ResponsesApiRequest),
    Chat(ChatCompletionsRequest),
}

/// Everything a streaming request consists of: its method, where it goes,
/// its `Authorization`, `Content-Type` and `Accept` headers, and its JSON
/// body.
#[derive(Debug)]
pub struct OutboundRequest {
    pub method: String,
    pub url: String,
    pub authorization: String,
    pub content_type: String,
    pub accept: String,
    pub body: RequestBody,
}

impl ModelClient {
    /// A client of `model` at `base_url`, with a 30-second idle timeout.
    pub fn new(api_key: String, base_url: String, model: String) -> (c: Self)
        ensures
            c.api_key == api_key,
            c.base_url == base_url,
            c.model == model,
            c.idle_timeout_secs == 30,
    {
        ModelClient { api_key, base_url, model, idle_timeout_secs: DEFAULT_IDLE_TIMEOUT_SECS }
    }

    /// The body of a Responses-API request for `prompt`: streaming, not
    /// stored, and with a strict-or-not `json_schema` output format exactly
    /// when the prompt has an output schema.
    pub fn build_responses_request(&self, prompt: &Prompt) -> (r: ResponsesApiRequest)
        ensures
            r.model@ == self.model@,
            r.instructions@ == prompt.base_instructions.text@,
            r.input@.len() == prompt.input@.len(),
            forall|i: int| 0 <= i < prompt.input@.len() ==> #[trigger] r.input@[i]@ == prompt.input@[i]@,
            r.tools@ == prompt.tools@,
            r.parallel_tool_calls == prompt.parallel_tool_calls,
            r.stream,
            !r.store,
            match prompt.output_schema {
                Some(schema) => text_format_spec(r.text, prompt.output_schema_strict, schema),
                None => r.text is None,
            },
    {
        let text = match &prompt.output_schema {
            Some(schema) => Some(
                TextFormat {
                    kind: String::from_str("json_schema"),
                    strict: prompt.output_schema_strict,
                    schema: schema.clone(),
                },
            ),
            None => None,
        };
        ResponsesApiRequest {
            model: self.model.clone(),
            instructions: prompt.base_instructions.text.clone(),
            input: clone_items(&prompt.input),
            tools: clone_tools(&prompt.tools),
            parallel_tool_calls: prompt.parallel_tool_calls,
            stream: true,
            store: false,
            text,
        }
    }

    /// The body of a chat-completions request for `prompt`: the model, the
    /// prompt's chat messages, streaming.
    pub fn build_chat_request(&self, prompt: &Prompt) -> (r: ChatCompletionsRequest)
        ensures
            r.model@ == self.model@,
            r.messages@.map_values(|m: ChatMessage| chat_message_view(m)) == chat_messages_spec(
                prompt.base_instructions.text@,
                prompt.input@,
            ),
            r.stream,
    {
        ChatCompletionsRequest {
            model: self.model.clone(),
            messages: build_chat_messages(prompt),
            stream: true,
        }
    }

    /// `<base_url without trailing slashes>/responses`.
    pub fn responses_url(&self) -> (u: String)
        ensures
            u@ == trim_trailing_slashes(self.base_url@) + "/responses"@,
    {
        concat2(trim_end_slashes(self.base_url.as_str()), "/responses")
    }

    /// `<base_url without trailing slashes>/chat/completions`.
    pub fn chat_completions_url(&self) -> (u: String)
        ensures
            u@ == trim_trailing_slashes(self.base_url@) + "/chat/completions"@,
    {
        concat2(trim_end_slashes(self.base_url.as_str()), "/chat/completions")
    }

    /// The `Authorization` header value: `Bearer <api key>`.
    pub fn authorization(&self) -> (h: String)
        ensures
            h@ == "Bearer "@ + self.api_key@,
    {
        concat2("Bearer ", self.api_key.as_str())
    }

    /// The streaming request for `prompt` over the given wire protocol:
    /// `POST <base>/responses` with a Responses-API body, or
    /// `POST <base>/chat/completions` with a chat-completions body.
    pub fn prepare_request(&self, prompt: &Prompt, wire_api: WireApi) -> (r: OutboundRequest)
        ensures
            r.method@ == "POST"@,
            r.authorization@ == "Bearer "@ + self.api_key@,
            r.content_type@ == "application/json"@,
            r.accept@ == "text/event-stream"@,
            match wire_api {
                WireApi::Responses => r.url@ == trim_trailing_slashes(self.base_url@) + "/responses"@
                    && r.body is Responses,
                WireApi::Chat => r.url@ == trim_trailing_slashes(self.base_url@)
                    + "/chat/completions"@ && r.body is Chat,
            },
            match r.body {
                RequestBody::Responses(b) => b.model@ == self.model@
                    && b.instructions@ == prompt.base_instructions.text@
                    && b.input@.len() == prompt.input@.len()
                    && (forall|i: int| 0 <= i < prompt.input@.len() ==> #[trigger] b.input@[i]@ == prompt.input@[i]@)
                    && b.tools@ == prompt.tools@
                    && b.parallel_tool_calls == prompt.parallel_tool_calls
                    && b.stream && !b.store
                    && (match prompt.output_schema {
                        Some(schema) => text_format_spec(b.text, prompt.output_schema_strict, schema),
                        None => b.text is None,
                    }),
                RequestBody::Chat(b) => b.model@ == self.model@
                    && b.messages@.map_values(|m: ChatMessage| chat_message_view(m)) == chat_messages_spec(
                        prompt.base_instructions.text@,
                        prompt.input@,
                    ) && b.stream,
            },
    {
        let authorization = self.authorization();
        match wire_api {
            WireApi::Responses => OutboundRequest {
                method: String::from_str("POST"),
                url: self.responses_url(),
                authorization,
                content_type: String::from_str("application/json"),
                accept: String::from_str("text/event-stream"),
                body: RequestBody::Responses(self.build_responses_request(prompt)),
            },
            WireApi::Chat => OutboundRequest {
                method: String::from_str("POST"),
                url: self.chat_completions_url(),
                authorization,
                content_type: String::from_str("application/json"),
                accept: String::from_str("text/event-stream"),
                body: RequestBody::Chat(self.build_chat_request(prompt)),
            },
        }
    }
}

} // verus!
