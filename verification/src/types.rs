//! Core data types: the prompt, the conversation items, the decoded stream
//! events, the upstream wire payloads and the error type.

use vstd::prelude::*;
use vstd::string::*;

verus! {

/// Optional personality preset of the model. Carried for structural parity;
/// it is not part of any wire payload.
#[derive(Debug, Clone, Copy, PartialEq, Eq, Structural)]
pub enum Personality {
    Default,
    Concise,
    Friendly,
}

/// The system prompt text.
#[derive(Debug)]
pub struct BaseInstructions {
    pub text: String,
}

impl Clone for BaseInstructions {
    fn clone(&self) -> (r: Self)
        ensures
            r == *self,
    {
        BaseInstructions { text: self.text.clone() }
    }
}

impl Default for BaseInstructions {
    fn default() -> (r: Self)
        ensures
            r.text@ == Seq::<char>::empty(),
    {
        BaseInstructions { text: String::new() }
    }
}

/// A tool the model may call. Only function tools exist; their parameter
/// schema is an opaque JSON value.
#[derive(Debug)]
pub enum ToolSpec {
    Function { name: String, description: String, strict: bool, parameters: serde_json::Value },
}

impl Clone for ToolSpec {
    fn clone(&self) -> (r: Self)
        ensures
            r == *self,
    {
        match self {
            ToolSpec::Function { name, description, strict, parameters } => ToolSpec::Function {
                name: name.clone(),
                description: description.clone(),
                strict: *strict,
                parameters: parameters.clone(),
            },
        }
    }
}

/// One piece of message content.
#[derive(Debug)]
pub enum ContentItem {
    InputText { text: String },
    OutputText { text: String },
}

/// The abstract form of a [`ContentItem`].
pub enum ContentItemView {
    InputText { text: Seq<char> },
    OutputText { text: Seq<char> },
}

impl View for ContentItem {
    type V = ContentItemView;

    open spec fn view(&self) -> ContentItemView {
        match self {
            ContentItem::InputText { text } => ContentItemView::InputText { text: text@ },
            ContentItem::OutputText { text } => ContentItemView::OutputText { text: text@ },
        }
    }
}

impl ContentItemView {
    /// The text of the item, whichever its direction.
    pub open spec fn text(self) -> Seq<char> {
        match self {
            ContentItemView::InputText { text } => text,
            ContentItemView::OutputText { text } => text,
        }
    }
}

impl Clone for ContentItem {
    fn clone(&self) -> (r: Self)
        ensures
            r@ == self@,
    {
        match self {
            ContentItem::InputText { text } => ContentItem::InputText { text: text.clone() },
            ContentItem::OutputText { text } => ContentItem::OutputText { text: text.clone() },
        }
    }
}

/// One conversation item: a message with a role and its content.
#[derive(Debug)]
pub enum ResponseItem {
    Message { role: String, content: Vec<ContentItem> },
}

/// The abstract form of a [`ResponseItem`].
pub enum ResponseItemView {
    Message { role: Seq<char>, content: Seq<ContentItemView> },
}

impl View for ResponseItem {
    type V = ResponseItemView;

    open spec fn view(&self) -> ResponseItemView {
        match self {
            ResponseItem::Message { role, content } => ResponseItemView::Message {
                role: role@,
                content: content@.map_values(|c: ContentItem| c@),
            },
        }
    }
}

impl Clone for ResponseItem {
    fn clone(&self) -> (r: Self)
        ensures
            r@ == self@,
    {
        match self {
            ResponseItem::Message { role, content } => {
                let mut c: Vec<ContentItem> = Vec::new();
                for i in 0..content.len()
                    invariant
                        c@.len() == i,
                        forall|j: int| 0 <= j < i ==> #[trigger] c@[j]@ == content@[j]@,
                {
                    c.push(content[i].clone());
                }
                let r = ResponseItem::Message { role: role.clone(), content: c };
                assert(c@.map_values(|x: ContentItem| x@) =~= content@.map_values(|x: ContentItem| x@));
                r
            },
        }
    }
}

/// Everything a turn sends to the model.
#[derive(Debug)]
pub struct Prompt {
    /// Conversation context input items.
    pub input: Vec<ResponseItem>,
    /// Tools available to the model.
    pub tools: Vec<ToolSpec>,
    /// Whether parallel tool calls are permitted for this prompt.
    pub parallel_tool_calls: bool,
    pub base_instructions: BaseInstructions,
    /// Optional personality; not part of any wire payload.
    pub personality: Option<Personality>,
    /// Optional output schema for the model's response.
    pub output_schema: Option<serde_json::Value>,
    /// Whether the output schema is to be validated strictly.
    pub output_schema_strict: bool,
}

impl Default for Prompt {
    fn default() -> (r: Self)
        ensures
            r.input@.len() == 0,
            r.tools@.len() == 0,
            !r.parallel_tool_calls,
            r.base_instructions.text@ == Seq::<char>::empty(),
            r.personality.is_none(),
            r.output_schema.is_none(),
            r.output_schema_strict,
    {
        Prompt {
            input: Vec::new(),
            tools: Vec::new(),
            parallel_tool_calls: false,
            base_instructions: BaseInstructions::default(),
            personality: None,
            output_schema: None,
            output_schema_strict: true,
        }
    }
}

/// A decoded event of the model's response stream.
#[derive(Debug)]
pub enum ResponseEvent {
    Created,
    OutputTextDelta(String),
    Completed { response_id: String },
}

/// The abstract form of a [`ResponseEvent`], over character sequences.
pub enum ResponseEventView {
    Created,
    OutputTextDelta(Seq<char>),
    Completed { response_id: Seq<char> },
}

impl View for ResponseEvent {
    type V = ResponseEventView;

    open spec fn view(&self) -> ResponseEventView {
        match self {
            ResponseEvent::Created => ResponseEventView::Created,
            ResponseEvent::OutputTextDelta(d) => ResponseEventView::OutputTextDelta(d@),
            ResponseEvent::Completed { response_id } => ResponseEventView::Completed {
                response_id: response_id@,
            },
        }
    }
}

/// The one error kind of the pipeline: a stream-level failure with a message.
#[derive(Debug)]
pub enum ApiError {
    Stream(String),
}

impl ApiError {
    /// The message carried by the error.
    pub open spec fn msg(&self) -> Seq<char> {
        match self {
            ApiError::Stream(m) => m@,
        }
    }

    /// What the error displays as: `stream error: <message>`.
    pub open spec fn display_spec(&self) -> Seq<char> {
        "stream error: "@ + self.msg()
    }

    /// Renders the error as `stream error: <message>`.
    pub fn display(&self) -> (r: String)
        ensures
            r@ == self.display_spec(),
    {
        match self {
            ApiError::Stream(m) => {
                let mut s = String::from_str("stream error: ");
                s.append(m.as_str());
                s
            },
        }
    }
}

/// A decoded event or the error that ended the stream, over character sequences.
pub open spec fn outcome_view(r: Result<ResponseEvent, ApiError>) -> Result<ResponseEventView, Seq<char>> {
    match r {
        Ok(e) => Ok(e@),
        Err(err) => Err(err.msg()),
    }
}

/// The payload of a `response.completed` event.
#[derive(Debug)]
pub struct ResponseCompleted {
    pub id: String,
}

/// The `response` member of a Responses-API stream event, as decoded into a
/// [`ResponseCompleted`]: either it decoded, or it did not and the decoder's
/// message says why.
#[derive(Debug)]
pub enum CompletedPayload {
    Parsed(ResponseCompleted),
    Malformed(String),
}

/// The raw envelope of one Responses-API SSE event.
#[derive(Debug)]
pub struct ResponsesStreamEvent {
    /// The event's `type`.
    pub kind: String,
    pub delta: Option<String>,
    pub response: Option<CompletedPayload>,
}

/// The `delta` member of a chat-completions stream choice.
#[derive(Debug)]
pub struct ChatChunkDelta {
    pub content: Option<String>,
}

impl Default for ChatChunkDelta {
    fn default() -> (r: Self)
        ensures
            r.content.is_none(),
    {
        ChatChunkDelta { content: None }
    }
}

/// One choice of a chat-completions stream chunk.
#[derive(Debug)]
pub struct ChatChunkChoice {
    pub delta: ChatChunkDelta,
    pub finish_reason: Option<String>,
}

/// One SSE chunk of a chat-completions stream.
#[derive(Debug)]
pub struct ChatStreamChunk {
    pub id: Option<String>,
    pub choices: Vec<ChatChunkChoice>,
}

/// One message of a chat-completions request.
#[derive(Debug)]
pub struct ChatMessage {
    pub role: String,
    pub content: String,
}

/// The body of `POST <base>/chat/completions`.
#[derive(Debug)]
pub struct ChatCompletionsRequest {
    pub model: String,
    pub messages: Vec<ChatMessage>,
    pub stream: bool,
}

/// The structured-output parameter of a Responses-API request: a format
/// of the given kind (`json_schema`) with its strictness flag and its schema.
#[derive(Debug)]
pub struct TextFormat {
    /// The format's `type`.
    pub kind: String,
    pub strict: bool,
    pub schema: serde_json::Value,
}

/// The body of `POST <base>/responses`.
#[derive(Debug)]
pub struct ResponsesApiRequest {
    pub model: String,
    pub instructions: String,
    pub input: Vec<ResponseItem>,
    /// Left out of the payload when empty.
    pub tools: Vec<ToolSpec>,
    pub parallel_tool_calls: bool,
    pub stream: bool,
    pub store: bool,
    /// Left out of the payload when absent.
    pub text: Option<TextFormat>,
}

} // verus!
