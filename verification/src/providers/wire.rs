//! What goes over the wire to OpenRouter and what comes back.
use crate::json::{Json, JsonView};
use crate::outline::{
    array_to_json, json_items, lemma_last_field_push, push_some, some_string_outline,
    string_outline, Fields, Outline, OutlineView, ToJson,
};
use vstd::prelude::*;

verus! {

// Requests.

/// A mark that asks a provider to cache the prompt up to and with the part that
/// carries it.
#[derive(Debug, Clone)]
pub struct CacheControl {
    pub cache_type: &'static str,
}

impl DeepView for CacheControl {
    type V = Seq<char>;

    open spec fn deep_view(&self) -> Seq<char> {
        self.cache_type@
    }
}

impl CacheControl {
    /// The mark for a cache entry that does not last.
    pub fn ephemeral() -> (mark: CacheControl)
        ensures
            mark.deep_view() == "ephemeral"@,
    {
        CacheControl { cache_type: "ephemeral" }
    }
}

impl ToJson for CacheControl {
    open spec fn json(content: Seq<char>) -> OutlineView {
        OutlineView::Object(Seq::empty().push(("type"@, string_outline(content))))
    }

    fn to_json(&self) -> (outline: Outline) {
        let mut fields = Fields::new();
        fields.put_str("type", self.cache_type);
        fields.into_object()
    }
}

/// Where an image is.
#[derive(Debug, Clone)]
pub struct ImageUrlPart {
    pub url: String,
}

/// A part of a message.
#[derive(Debug, Clone)]
pub enum MessagePart {
    Text { text: String, cache_control: Option<CacheControl> },
    ImageUrl { image_url: ImageUrlPart },
}

pub enum PartView {
    Text { text: Seq<char>, cache_control: Option<Seq<char>> },
    ImageUrl { url: Seq<char> },
}

impl DeepView for MessagePart {
    type V = PartView;

    open spec fn deep_view(&self) -> PartView {
        match self {
            MessagePart::Text { text, cache_control } => PartView::Text {
                text: text@,
                cache_control: cache_control.deep_view(),
            },
            MessagePart::ImageUrl { image_url } => PartView::ImageUrl { url: image_url.url@ },
        }
    }
}

impl ToJson for MessagePart {
    open spec fn json(content: PartView) -> OutlineView {
        match content {
            PartView::Text { text, cache_control } => OutlineView::Object(
                push_some(
                    Seq::empty().push(("type"@, string_outline("text"@))).push(
                        ("text"@, string_outline(text)),
                    ),
                    "cache_control"@,
                    match cache_control {
                        Some(mark) => Some(CacheControl::json(mark)),
                        None => None,
                    },
                ),
            ),
            PartView::ImageUrl { url } => OutlineView::Object(
                Seq::empty().push(("type"@, string_outline("image_url"@))).push(
                    (
                        "image_url"@,
                        OutlineView::Object(Seq::empty().push(("url"@, string_outline(url)))),
                    ),
                ),
            ),
        }
    }

    fn to_json(&self) -> (outline: Outline) {
        let mut fields = Fields::new();
        match self {
            MessagePart::Text { text, cache_control } => {
                fields.put_str("type", "text");
                fields.put_str("text", text.as_str());
                if let Some(mark) = cache_control {
                    fields.put("cache_control", mark.to_json());
                }
            },
            MessagePart::ImageUrl { image_url } => {
                let mut place = Fields::new();
                place.put_str("url", image_url.url.as_str());
                fields.put_str("type", "image_url");
                fields.put("image_url", place.into_object());
            },
        }
        fields.into_object()
    }
}

/// What a message says: a text, or parts of which some may be images.
#[derive(Debug, Clone)]
pub enum MessageContent {
    Text(String),
    Parts(Vec<MessagePart>),
}

pub enum ContentView {
    Text(Seq<char>),
    Parts(Seq<PartView>),
}

impl DeepView for MessageContent {
    type V = ContentView;

    open spec fn deep_view(&self) -> ContentView {
        match self {
            MessageContent::Text(text) => ContentView::Text(text@),
            MessageContent::Parts(parts) => ContentView::Parts(parts.deep_view()),
        }
    }
}

impl ToJson for MessageContent {
    open spec fn json(content: ContentView) -> OutlineView {
        match content {
            ContentView::Text(text) => string_outline(text),
            ContentView::Parts(parts) => json_items::<MessagePart>(parts),
        }
    }

    fn to_json(&self) -> (outline: Outline) {
        match self {
            MessageContent::Text(text) => Outline::string(text.as_str()),
            MessageContent::Parts(parts) => array_to_json(parts),
        }
    }
}

/// A message of a request without tools.
#[derive(Debug, Clone)]
pub struct Message {
    pub role: String,
    pub content: MessageContent,
}

pub struct MessageView {
    pub role: Seq<char>,
    pub content: ContentView,
}

impl DeepView for Message {
    type V = MessageView;

    open spec fn deep_view(&self) -> MessageView {
        MessageView { role: self.role@, content: self.content.deep_view() }
    }
}

impl ToJson for Message {
    open spec fn json(content: MessageView) -> OutlineView {
        OutlineView::Object(
            Seq::empty().push(("role"@, string_outline(content.role))).push(
                ("content"@, MessageContent::json(content.content)),
            ),
        )
    }

    fn to_json(&self) -> (outline: Outline) {
        let mut fields = Fields::new();
        fields.put_str("role", self.role.as_str());
        fields.put("content", self.content.to_json());
        fields.into_object()
    }
}

/// A request without tools.
#[derive(Debug, Clone)]
pub struct ChatRequest {
    pub model: String,
    pub messages: Vec<Message>,
    /// The temperature, as a JSON number.
    pub temperature: Json,
    pub max_tokens: Option<u32>,
}

pub struct ChatRequestView {
    pub model: Seq<char>,
    pub messages: Seq<MessageView>,
    pub temperature: JsonView,
    pub max_tokens: Option<u32>,
}

impl DeepView for ChatRequest {
    type V = ChatRequestView;

    open spec fn deep_view(&self) -> ChatRequestView {
        ChatRequestView {
            model: self.model@,
            messages: self.messages.deep_view(),
            temperature: self.temperature@,
            max_tokens: self.max_tokens,
        }
    }
}

/// A number, where there is one.
pub open spec fn some_number(number: Option<u32>) -> Option<OutlineView> {
    match number {
        Some(n) => Some(OutlineView::Value(JsonView::Unsigned(n as u64))),
        None => None,
    }
}

impl ToJson for ChatRequest {
    open spec fn json(content: ChatRequestView) -> OutlineView {
        OutlineView::Object(
            push_some(
                Seq::empty().push(("model"@, string_outline(content.model))).push(
                    ("messages"@, json_items::<Message>(content.messages)),
                ).push(("temperature"@, OutlineView::Value(content.temperature))),
                "max_tokens"@,
                some_number(content.max_tokens),
            ),
        )
    }

    fn to_json(&self) -> (outline: Outline) {
        let mut fields = Fields::new();
        fields.put_str("model", self.model.as_str());
        fields.put("messages", array_to_json(&self.messages));
        fields.put("temperature", Outline::Value(self.temperature.copy()));
        if let Some(n) = self.max_tokens {
            fields.put("max_tokens", Outline::Value(Json::Unsigned(n as u64)));
        }
        fields.into_object()
    }
}

/// A function that a model calls, and with what.
#[derive(Debug, Clone)]
pub struct NativeFunctionCall {
    pub name: String,
    pub arguments: String,
}

pub struct FunctionCallView {
    pub name: Seq<char>,
    pub arguments: Seq<char>,
}

impl DeepView for NativeFunctionCall {
    type V = FunctionCallView;

    open spec fn deep_view(&self) -> FunctionCallView {
        FunctionCallView { name: self.name@, arguments: self.arguments@ }
    }
}

impl ToJson for NativeFunctionCall {
    open spec fn json(content: FunctionCallView) -> OutlineView {
        OutlineView::Object(
            Seq::empty().push(("name"@, string_outline(content.name))).push(
                ("arguments"@, string_outline(content.arguments)),
            ),
        )
    }

    fn to_json(&self) -> (outline: Outline) {
        let mut fields = Fields::new();
        fields.put_str("name", self.name.as_str());
        fields.put_str("arguments", self.arguments.as_str());
        fields.into_object()
    }
}

/// A tool call as it goes over the wire.
#[derive(Debug, Clone)]
pub struct NativeToolCall {
    pub id: Option<String>,
    pub kind: Option<String>,
    pub function: NativeFunctionCall,
}

pub struct NativeToolCallView {
    pub id: Option<Seq<char>>,
    pub kind: Option<Seq<char>>,
    pub function: FunctionCallView,
}

impl DeepView for NativeToolCall {
    type V = NativeToolCallView;

    open spec fn deep_view(&self) -> NativeToolCallView {
        NativeToolCallView {
            id: self.id.deep_view(),
            kind: self.kind.deep_view(),
            function: self.function.deep_view(),
        }
    }
}

impl ToJson for NativeToolCall {
    open spec fn json(content: NativeToolCallView) -> OutlineView {
        OutlineView::Object(
            push_some(
                push_some(Seq::empty(), "id"@, some_string_outline(content.id)),
                "type"@,
                some_string_outline(content.kind),
            ).push(("function"@, NativeFunctionCall::json(content.function))),
        )
    }

    fn to_json(&self) -> (outline: Outline) {
        let mut fields = Fields::new();
        fields.put_some_str("id", &self.id);
        fields.put_some_str("type", &self.kind);
        fields.put("function", self.function.to_json());
        fields.into_object()
    }
}

/// A message of a request with tools.
#[derive(Debug, Clone)]
pub struct NativeMessage {
    pub role: String,
    pub content: Option<MessageContent>,
    pub tool_call_id: Option<String>,
    pub tool_calls: Option<Vec<NativeToolCall>>,
    /// What a thinking model said of its thoughts, handed back to the providers
    /// that want it in the history of a tool call.
    pub reasoning_content: Option<String>,
}

pub struct NativeMessageView {
    pub role: Seq<char>,
    pub content: Option<ContentView>,
    pub tool_call_id: Option<Seq<char>>,
    pub tool_calls: Option<Seq<NativeToolCallView>>,
    pub reasoning_content: Option<Seq<char>>,
}

impl DeepView for NativeMessage {
    type V = NativeMessageView;

    open spec fn deep_view(&self) -> NativeMessageView {
        NativeMessageView {
            role: self.role@,
            content: self.content.deep_view(),
            tool_call_id: self.tool_call_id.deep_view(),
            tool_calls: self.tool_calls.deep_view(),
            reasoning_content: self.reasoning_content.deep_view(),
        }
    }
}

impl ToJson for NativeMessage {
    open spec fn json(content: NativeMessageView) -> OutlineView {
        let role = Seq::empty().push(("role"@, string_outline(content.role)));
        let said = push_some(
            role,
            "content"@,
            match content.content {
                Some(said) => Some(MessageContent::json(said)),
                None => None,
            },
        );
        let answers = push_some(
            said,
            "tool_call_id"@,
            some_string_outline(content.tool_call_id),
        );
        let calls = push_some(
            answers,
            "tool_calls"@,
            match content.tool_calls {
                Some(calls) => Some(json_items::<NativeToolCall>(calls)),
                None => None,
            },
        );
        OutlineView::Object(
            push_some(
                calls,
                "reasoning_content"@,
                some_string_outline(content.reasoning_content),
            ),
        )
    }

    fn to_json(&self) -> (outline: Outline) {
        let mut fields = Fields::new();
        fields.put_str("role", self.role.as_str());
        if let Some(said) = &self.content {
            fields.put("content", said.to_json());
        }
        fields.put_some_str("tool_call_id", &self.tool_call_id);
        if let Some(calls) = &self.tool_calls {
            fields.put("tool_calls", array_to_json(calls));
        }
        fields.put_some_str("reasoning_content", &self.reasoning_content);
        fields.into_object()
    }
}

/// What a request says of the function behind a tool.
#[derive(Debug, Clone)]
pub struct NativeToolFunctionSpec {
    pub name: String,
    pub description: String,
    pub parameters: Json,
}

pub struct FunctionSpecView {
    pub name: Seq<char>,
    pub description: Seq<char>,
    pub parameters: JsonView,
}

impl DeepView for NativeToolFunctionSpec {
    type V = FunctionSpecView;

    open spec fn deep_view(&self) -> FunctionSpecView {
        FunctionSpecView {
            name: self.name@,
            description: self.description@,
            parameters: self.parameters@,
        }
    }
}

/// A tool that a request offers.
#[derive(Debug, Clone)]
pub struct NativeToolSpec {
    pub kind: String,
    pub function: NativeToolFunctionSpec,
}

pub struct NativeToolSpecView {
    pub kind: Seq<char>,
    pub function: FunctionSpecView,
}

impl DeepView for NativeToolSpec {
    type V = NativeToolSpecView;

    open spec fn deep_view(&self) -> NativeToolSpecView {
        NativeToolSpecView { kind: self.kind@, function: self.function.deep_view() }
    }
}

impl ToJson for NativeToolSpec {
    open spec fn json(content: NativeToolSpecView) -> OutlineView {
        OutlineView::Object(
            Seq::empty().push(("type"@, string_outline(content.kind))).push(
                (
                    "function"@,
                    OutlineView::Object(
                        Seq::empty().push(("name"@, string_outline(content.function.name))).push(
                            ("description"@, string_outline(content.function.description)),
                        ).push(("parameters"@, OutlineView::Value(content.function.parameters))),
                    ),
                ),
            ),
        )
    }

    fn to_json(&self) -> (outline: Outline) {
        let mut function = Fields::new();
        function.put_str("name", self.function.name.as_str());
        function.put_str("description", self.function.description.as_str());
        function.put("parameters", Outline::Value(self.function.parameters.copy()));
        let mut fields = Fields::new();
        fields.put_str("type", self.kind.as_str());
        fields.put("function", function.into_object());
        fields.into_object()
    }
}

/// A request with tools.
#[derive(Debug, Clone)]
pub struct NativeChatRequest {
    pub model: String,
    pub messages: Vec<NativeMessage>,
    /// The temperature, as a JSON number.
    pub temperature: Json,
    pub tools: Option<Vec<NativeToolSpec>>,
    pub tool_choice: Option<String>,
    pub max_tokens: Option<u32>,
}

pub struct NativeChatRequestView {
    pub model: Seq<char>,
    pub messages: Seq<NativeMessageView>,
    pub temperature: JsonView,
    pub tools: Option<Seq<NativeToolSpecView>>,
    pub tool_choice: Option<Seq<char>>,
    pub max_tokens: Option<u32>,
}

impl DeepView for NativeChatRequest {
    type V = NativeChatRequestView;

    open spec fn deep_view(&self) -> NativeChatRequestView {
        NativeChatRequestView {
            model: self.model@,
            messages: self.messages.deep_view(),
            temperature: self.temperature@,
            tools: self.tools.deep_view(),
            tool_choice: self.tool_choice.deep_view(),
            max_tokens: self.max_tokens,
        }
    }
}

impl ToJson for NativeChatRequest {
    open spec fn json(content: NativeChatRequestView) -> OutlineView {
        let always = Seq::empty().push(("model"@, string_outline(content.model))).push(
            ("messages"@, json_items::<NativeMessage>(content.messages)),
        ).push(("temperature"@, OutlineView::Value(content.temperature)));
        let offered = push_some(
            always,
            "tools"@,
            match content.tools {
                Some(tools) => Some(json_items::<NativeToolSpec>(tools)),
                None => None,
            },
        );
        let chosen = push_some(
            offered,
            "tool_choice"@,
            some_string_outline(content.tool_choice),
        );
        OutlineView::Object(push_some(chosen, "max_tokens"@, some_number(content.max_tokens)))
    }

    fn to_json(&self) -> (outline: Outline) {
        let mut fields = Fields::new();
        fields.put_str("model", self.model.as_str());
        fields.put("messages", array_to_json(&self.messages));
        fields.put("temperature", Outline::Value(self.temperature.copy()));
        if let Some(tools) = &self.tools {
            fields.put("tools", array_to_json(tools));
        }
        fields.put_some_str("tool_choice", &self.tool_choice);
        if let Some(n) = self.max_tokens {
            fields.put("max_tokens", Outline::Value(Json::Unsigned(n as u64)));
        }
        fields.into_object()
    }
}

// Responses.

/// The message of a choice.
#[derive(Debug, Clone)]
pub struct ResponseMessage {
    pub content: String,
}

/// One of the answers of a response without tools.
#[derive(Debug, Clone)]
pub struct Choice {
    pub message: ResponseMessage,
}

impl DeepView for Choice {
    type V = Seq<char>;

    open spec fn deep_view(&self) -> Seq<char> {
        self.message.content@
    }
}

/// A response to a request without tools.
#[derive(Debug, Clone)]
pub struct ApiChatResponse {
    pub choices: Vec<Choice>,
}

impl DeepView for ApiChatResponse {
    type V = Seq<Seq<char>>;

    open spec fn deep_view(&self) -> Seq<Seq<char>> {
        self.choices.deep_view()
    }
}

/// What a response says of the prompt's tokens.
#[derive(Debug, Clone, Copy, PartialEq, Eq, Structural)]
pub struct PromptTokensDetails {
    pub cached_tokens: Option<u64>,
}

/// How many tokens a response says the call took.
#[derive(Debug, Clone, Copy, PartialEq, Eq, Structural)]
pub struct UsageInfo {
    pub prompt_tokens: Option<u64>,
    pub completion_tokens: Option<u64>,
    pub prompt_tokens_details: Option<PromptTokensDetails>,
}

/// The message of a choice that may call tools.
#[derive(Debug, Clone)]
pub struct NativeResponseMessage {
    pub content: Option<String>,
    /// What a thinking model said of its thoughts.
    pub reasoning_content: Option<String>,
    pub tool_calls: Option<Vec<NativeToolCall>>,
}

pub struct NativeResponseMessageView {
    pub content: Option<Seq<char>>,
    pub reasoning_content: Option<Seq<char>>,
    pub tool_calls: Option<Seq<NativeToolCallView>>,
}

impl DeepView for NativeResponseMessage {
    type V = NativeResponseMessageView;

    open spec fn deep_view(&self) -> NativeResponseMessageView {
        NativeResponseMessageView {
            content: self.content.deep_view(),
            reasoning_content: self.reasoning_content.deep_view(),
            tool_calls: self.tool_calls.deep_view(),
        }
    }
}

/// One of the answers of a response with tools.
#[derive(Debug, Clone)]
pub struct NativeChoice {
    pub message: NativeResponseMessage,
}

impl DeepView for NativeChoice {
    type V = NativeResponseMessageView;

    open spec fn deep_view(&self) -> NativeResponseMessageView {
        self.message.deep_view()
    }
}

/// A response to a request with tools.
#[derive(Debug, Clone)]
pub struct NativeChatResponse {
    pub choices: Vec<NativeChoice>,
    pub usage: Option<UsageInfo>,
}

pub struct NativeChatResponseView {
    pub choices: Seq<NativeResponseMessageView>,
    pub usage: Option<UsageInfo>,
}

impl DeepView for NativeChatResponse {
    type V = NativeChatResponseView;

    open spec fn deep_view(&self) -> NativeChatResponseView {
        NativeChatResponseView { choices: self.choices.deep_view(), usage: self.usage }
    }
}

// Laws.

/// A text part shows its mark for the cache where it has one, and lacks the member
/// where it has none: a member that is null would be taken for a mark.
pub proof fn law_part_mark(text: Seq<char>, cache_control: Option<Seq<char>>)
    ensures
        ({
            let outline = MessagePart::json(PartView::Text { text, cache_control });
            &&& outline.member("type"@) == Some(string_outline("text"@))
            &&& outline.member("text"@) == Some(string_outline(text))
            &&& outline.member("cache_control"@) == match cache_control {
                Some(mark) => Some(CacheControl::json(mark)),
                None => None,
            }
        }),
{
    broadcast use lemma_last_field_push;

    reveal_strlit("type");
    reveal_strlit("text");
    reveal_strlit("cache_control");
    assert("type"@[1] != "text"@[1]);
    assert("cache_control"@.len() != "type"@.len());
    assert("cache_control"@.len() != "text"@.len());
}

/// A message of a request with tools has each of its optional members if and only
/// if there is a value for it.
pub proof fn law_native_message_members(message: NativeMessageView)
    ensures
        ({
            let outline = NativeMessage::json(message);
            &&& outline.member("role"@) == Some(string_outline(message.role))
            &&& outline.member("content"@) == match message.content {
                Some(said) => Some(MessageContent::json(said)),
                None => None,
            }
            &&& outline.member("tool_call_id"@) == some_string_outline(message.tool_call_id)
            &&& outline.member("tool_calls"@) == match message.tool_calls {
                Some(calls) => Some(json_items::<NativeToolCall>(calls)),
                None => None,
            }
            &&& outline.member("reasoning_content"@) == some_string_outline(
                message.reasoning_content,
            )
        }),
{
    broadcast use lemma_last_field_push;

    reveal_strlit("role");
    reveal_strlit("content");
    reveal_strlit("tool_call_id");
    reveal_strlit("tool_calls");
    reveal_strlit("reasoning_content");
    assert("role"@.len() == 4 && "content"@.len() == 7 && "tool_call_id"@.len() == 12
        && "tool_calls"@.len() == 10 && "reasoning_content"@.len() == 17);
}

/// A request with tools has each of its optional members if and only if there is
/// a value for it.
pub proof fn law_native_request_members(request: NativeChatRequestView)
    ensures
        ({
            let outline = NativeChatRequest::json(request);
            &&& outline.member("model"@) == Some(string_outline(request.model))
            &&& outline.member("messages"@) == Some(
                json_items::<NativeMessage>(request.messages),
            )
            &&& outline.member("temperature"@) == Some(OutlineView::Value(request.temperature))
            &&& outline.member("tools"@) == match request.tools {
                Some(tools) => Some(json_items::<NativeToolSpec>(tools)),
                None => None,
            }
            &&& outline.member("tool_choice"@) == some_string_outline(request.tool_choice)
            &&& outline.member("max_tokens"@) == some_number(request.max_tokens)
        }),
{
    broadcast use lemma_last_field_push;

    reveal_strlit("model");
    reveal_strlit("messages");
    reveal_strlit("temperature");
    reveal_strlit("tools");
    reveal_strlit("tool_choice");
    reveal_strlit("max_tokens");
    assert("model"@.len() == 5 && "messages"@.len() == 8 && "temperature"@.len() == 11
        && "tools"@.len() == 5 && "tool_choice"@.len() == 11 && "max_tokens"@.len() == 10);
    assert("model"@[0] != "tools"@[0]);
    assert("temperature"@[1] != "tool_choice"@[1]);
}

/// A request without tools has a limit on the answer's tokens if and only if there
/// is one.
pub proof fn law_request_members(request: ChatRequestView)
    ensures
        ({
            let outline = ChatRequest::json(request);
            &&& outline.member("model"@) == Some(string_outline(request.model))
            &&& outline.member("messages"@) == Some(json_items::<Message>(request.messages))
            &&& outline.member("temperature"@) == Some(OutlineView::Value(request.temperature))
            &&& outline.member("max_tokens"@) == some_number(request.max_tokens)
        }),
{
    broadcast use lemma_last_field_push;

    reveal_strlit("model");
    reveal_strlit("messages");
    reveal_strlit("temperature");
    reveal_strlit("max_tokens");
    assert("model"@.len() == 5 && "messages"@.len() == 8 && "temperature"@.len() == 11
        && "max_tokens"@.len() == 10);
}

/// A part is written with its type first; a text shows its words as they are and its
/// mark for the cache last, an image shows where it is.
pub proof fn law_parts_are_written(text: Seq<char>, mark: Seq<char>, url: Seq<char>)
    ensures
        ({
            let plain = MessagePart::json(PartView::Text { text, cache_control: None });
            let marked = MessagePart::json(PartView::Text { text, cache_control: Some(mark) });
            let image = MessagePart::json(PartView::ImageUrl { url });
            let kind = ("type"@, OutlineView::Value(JsonView::String("text"@)));
            let words = ("text"@, OutlineView::Value(JsonView::String(text)));
            let control = OutlineView::Object(
                seq![("type"@, OutlineView::Value(JsonView::String(mark)))],
            );
            let place = OutlineView::Object(
                seq![("url"@, OutlineView::Value(JsonView::String(url)))],
            );
            &&& plain == OutlineView::Object(seq![kind, words])
            &&& marked == OutlineView::Object(seq![kind, words, ("cache_control"@, control)])
            &&& image == OutlineView::Object(
                seq![
                    ("type"@, OutlineView::Value(JsonView::String("image_url"@))),
                    ("image_url"@, place),
                ],
            )
        }),
{
    let kind = ("type"@, OutlineView::Value(JsonView::String("text"@)));
    let words = ("text"@, OutlineView::Value(JsonView::String(text)));
    let control = OutlineView::Object(seq![("type"@, OutlineView::Value(JsonView::String(mark)))]);
    let place = OutlineView::Object(seq![("url"@, OutlineView::Value(JsonView::String(url)))]);
    assert(MessagePart::json(PartView::Text { text, cache_control: None })->Object_0 =~= seq![
        kind,
        words,
    ]);
    assert(MessagePart::json(PartView::Text { text, cache_control: Some(mark) })->Object_0
        =~= seq![kind, words, ("cache_control"@, control)]);
    assert(MessagePart::json(PartView::ImageUrl { url })->Object_0 =~= seq![
        ("type"@, OutlineView::Value(JsonView::String("image_url"@))),
        ("image_url"@, place),
    ]);
}

/// What a message says is written as a string where it is a text, and part by part
/// where it is parts; a message shows its role in front of it.
pub proof fn law_contents_are_written(
    role: Seq<char>,
    text: Seq<char>,
    parts: Seq<PartView>,
    content: ContentView,
)
    ensures
        MessageContent::json(ContentView::Text(text)) == OutlineView::Value(JsonView::String(text)),
        MessageContent::json(ContentView::Parts(parts)) is Array,
        MessageContent::json(ContentView::Parts(parts))->Array_0.len() == parts.len(),
        forall|i: int|
            0 <= i < parts.len() ==> #[trigger] MessageContent::json(
                ContentView::Parts(parts),
            )->Array_0[i] == MessagePart::json(parts[i]),
        Message::json(MessageView { role, content }) == OutlineView::Object(
            seq![
                ("role"@, OutlineView::Value(JsonView::String(role))),
                ("content"@, MessageContent::json(content)),
            ],
        ),
{
    assert(Message::json(MessageView { role, content })->Object_0 =~= seq![
        ("role"@, OutlineView::Value(JsonView::String(role))),
        ("content"@, MessageContent::json(content)),
    ]);
}

/// A tool is written with its type and its function: name, description and
/// parameters, as they are and in this order.
pub proof fn law_tools_are_written(tool: NativeToolSpecView)
    ensures
        NativeToolSpec::json(tool) == OutlineView::Object(
            seq![
                ("type"@, OutlineView::Value(JsonView::String(tool.kind))),
                (
                    "function"@,
                    OutlineView::Object(
                        seq![
                            ("name"@, OutlineView::Value(JsonView::String(tool.function.name))),
                            (
                                "description"@,
                                OutlineView::Value(JsonView::String(tool.function.description)),
                            ),
                            ("parameters"@, OutlineView::Value(tool.function.parameters)),
                        ],
                    ),
                ),
            ],
        ),
{
    let function = seq![
        ("name"@, OutlineView::Value(JsonView::String(tool.function.name))),
        ("description"@, OutlineView::Value(JsonView::String(tool.function.description))),
        ("parameters"@, OutlineView::Value(tool.function.parameters)),
    ];
    assert(NativeToolSpec::json(tool)->Object_0[1].1->Object_0 =~= function);
    assert(NativeToolSpec::json(tool)->Object_0 =~= seq![
        ("type"@, OutlineView::Value(JsonView::String(tool.kind))),
        ("function"@, OutlineView::Object(function)),
    ]);
}

/// Whether a document is an array of what is written for some messages, in order.
pub open spec fn writes_messages(outline: OutlineView, messages: Seq<MessageView>) -> bool {
    &&& outline is Array
    &&& outline->Array_0.len() == messages.len()
    &&& forall|i: int|
        0 <= i < messages.len() ==> #[trigger] outline->Array_0[i] == Message::json(messages[i])
}

/// A request without tools is written in the order of its members, the limit on
/// tokens last where there is one.
pub proof fn law_requests_are_written(
    model: Seq<char>,
    messages: Seq<MessageView>,
    temperature: JsonView,
    limit: u32,
)
    ensures
        ({
            let limited = ChatRequest::json(
                ChatRequestView { model, messages, temperature, max_tokens: Some(limit) },
            );
            let free = ChatRequest::json(
                ChatRequestView { model, messages, temperature, max_tokens: None },
            );
            &&& free is Object
            &&& free->Object_0.len() == 3
            &&& free->Object_0[0] == ("model"@, OutlineView::Value(JsonView::String(model)))
            &&& free->Object_0[1].0 == "messages"@
            &&& writes_messages(free->Object_0[1].1, messages)
            &&& free->Object_0[2] == ("temperature"@, OutlineView::Value(temperature))
            &&& limited is Object
            &&& limited->Object_0 == free->Object_0.push(
                ("max_tokens"@, OutlineView::Value(JsonView::Unsigned(limit as u64))),
            )
        }),
{
}

/// What goes over the wire is seen as it is: every field of a request by its text,
/// its items in order.
pub proof fn law_requests_are_seen_whole(
    part: MessagePart,
    content: MessageContent,
    message: Message,
    request: ChatRequest,
    call: NativeToolCall,
    native: NativeMessage,
    tool: NativeToolSpec,
    native_request: NativeChatRequest,
)
    ensures
        part matches MessagePart::Text { text, cache_control } ==> part.deep_view()
            == (PartView::Text {
            text: text@,
            cache_control: match cache_control {
                Some(mark) => Some(mark.cache_type@),
                None => None,
            },
        }),
        part matches MessagePart::ImageUrl { image_url } ==> part.deep_view() == (
        PartView::ImageUrl { url: image_url.url@ }),
        content matches MessageContent::Text(text) ==> content.deep_view() == ContentView::Text(
            text@,
        ),
        content matches MessageContent::Parts(parts) ==> content.deep_view() is Parts
            && content.deep_view()->Parts_0.len() == parts@.len() && forall|i: int|
            0 <= i < parts@.len() ==> #[trigger] content.deep_view()->Parts_0[i]
                == parts@[i].deep_view(),
        message.deep_view().role == message.role@,
        message.deep_view().content == message.content.deep_view(),
        request.deep_view().model == request.model@,
        request.deep_view().messages.len() == request.messages@.len(),
        forall|i: int|
            0 <= i < request.messages@.len() ==> #[trigger] request.deep_view().messages[i]
                == request.messages@[i].deep_view(),
        request.deep_view().temperature == request.temperature@,
        request.deep_view().max_tokens == request.max_tokens,
        call.deep_view().id is Some <==> call.id is Some,
        call.id matches Some(id) ==> call.deep_view().id == Some(id@),
        call.deep_view().kind is Some <==> call.kind is Some,
        call.kind matches Some(kind) ==> call.deep_view().kind == Some(kind@),
        call.deep_view().function.name == call.function.name@,
        call.deep_view().function.arguments == call.function.arguments@,
        native.deep_view().role == native.role@,
        native.deep_view().content is Some <==> native.content is Some,
        native.content matches Some(said) ==> native.deep_view().content == Some(said.deep_view()),
        native.deep_view().tool_call_id is Some <==> native.tool_call_id is Some,
        native.tool_call_id matches Some(id) ==> native.deep_view().tool_call_id == Some(id@),
        native.deep_view().tool_calls is Some <==> native.tool_calls is Some,
        native.tool_calls matches Some(calls) ==> native.deep_view().tool_calls->0.len()
            == calls@.len() && forall|i: int|
            0 <= i < calls@.len() ==> #[trigger] native.deep_view().tool_calls->0[i]
                == calls@[i].deep_view(),
        native.deep_view().reasoning_content is Some <==> native.reasoning_content is Some,
        native.reasoning_content matches Some(text) ==> native.deep_view().reasoning_content
            == Some(text@),
        tool.deep_view().kind == tool.kind@,
        tool.deep_view().function.name == tool.function.name@,
        tool.deep_view().function.description == tool.function.description@,
        tool.deep_view().function.parameters == tool.function.parameters@,
        native_request.deep_view().model == native_request.model@,
        native_request.deep_view().messages.len() == native_request.messages@.len(),
        forall|i: int|
            0 <= i < native_request.messages@.len()
                ==> #[trigger] native_request.deep_view().messages[i]
                == native_request.messages@[i].deep_view(),
        native_request.deep_view().temperature == native_request.temperature@,
        native_request.deep_view().tools is Some <==> native_request.tools is Some,
        native_request.tools matches Some(tools) ==> native_request.deep_view().tools->0.len()
            == tools@.len() && forall|i: int|
            0 <= i < tools@.len() ==> #[trigger] native_request.deep_view().tools->0[i]
                == tools@[i].deep_view(),
        native_request.deep_view().tool_choice is Some <==> native_request.tool_choice is Some,
        native_request.tool_choice matches Some(text) ==> native_request.deep_view().tool_choice
            == Some(text@),
        native_request.deep_view().max_tokens == native_request.max_tokens,
{
}

/// What comes back over the wire is seen as it is.
pub proof fn law_responses_are_seen_whole(
    response: ApiChatResponse,
    message: NativeResponseMessage,
    native: NativeChatResponse,
)
    ensures
        response.deep_view().len() == response.choices@.len(),
        forall|i: int|
            0 <= i < response.choices@.len() ==> #[trigger] response.deep_view()[i]
                == response.choices@[i].message.content@,
        message.deep_view().content is Some <==> message.content is Some,
        message.content matches Some(text) ==> message.deep_view().content == Some(text@),
        message.deep_view().reasoning_content is Some <==> message.reasoning_content is Some,
        message.reasoning_content matches Some(text) ==> message.deep_view().reasoning_content
            == Some(text@),
        message.deep_view().tool_calls is Some <==> message.tool_calls is Some,
        message.tool_calls matches Some(calls) ==> message.deep_view().tool_calls->0.len()
            == calls@.len() && forall|i: int|
            0 <= i < calls@.len() ==> #[trigger] message.deep_view().tool_calls->0[i]
                == calls@[i].deep_view(),
        native.deep_view().choices.len() == native.choices@.len(),
        forall|i: int|
            0 <= i < native.choices@.len() ==> #[trigger] native.deep_view().choices[i]
                == native.choices@[i].message.deep_view(),
        native.deep_view().usage == native.usage,
{
}

/// One for a member that is there.
pub open spec fn one_if<T>(there: Option<T>) -> int {
    if there is Some {
        1
    } else {
        0
    }
}

/// Whatever a tool call lacks, what it has is written in order: its identifier, its type
/// and, last, its function with the name and the arguments as they are.
pub proof fn law_any_call_is_written(call: NativeToolCallView)
    ensures
        ({
            let written = NativeToolCall::json(call);
            let fields = written->Object_0;
            &&& written is Object
            &&& fields.len() == one_if(call.id) + one_if(call.kind) + 1
            &&& call.id matches Some(id) ==> fields[0] == (
                "id"@,
                OutlineView::Value(JsonView::String(id)),
            )
            &&& call.kind matches Some(kind) ==> fields[one_if(call.id)] == (
                "type"@,
                OutlineView::Value(JsonView::String(kind)),
            )
            &&& fields.last() == (
                "function"@,
                OutlineView::Object(
                    seq![
                        ("name"@, OutlineView::Value(JsonView::String(call.function.name))),
                        (
                            "arguments"@,
                            OutlineView::Value(JsonView::String(call.function.arguments)),
                        ),
                    ],
                ),
            )
        }),
{
    assert(NativeFunctionCall::json(call.function)->Object_0 =~= seq![
        ("name"@, OutlineView::Value(JsonView::String(call.function.name))),
        ("arguments"@, OutlineView::Value(JsonView::String(call.function.arguments))),
    ]);
}

/// Whatever a message of a request with tools lacks, what it has is written in order.
pub proof fn law_any_native_message_is_written(message: NativeMessageView)
    ensures
        ({
            let written = NativeMessage::json(message);
            let fields = written->Object_0;
            let answers = 1 + one_if(message.content);
            let calls = answers + one_if(message.tool_call_id);
            let thoughts = calls + one_if(message.tool_calls);
            &&& written is Object
            &&& fields.len() == thoughts + one_if(message.reasoning_content)
            &&& fields[0] == ("role"@, OutlineView::Value(JsonView::String(message.role)))
            &&& message.content matches Some(said) ==> fields[1] == (
                "content"@,
                MessageContent::json(said),
            )
            &&& message.tool_call_id matches Some(id) ==> fields[answers] == (
                "tool_call_id"@,
                OutlineView::Value(JsonView::String(id)),
            )
            &&& message.tool_calls matches Some(list) ==> {
                &&& fields[calls].0 == "tool_calls"@
                &&& fields[calls].1 is Array
                &&& fields[calls].1->Array_0.len() == list.len()
                &&& forall|i: int|
                    0 <= i < list.len() ==> #[trigger] fields[calls].1->Array_0[i]
                        == NativeToolCall::json(list[i])
            }
            &&& message.reasoning_content matches Some(text) ==> fields[thoughts] == (
                "reasoning_content"@,
                OutlineView::Value(JsonView::String(text)),
            )
        }),
{
}

/// Whatever a request with tools lacks, what it has is written in order.
pub proof fn law_any_native_request_is_written(request: NativeChatRequestView)
    ensures
        ({
            let written = NativeChatRequest::json(request);
            let fields = written->Object_0;
            let choice = 3 + one_if(request.tools);
            let limit = choice + one_if(request.tool_choice);
            &&& written is Object
            &&& fields.len() == limit + one_if(request.max_tokens)
            &&& fields[0] == ("model"@, OutlineView::Value(JsonView::String(request.model)))
            &&& fields[1].0 == "messages"@
            &&& fields[1].1 is Array
            &&& fields[1].1->Array_0.len() == request.messages.len()
            &&& forall|i: int|
                0 <= i < request.messages.len() ==> #[trigger] fields[1].1->Array_0[i]
                    == NativeMessage::json(request.messages[i])
            &&& fields[2] == ("temperature"@, OutlineView::Value(request.temperature))
            &&& request.tools matches Some(list) ==> {
                &&& fields[3].0 == "tools"@
                &&& fields[3].1 is Array
                &&& fields[3].1->Array_0.len() == list.len()
                &&& forall|i: int|
                    0 <= i < list.len() ==> #[trigger] fields[3].1->Array_0[i]
                        == NativeToolSpec::json(list[i])
            }
            &&& request.tool_choice matches Some(text) ==> fields[choice] == (
                "tool_choice"@,
                OutlineView::Value(JsonView::String(text)),
            )
            &&& request.max_tokens matches Some(n) ==> fields[limit] == (
                "max_tokens"@,
                OutlineView::Value(JsonView::Unsigned(n as u64)),
            )
        }),
{
}

} // verus!
