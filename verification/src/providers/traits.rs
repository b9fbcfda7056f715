//! What every provider of a model takes and gives.
use crate::codec::{required, FromJson};
use crate::json::{Json, JsonView};
use crate::tools::ToolSpec;
use vstd::prelude::*;

verus! {

/// One message of a conversation.
#[derive(Debug, Clone)]
pub struct ChatMessage {
    pub role: String,
    pub content: String,
    /// The part of a system message that stays the same from turn to turn. It
    /// stands in front of `content`; other roles have no use for it.
    pub stable_prefix: Option<String>,
}

pub struct ChatMessageView {
    pub role: Seq<char>,
    pub content: Seq<char>,
    pub stable_prefix: Option<Seq<char>>,
}

impl DeepView for ChatMessage {
    type V = ChatMessageView;

    open spec fn deep_view(&self) -> ChatMessageView {
        ChatMessageView {
            role: self.role@,
            content: self.content@,
            stable_prefix: self.stable_prefix.deep_view(),
        }
    }
}

impl ChatMessage {
    /// A message with a role and no stable prefix.
    fn plain(role: &str, content: &str) -> (message: ChatMessage)
        ensures
            message.deep_view() == (ChatMessageView {
                role: role@,
                content: content@,
                stable_prefix: None,
            }),
    {
        ChatMessage { role: role.to_string(), content: content.to_string(), stable_prefix: None }
    }

    /// A system message.
    pub fn system(content: &str) -> (message: ChatMessage)
        ensures
            message.deep_view() == (ChatMessageView {
                role: "system"@,
                content: content@,
                stable_prefix: None,
            }),
    {
        ChatMessage::plain("system", content)
    }

    /// A system message with a part that stays the same from turn to turn.
    pub fn system_with_stable_prefix(stable_prefix: &str, content: &str) -> (message: ChatMessage)
        ensures
            message.deep_view() == (ChatMessageView {
                role: "system"@,
                content: content@,
                stable_prefix: Some(stable_prefix@),
            }),
    {
        ChatMessage {
            role: "system".to_string(),
            content: content.to_string(),
            stable_prefix: Some(stable_prefix.to_string()),
        }
    }

    /// A user's message.
    pub fn user(content: &str) -> (message: ChatMessage)
        ensures
            message.deep_view() == (ChatMessageView {
                role: "user"@,
                content: content@,
                stable_prefix: None,
            }),
    {
        ChatMessage::plain("user", content)
    }

    /// A message of the model.
    pub fn assistant(content: &str) -> (message: ChatMessage)
        ensures
            message.deep_view() == (ChatMessageView {
                role: "assistant"@,
                content: content@,
                stable_prefix: None,
            }),
    {
        ChatMessage::plain("assistant", content)
    }
}

/// A tool call that a model asks for.
#[derive(Debug, Clone)]
pub struct ToolCall {
    pub id: String,
    pub name: String,
    /// The arguments, as the text of a JSON document.
    pub arguments: String,
}

pub struct ToolCallView {
    pub id: Seq<char>,
    pub name: Seq<char>,
    pub arguments: Seq<char>,
}

impl DeepView for ToolCall {
    type V = ToolCallView;

    open spec fn deep_view(&self) -> ToolCallView {
        ToolCallView { id: self.id@, name: self.name@, arguments: self.arguments@ }
    }
}

impl FromJson for ToolCall {
    /// A record of three strings.
    open spec fn decoded(document: JsonView) -> Option<ToolCallView> {
        if !document.is_record(3) {
            None
        } else {
            match (
                required::<String>(document.field(0, "id"@)),
                required::<String>(document.field(1, "name"@)),
                required::<String>(document.field(2, "arguments"@)),
            ) {
                (Some(id), Some(name), Some(arguments)) => Some(
                    ToolCallView { id, name, arguments },
                ),
                _ => None,
            }
        }
    }

    fn from_json(document: &Json) -> (value: Option<ToolCall>) {
        if !document.is_record(3) {
            return None;
        }
        let id: Option<String> = document.required_field(0, "id");
        let name: Option<String> = document.required_field(1, "name");
        let arguments: Option<String> = document.required_field(2, "arguments");
        match (id, name, arguments) {
            (Some(id), Some(name), Some(arguments)) => Some(ToolCall { id, name, arguments }),
            _ => None,
        }
    }
}

/// How many tokens a call took.
#[derive(Debug, Clone, Copy, PartialEq, Eq, Structural)]
pub struct TokenUsage {
    pub input_tokens: Option<u64>,
    pub output_tokens: Option<u64>,
    /// Input tokens that the prompt cache had to do with: read and written.
    pub cached_input_tokens: Option<u64>,
    /// Input tokens that were read from the prompt cache.
    pub cache_read_input_tokens: Option<u64>,
    /// Input tokens that were written to the prompt cache.
    pub cache_creation_input_tokens: Option<u64>,
}

/// What a model answered.
#[derive(Debug, Clone)]
pub struct ChatResponse {
    pub text: Option<String>,
    pub tool_calls: Vec<ToolCall>,
    pub usage: Option<TokenUsage>,
    /// What a thinking model said of its thoughts.
    pub reasoning_content: Option<String>,
}

pub struct ChatResponseView {
    pub text: Option<Seq<char>>,
    pub tool_calls: Seq<ToolCallView>,
    pub usage: Option<TokenUsage>,
    pub reasoning_content: Option<Seq<char>>,
}

impl DeepView for ChatResponse {
    type V = ChatResponseView;

    open spec fn deep_view(&self) -> ChatResponseView {
        ChatResponseView {
            text: self.text.deep_view(),
            tool_calls: self.tool_calls.deep_view(),
            usage: self.usage,
            reasoning_content: self.reasoning_content.deep_view(),
        }
    }
}

/// A conversation and the tools that the model may call in it.
pub struct ChatRequest<'a> {
    pub messages: &'a [ChatMessage],
    pub tools: Option<&'a [ToolSpec]>,
}

/// What a provider can do.
#[derive(Debug, Clone, Copy, PartialEq, Eq, Structural)]
pub struct ProviderCapabilities {
    pub native_tool_calling: bool,
    pub vision: bool,
    pub prompt_caching: bool,
}

/// What a provider takes and gives is seen as it is.
pub proof fn law_conversations_are_seen_whole(
    message: ChatMessage,
    call: ToolCall,
    response: ChatResponse,
)
    ensures
        message.deep_view().role == message.role@,
        message.deep_view().content == message.content@,
        message.deep_view().stable_prefix is Some <==> message.stable_prefix is Some,
        message.stable_prefix matches Some(prefix) ==> message.deep_view().stable_prefix == Some(
            prefix@,
        ),
        call.deep_view().id == call.id@,
        call.deep_view().name == call.name@,
        call.deep_view().arguments == call.arguments@,
        response.deep_view().text is Some <==> response.text is Some,
        response.text matches Some(text) ==> response.deep_view().text == Some(text@),
        response.deep_view().tool_calls.len() == response.tool_calls@.len(),
        forall|i: int|
            0 <= i < response.tool_calls@.len() ==> #[trigger] response.deep_view().tool_calls[i]
                == response.tool_calls@[i].deep_view(),
        response.deep_view().usage == response.usage,
        response.deep_view().reasoning_content is Some <==> response.reasoning_content is Some,
        response.reasoning_content matches Some(text) ==> response.deep_view().reasoning_content
            == Some(text@),
{
}

} // verus!
