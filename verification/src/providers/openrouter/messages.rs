//! The messages of a conversation, as the API takes them.
use crate::codec::{decoded_items, required, some_string, with_some, FromJson};
use crate::json::{has_string, law_texts_are_found, parsed_text, Json, JsonView};
use crate::providers::openrouter::OpenRouterProvider;
use crate::providers::openrouter::content::{message_content, system_content};
use crate::providers::traits::{
    ChatMessage, ChatMessageView, ToolCall as ProviderToolCall, ToolCallView,
};
use crate::providers::wire::{
    ContentView, FunctionCallView, Message, MessageContent, MessageView, NativeFunctionCall,
    NativeMessage, NativeMessageView, NativeToolCall, NativeToolCallView,
};
use crate::text::same_text;
use vstd::prelude::*;

verus! {

/// A tool call as it goes over the wire.
pub open spec fn native_call(call: ToolCallView) -> NativeToolCallView {
    NativeToolCallView {
        id: Some(call.id),
        kind: Some("function"@),
        function: FunctionCallView { name: call.name, arguments: call.arguments },
    }
}

/// A text, where there is one.
pub open spec fn some_text(text: Option<Seq<char>>) -> Option<ContentView> {
    match text {
        Some(text) => Some(ContentView::Text(text)),
        None => None,
    }
}

/// The tool calls that a document tells of in its member `tool_calls`.
pub open spec fn recorded_calls(document: JsonView) -> Option<Seq<ToolCallView>> {
    required::<Vec<ProviderToolCall>>(document.member("tool_calls"@))
}

/// A message as it goes over the wire, given the document that its content is the
/// text of, where it is the text of one.
pub open spec fn native_message(
    message: ChatMessageView,
    document: Option<JsonView>,
) -> NativeMessageView {
    if message.role == "assistant"@ && document is Some && recorded_calls(document->0) is Some {
        NativeMessageView {
            role: "assistant"@,
            content: some_text(document->0.member_text("content"@)),
            tool_call_id: None,
            tool_calls: Some(
                recorded_calls(document->0)->0.map_values(|call: ToolCallView| native_call(call)),
            ),
            reasoning_content: document->0.member_text("reasoning_content"@),
        }
    } else if message.role == "tool"@ && document is Some {
        NativeMessageView {
            role: "tool"@,
            content: Some(
                match document->0.member_text("content"@) {
                    Some(text) => ContentView::Text(text),
                    None => ContentView::Text(message.content),
                },
            ),
            tool_call_id: document->0.member_text("tool_call_id"@),
            tool_calls: None,
            reasoning_content: None,
        }
    } else {
        NativeMessageView {
            role: message.role,
            content: Some(message_content(message)),
            tool_call_id: None,
            tool_calls: None,
            reasoning_content: None,
        }
    }
}

/// The document that a text is, where it is one.
pub open spec fn document_of(text: Seq<char>) -> Option<JsonView> {
    match parsed_text(text) {
        Ok(document) => Some(document),
        Err(_) => None,
    }
}

/// Messages as they go over the wire.
pub open spec fn native_messages(messages: Seq<ChatMessageView>) -> Seq<NativeMessageView> {
    messages.map_values(
        |message: ChatMessageView| native_message(message, document_of(message.content)),
    )
}

/// A message of a request without tools.
pub open spec fn history_message(message: ChatMessageView) -> MessageView {
    MessageView { role: message.role, content: message_content(message) }
}

/// The messages of a conversation for a request without tools.
pub open spec fn history_messages(messages: Seq<ChatMessageView>) -> Seq<MessageView> {
    messages.map_values(|message: ChatMessageView| history_message(message))
}

impl OpenRouterProvider {
    /// A message of a request without tools. A system message keeps its stable
    /// prefix and its mark for the cache here too.
    pub fn to_history_message(m: &ChatMessage) -> (message: Message)
        ensures
            message.deep_view() == history_message(m.deep_view()),
    {
        Message { role: m.role.clone(), content: Self::content_of(m) }
    }

    fn native_calls(calls: &Vec<ProviderToolCall>) -> (native: Vec<NativeToolCall>)
        ensures
            native.deep_view() == calls.deep_view().map_values(
                |call: ToolCallView| native_call(call),
            ),
    {
        let mut native: Vec<NativeToolCall> = Vec::new();
        let mut at: usize = 0;
        while at < calls.len()
            invariant
                at <= calls.len(),
                native.len() == at,
                forall|i: int|
                    0 <= i < at ==> (#[trigger] native@[i]).deep_view() == native_call(
                        calls@[i].deep_view(),
                    ),
            decreases calls.len() - at,
        {
            native.push(
                NativeToolCall {
                    id: Some(calls[at].id.clone()),
                    kind: Some("function".to_string()),
                    function: NativeFunctionCall {
                        name: calls[at].name.clone(),
                        arguments: calls[at].arguments.clone(),
                    },
                },
            );
            at = at + 1;
        }
        assert(native.deep_view() =~= calls.deep_view().map_values(
            |call: ToolCallView| native_call(call),
        ));
        native
    }

    /// A message as it goes over the wire, given the document that its content is
    /// the text of. The content of the model's message may tell of its tool calls,
    /// that of a tool's message of the call that it answers.
    pub fn convert_message(m: &ChatMessage, document: &Option<Json>) -> (message: NativeMessage)
        ensures
            message.deep_view() == native_message(
                m.deep_view(),
                match document {
                    Some(json) => Some(json@),
                    None => None,
                },
            ),
    {
        if let Some(value) = document {
            if same_text(m.role.as_str(), "assistant") {
                let recorded: Option<Vec<ProviderToolCall>> = match value.get("tool_calls") {
                    Some(calls) => FromJson::from_json(calls),
                    None => None,
                };
                if let Some(calls) = recorded {
                    return NativeMessage {
                        role: "assistant".to_string(),
                        content: match value.get_str("content") {
                            Some(text) => Some(MessageContent::Text(text.to_string())),
                            None => None,
                        },
                        tool_call_id: None,
                        tool_calls: Some(Self::native_calls(&calls)),
                        reasoning_content: match value.get_str("reasoning_content") {
                            Some(text) => Some(text.to_string()),
                            None => None,
                        },
                    };
                }
            }
            if same_text(m.role.as_str(), "tool") {
                return NativeMessage {
                    role: "tool".to_string(),
                    content: match value.get_str("content") {
                        Some(text) => Some(MessageContent::Text(text.to_string())),
                        None => Some(MessageContent::Text(m.content.clone())),
                    },
                    tool_call_id: match value.get_str("tool_call_id") {
                        Some(text) => Some(text.to_string()),
                        None => None,
                    },
                    tool_calls: None,
                    reasoning_content: None,
                };
            }
        }
        NativeMessage {
            role: m.role.clone(),
            content: Some(Self::content_of(m)),
            tool_call_id: None,
            tool_calls: None,
            reasoning_content: None,
        }
    }

    /// Messages as they go over the wire, one for each, in order.
    pub fn convert_messages(messages: &[ChatMessage]) -> (native: Vec<NativeMessage>)
        ensures
            native.deep_view() == native_messages(messages.deep_view()),
    {
        let mut native: Vec<NativeMessage> = Vec::new();
        let mut at: usize = 0;
        while at < messages.len()
            invariant
                at <= messages.len(),
                native.len() == at,
                forall|i: int|
                    0 <= i < at ==> (#[trigger] native@[i]).deep_view() == native_message(
                        messages@[i].deep_view(),
                        document_of(messages@[i].content@),
                    ),
            decreases messages.len() - at,
        {
            let m = &messages[at];
            let role = m.role.as_str();
            let document = if same_text(role, "assistant") || same_text(role, "tool") {
                match Json::parse(m.content.as_str()) {
                    Ok(value) => Some(value),
                    Err(_) => None,
                }
            } else {
                None
            };
            native.push(Self::convert_message(m, &document));
            at = at + 1;
        }
        assert(native.deep_view() =~= native_messages(messages.deep_view()));
        native
    }
}

/// A conversation is converted message by message: as many come out as go in, and
/// what one becomes does not depend on the others.
pub proof fn law_converted_one_by_one(front: Seq<ChatMessageView>, back: Seq<ChatMessageView>)
    ensures
        native_messages(front).len() == front.len(),
        native_messages(front + back) == native_messages(front) + native_messages(back),
        history_messages(front).len() == front.len(),
        history_messages(front + back) == history_messages(front) + history_messages(back),
{
    assert(native_messages(front + back) =~= native_messages(front) + native_messages(back));
    assert(history_messages(front + back) =~= history_messages(front) + history_messages(back));
}

/// A stable prefix is of no account on a message of any role but `system`.
pub proof fn law_stable_prefix_only_for_system(
    message: ChatMessageView,
    stable_prefix: Option<Seq<char>>,
    document: Option<JsonView>,
)
    requires
        message.role != "system"@,
    ensures
        native_message(ChatMessageView { stable_prefix, ..message }, document) == native_message(
            message,
            document,
        ),
        history_message(ChatMessageView { stable_prefix, ..message }) == history_message(message),
{
}

/// A message that tells of no tool calls says the same with and without tools.
pub proof fn law_message_says_the_same(message: ChatMessageView, document: Option<JsonView>)
    requires
        document is None || message.role != "assistant"@ && message.role != "tool"@,
    ensures
        native_message(message, document) == (NativeMessageView {
            role: history_message(message).role,
            content: Some(history_message(message).content),
            tool_call_id: None,
            tool_calls: None,
            reasoning_content: None,
        }),
{
}

/// A system message says the same with and without tools.
pub proof fn law_system_says_the_same(message: ChatMessageView, document: Option<JsonView>)
    requires
        message.role == "system"@,
    ensures
        native_message(message, document).role == history_message(message).role,
        native_message(message, document).content == Some(history_message(message).content),
        history_message(message).content == system_content(message.stable_prefix, message.content),
{
    reveal_strlit("system");
    reveal_strlit("assistant");
    reveal_strlit("tool");
    assert("system"@.len() == 6 && "assistant"@.len() == 9 && "tool"@.len() == 4);
}

/// A tool call as the history of a conversation keeps it.
pub open spec fn call_record(call: ToolCallView) -> JsonView {
    JsonView::Object(
        Map::empty().insert("id"@, JsonView::String(call.id)).insert(
            "name"@,
            JsonView::String(call.name),
        ).insert("arguments"@, JsonView::String(call.arguments)),
    )
}

/// A model's answer as the history of a conversation keeps it.
pub open spec fn answer_record(
    text: Option<Seq<char>>,
    calls: Seq<ToolCallView>,
    reasoning: Option<Seq<char>>,
) -> JsonView {
    JsonView::Object(
        with_some(
            with_some(Map::empty(), "content"@, some_string(text)).insert(
                "tool_calls"@,
                JsonView::Array(calls.map_values(|call: ToolCallView| call_record(call))),
            ),
            "reasoning_content"@,
            some_string(reasoning),
        ),
    )
}

/// What the history keeps of a model's answer goes back to the model: its text, its
/// calls with their identifiers, and its thoughts.
pub proof fn law_recorded_answer_goes_back(
    message: ChatMessageView,
    text: Option<Seq<char>>,
    calls: Seq<ToolCallView>,
    reasoning: Option<Seq<char>>,
)
    requires
        message.role == "assistant"@,
        document_of(message.content) == Some(answer_record(text, calls, reasoning)),
    ensures
        native_messages(seq![message]) == seq![
            NativeMessageView {
                role: "assistant"@,
                content: some_text(text),
                tool_call_id: None,
                tool_calls: Some(calls.map_values(|call: ToolCallView| native_call(call))),
                reasoning_content: reasoning,
            },
        ],
{
    reveal_strlit("content");
    reveal_strlit("tool_calls");
    reveal_strlit("reasoning_content");
    reveal_strlit("id");
    reveal_strlit("name");
    reveal_strlit("arguments");
    assert("content"@.len() == 7 && "tool_calls"@.len() == 10 && "reasoning_content"@.len() == 17);
    assert("id"@.len() == 2 && "name"@.len() == 4 && "arguments"@.len() == 9);
    let document = answer_record(text, calls, reasoning);
    let records = calls.map_values(|call: ToolCallView| call_record(call));
    assert forall|i: int| 0 <= i < records.len() implies ProviderToolCall::decoded(
        #[trigger] records[i],
    ) == Some(calls[i]) by {
        let record = call_record(calls[i]);
        assert(record.field(0, "id"@) == Some(JsonView::String(calls[i].id)));
        assert(record.field(1, "name"@) == Some(JsonView::String(calls[i].name)));
        assert(record.field(2, "arguments"@) == Some(JsonView::String(calls[i].arguments)));
    }
    assert(decoded_items::<ProviderToolCall>(records) =~= calls);
    assert(document.member("tool_calls"@) == Some(JsonView::Array(records)));
    assert(recorded_calls(document) == Some(calls));
    assert(document.member_text("content"@) == text);
    assert(document.member_text("reasoning_content"@) == reasoning);
}

/// What a tool answered goes back to the model under the identifier of the call.
pub proof fn law_recorded_result_goes_back(message: ChatMessageView, document: JsonView)
    requires
        message.role == "tool"@,
        document_of(message.content) == Some(document),
    ensures
        native_messages(seq![message])[0].tool_call_id == document.member_text("tool_call_id"@),
        native_messages(seq![message])[0].content == Some(
            match document.member_text("content"@) {
                Some(text) => ContentView::Text(text),
                None => ContentView::Text(message.content),
            },
        ),
        native_messages(seq![message])[0].tool_calls is None,
{
    reveal_strlit("assistant");
    reveal_strlit("tool");
    assert("assistant"@.len() == 9 && "tool"@.len() == 4);
}

/// Whether a document tells of a call: an object with its identifier, its name and
/// its arguments as strings, or an array of the three.
pub open spec fn tells_of_call(document: JsonView, call: ToolCallView) -> bool {
    ||| has_string(document, "id"@, call.id) && has_string(document, "name"@, call.name)
        && has_string(document, "arguments"@, call.arguments)
    ||| document == JsonView::Array(
        seq![
            JsonView::String(call.id),
            JsonView::String(call.name),
            JsonView::String(call.arguments),
        ],
    )
}

proof fn lemma_tells_of_call(document: JsonView, call: ToolCallView)
    ensures
        ProviderToolCall::decoded(document) == Some(call) <==> tells_of_call(document, call),
{
    if let JsonView::Array(items) = document {
        let three = seq![
            JsonView::String(call.id),
            JsonView::String(call.name),
            JsonView::String(call.arguments),
        ];
        if ProviderToolCall::decoded(document) == Some(call) {
            assert(items =~= three);
        }
        if items == three {
            assert(items.len() == 3);
            assert(items[0] == three[0] && items[1] == three[1] && items[2] == three[2]);
        }
    }
}

/// Whether a document is an object whose member `tool_calls` tells of some calls, one
/// item for each, in order.
pub open spec fn tells_of_calls(document: JsonView, calls: Seq<ToolCallView>) -> bool {
    document matches JsonView::Object(map) && map.dom().contains("tool_calls"@) && (
    map["tool_calls"@] matches JsonView::Array(records) && records.len() == calls.len()
        && forall|i: int|
        0 <= i < calls.len() ==> tells_of_call(#[trigger] records[i], calls[i]))
}

proof fn lemma_tells_of_calls(document: JsonView, calls: Seq<ToolCallView>)
    ensures
        recorded_calls(document) == Some(calls) <==> tells_of_calls(document, calls),
{
    if let Some(JsonView::Array(records)) = document.member("tool_calls"@) {
        if tells_of_calls(document, calls) {
            assert forall|i: int| 0 <= i < records.len() implies ProviderToolCall::decoded(
                #[trigger] records[i],
            ) == Some(calls[i]) by {
                lemma_tells_of_call(records[i], calls[i]);
            }
            assert(decoded_items::<ProviderToolCall>(records) =~= calls);
        }
        if recorded_calls(document) == Some(calls) {
            assert forall|i: int| 0 <= i < calls.len() implies tells_of_call(
                #[trigger] records[i],
                calls[i],
            ) by {
                assert(decoded_items::<ProviderToolCall>(records)[i] == calls[i]);
                lemma_tells_of_call(records[i], calls[i]);
            }
        }
    }
}

/// The model's message whose document tells of calls asks for the same calls again:
/// each has its identifier, is of type `function`, and keeps its name and its
/// arguments letter for letter. What the model said and thought stands beside them
/// where the document has it as a string.
pub proof fn law_recorded_calls_are_kept(
    message: ChatMessageView,
    document: JsonView,
    calls: Seq<ToolCallView>,
)
    requires
        message.role == "assistant"@,
        tells_of_calls(document, calls),
    ensures
        ({
            let native = native_message(message, Some(document));
            &&& native.role == "assistant"@
            &&& native.tool_call_id is None
            &&& native.tool_calls is Some
            &&& native.tool_calls->0.len() == calls.len()
            &&& forall|i: int|
                0 <= i < calls.len() ==> {
                    let call = #[trigger] native.tool_calls->0[i];
                    &&& call.id == Some(calls[i].id)
                    &&& call.kind == Some("function"@)
                    &&& call.function.name == calls[i].name
                    &&& call.function.arguments == calls[i].arguments
                }
            &&& forall|text: Seq<char>|
                native.content == Some(ContentView::Text(text)) <==> #[trigger] has_string(
                    document,
                    "content"@,
                    text,
                )
            &&& native.content matches Some(said) ==> said is Text
            &&& forall|text: Seq<char>|
                native.reasoning_content == Some(text) <==> #[trigger] has_string(
                    document,
                    "reasoning_content"@,
                    text,
                )
        }),
{
    lemma_tells_of_calls(document, calls);
    assert forall|text: Seq<char>|
        native_message(message, Some(document)).content == Some(ContentView::Text(text))
            <==> #[trigger] has_string(document, "content"@, text) by {
        law_texts_are_found(document, "content"@, text);
    }
    assert forall|text: Seq<char>|
        native_message(message, Some(document)).reasoning_content == Some(text)
            <==> #[trigger] has_string(document, "reasoning_content"@, text) by {
        law_texts_are_found(document, "reasoning_content"@, text);
    }
}

/// The model's message whose content is no document, or one that tells of no list of
/// calls, is passed on as it is.
pub proof fn law_answer_without_calls_is_kept(message: ChatMessageView, document: Option<JsonView>)
    requires
        message.role == "assistant"@,
        document matches Some(document) ==> forall|calls: Seq<ToolCallView>|
            !#[trigger] tells_of_calls(document, calls),
    ensures
        native_message(message, document) == (NativeMessageView {
            role: "assistant"@,
            content: Some(ContentView::Text(message.content)),
            tool_call_id: None,
            tool_calls: None,
            reasoning_content: None,
        }),
{
    reveal_strlit("assistant");
    reveal_strlit("tool");
    reveal_strlit("user");
    reveal_strlit("system");
    assert("assistant"@.len() == 9 && "tool"@.len() == 4);
    assert("user"@.len() == 4 && "system"@.len() == 6);
    if document is Some && recorded_calls(document->0) is Some {
        lemma_tells_of_calls(document->0, recorded_calls(document->0)->0);
    }
}

/// A tool's message names the call that it answers where its document does, and says
/// what the document has as its content; where that is no string, and where there is
/// no document, it says its content as it is.
pub proof fn law_tool_result_is_kept(message: ChatMessageView, document: JsonView)
    requires
        message.role == "tool"@,
    ensures
        ({
            let native = native_message(message, Some(document));
            &&& native.role == "tool"@
            &&& native.tool_calls is None
            &&& native.reasoning_content is None
            &&& forall|id: Seq<char>|
                native.tool_call_id == Some(id) <==> #[trigger] has_string(
                    document,
                    "tool_call_id"@,
                    id,
                )
            &&& forall|text: Seq<char>| #[trigger]
                has_string(document, "content"@, text) ==> native.content == Some(
                    ContentView::Text(text),
                )
            &&& (forall|text: Seq<char>| !#[trigger] has_string(document, "content"@, text))
                ==> native.content == Some(ContentView::Text(message.content))
        }),
        native_message(message, None) == (NativeMessageView {
            role: "tool"@,
            content: Some(ContentView::Text(message.content)),
            tool_call_id: None,
            tool_calls: None,
            reasoning_content: None,
        }),
{
    reveal_strlit("assistant");
    reveal_strlit("tool");
    reveal_strlit("user");
    reveal_strlit("system");
    assert("assistant"@.len() == 9 && "tool"@.len() == 4 && "system"@.len() == 6);
    assert("tool"@[0] == 't' && "user"@[0] == 'u');
    let native = native_message(message, Some(document));
    assert forall|id: Seq<char>|
        native.tool_call_id == Some(id) <==> #[trigger] has_string(
            document,
            "tool_call_id"@,
            id,
        ) by {
        law_texts_are_found(document, "tool_call_id"@, id);
    }
    assert forall|text: Seq<char>| #[trigger]
        has_string(document, "content"@, text) implies native.content == Some(
        ContentView::Text(text),
    ) by {
        law_texts_are_found(document, "content"@, text);
    }
    if document.member_text("content"@) is Some {
        law_texts_are_found(document, "content"@, document.member_text("content"@)->0);
    }
}

/// Any other message keeps its role and says what it says, whatever document its
/// content is the text of.
pub proof fn law_other_messages_are_kept(message: ChatMessageView, document: Option<JsonView>)
    requires
        message.role != "assistant"@,
        message.role != "tool"@,
    ensures
        native_message(message, document) == (NativeMessageView {
            role: message.role,
            content: Some(message_content(message)),
            tool_call_id: None,
            tool_calls: None,
            reasoning_content: None,
        }),
{
}

/// Each message of a conversation stands in its place: with tools, as the document
/// that its content is the text of has it; without, under its role and with what it
/// says.
pub proof fn law_messages_keep_their_places(messages: Seq<ChatMessageView>, at: int)
    requires
        0 <= at < messages.len(),
    ensures
        native_messages(messages).len() == messages.len(),
        parsed_text(messages[at].content) matches Ok(document) ==> native_messages(messages)[at]
            == native_message(messages[at], Some(document)),
        parsed_text(messages[at].content) is Err ==> native_messages(messages)[at]
            == native_message(messages[at], None),
        history_messages(messages).len() == messages.len(),
        history_messages(messages)[at].role == messages[at].role,
        history_messages(messages)[at].content == message_content(messages[at]),
{
}

} // verus!
