//! What viewers of telemetry show of a call of the model: the messages that went
//! in, the tools that were offered, and what came out, as JSON.
use crate::codec::{some_string, with_some, Members};
use crate::json::{documents, has_string, parsed_text, rendered_text, Json, JsonView};
use crate::observability::traits::{MessageSnapshot, ToolCallSnapshot, ToolSpecSnapshot};
use crate::text::same_text;
use vstd::prelude::*;

verus! {

/// A message, as viewers take it.
pub open spec fn message_document(message: MessageSnapshot) -> JsonView {
    JsonView::Object(
        Map::empty().insert("role"@, JsonView::String(message.role@)).insert(
            "content"@,
            JsonView::String(message.content@),
        ),
    )
}

/// The messages that were sent, in order. The system message is left out: it is
/// shown as the system's instructions.
pub open spec fn shown_messages(messages: Seq<MessageSnapshot>) -> Seq<JsonView> {
    messages.filter(|message: MessageSnapshot| message.role@ != "system"@).map_values(
        |message: MessageSnapshot| message_document(message),
    )
}

/// The document that a text is, or null where it is none.
pub open spec fn parsed_or_null(text: Seq<char>) -> JsonView {
    match parsed_text(text) {
        Ok(document) => document,
        Err(_) => JsonView::Null,
    }
}

/// The definition of a tool, as viewers take it, with the document of its
/// parameters inside.
pub open spec fn tool_document(tool: ToolSpecSnapshot, parameters: JsonView) -> JsonView {
    JsonView::Object(
        Map::empty().insert("name"@, JsonView::String(tool.name@)).insert(
            "description"@,
            JsonView::String(tool.description@),
        ).insert("parameters"@, parameters),
    )
}

/// The definitions of tools, in order.
pub open spec fn shown_tools(tools: Seq<ToolSpecSnapshot>) -> Seq<JsonView> {
    tools.map_values(
        |tool: ToolSpecSnapshot| tool_document(tool, parsed_or_null(tool.parameters_json@)),
    )
}

/// A tool call, as viewers take it, with the document of its arguments inside.
pub open spec fn call_document(call: ToolCallSnapshot, arguments: JsonView) -> JsonView {
    JsonView::Object(
        Map::empty().insert("id"@, JsonView::String(call.id@)).insert(
            "name"@,
            JsonView::String(call.name@),
        ).insert("arguments"@, arguments),
    )
}

/// Tool calls, in order.
pub open spec fn shown_calls(calls: Seq<ToolCallSnapshot>) -> Seq<JsonView> {
    calls.map_values(
        |call: ToolCallSnapshot| call_document(call, parsed_or_null(call.arguments_json@)),
    )
}

/// What the model answered, as viewers take it: what it said, unless it said
/// nothing, and the tools that it called, unless it called none.
pub open spec fn answer_document(text: Option<Seq<char>>, calls: Seq<JsonView>) -> JsonView {
    JsonView::Object(
        with_some(
            with_some(
                Map::empty().insert("role"@, JsonView::String("assistant"@)),
                "content"@,
                if text is Some && text->0.len() > 0 {
                    some_string(text)
                } else {
                    None
                },
            ),
            "tool_calls"@,
            if calls.len() > 0 {
                Some(JsonView::Array(calls))
            } else {
                None
            },
        ),
    )
}

/// The documents of a call of the model, as texts.
pub struct LlmTexts {
    pub input_messages: Option<String>,
    pub tool_definitions: Option<String>,
    pub output_messages: String,
}

pub struct LlmTextsView {
    pub input_messages: Option<Seq<char>>,
    pub tool_definitions: Option<Seq<char>>,
    pub output_messages: Seq<char>,
}

impl DeepView for LlmTexts {
    type V = LlmTextsView;

    open spec fn deep_view(&self) -> LlmTextsView {
        LlmTextsView {
            input_messages: self.input_messages.deep_view(),
            tool_definitions: self.tool_definitions.deep_view(),
            output_messages: self.output_messages@,
        }
    }
}

/// The text of an array, or none where it is empty.
pub open spec fn some_array_text(items: Seq<JsonView>) -> Option<Seq<char>> {
    if items.len() > 0 {
        Some(rendered_text(JsonView::Array(items)))
    } else {
        None
    }
}

/// The documents of a call of the model, as texts.
pub open spec fn llm_texts(
    input_messages: Seq<MessageSnapshot>,
    tool_definitions: Seq<ToolSpecSnapshot>,
    output_text: Option<Seq<char>>,
    output_tool_calls: Seq<ToolCallSnapshot>,
) -> LlmTextsView {
    LlmTextsView {
        input_messages: some_array_text(shown_messages(input_messages)),
        tool_definitions: some_array_text(shown_tools(tool_definitions)),
        output_messages: rendered_text(
            JsonView::Array(seq![answer_document(output_text, shown_calls(output_tool_calls))]),
        ),
    }
}

/// Writes a message as viewers take it.
pub fn to_message_document(message: &MessageSnapshot) -> (document: Json)
    ensures
        document@ == message_document(*message),
{
    let mut members = Members::new();
    members.put_str("role", message.role.as_str());
    members.put_str("content", message.content.as_str());
    members.into_object()
}

proof fn lemma_shown_messages_push(messages: Seq<MessageSnapshot>, message: MessageSnapshot)
    ensures
        shown_messages(messages.push(message)) == if message.role@ != "system"@ {
            shown_messages(messages).push(message_document(message))
        } else {
            shown_messages(messages)
        },
{
    messages.lemma_filter_push(message, |message: MessageSnapshot| message.role@ != "system"@);
    if message.role@ != "system"@ {
        assert(shown_messages(messages.push(message)) =~= shown_messages(messages).push(
            message_document(message),
        ));
    }
}

/// The messages that were sent, in order, without the system message.
pub fn to_shown_messages(messages: &Vec<MessageSnapshot>) -> (list: Vec<Json>)
    ensures
        documents(list@) == shown_messages(messages@),
{
    let mut list: Vec<Json> = Vec::new();
    let mut at: usize = 0;
    proof {
        reveal(Seq::filter);
        assert(documents(list@) =~= shown_messages(messages@.take(0)));
    }
    while at < messages.len()
        invariant
            at <= messages.len(),
            documents(list@) == shown_messages(messages@.take(at as int)),
        decreases messages.len() - at,
    {
        proof {
            lemma_shown_messages_push(messages@.take(at as int), messages@[at as int]);
            assert(messages@.take(at as int).push(messages@[at as int]) =~= messages@.take(at + 1));
        }
        if !same_text(messages[at].role.as_str(), "system") {
            let ghost before = documents(list@);
            list.push(to_message_document(&messages[at]));
            assert(documents(list@) =~= before.push(message_document(messages@[at as int])));
        }
        at = at + 1;
    }
    assert(messages@.take(at as int) =~= messages@);
    list
}

fn parse_or_null(text: &str) -> (document: Json)
    ensures
        document@ == parsed_or_null(text@),
{
    match Json::parse(text) {
        Ok(document) => document,
        Err(_) => Json::Null,
    }
}

/// Writes the definition of a tool as viewers take it; `parameters` is the document
/// of its parameters.
pub fn to_tool_document(tool: &ToolSpecSnapshot, parameters: Json) -> (document: Json)
    ensures
        document@ == tool_document(*tool, parameters@),
{
    let mut members = Members::new();
    members.put_str("name", tool.name.as_str());
    members.put_str("description", tool.description.as_str());
    members.put("parameters", parameters);
    members.into_object()
}

/// The definitions of tools, in order.
pub fn to_shown_tools(tools: &Vec<ToolSpecSnapshot>) -> (list: Vec<Json>)
    ensures
        documents(list@) == shown_tools(tools@),
{
    let mut list: Vec<Json> = Vec::new();
    let mut at: usize = 0;
    while at < tools.len()
        invariant
            at <= tools.len(),
            list.len() == at,
            forall|i: int|
                0 <= i < at ==> (#[trigger] list@[i])@ == tool_document(
                    tools@[i],
                    parsed_or_null(tools@[i].parameters_json@),
                ),
        decreases tools.len() - at,
    {
        let parameters = parse_or_null(tools[at].parameters_json.as_str());
        list.push(to_tool_document(&tools[at], parameters));
        at = at + 1;
    }
    assert(documents(list@) =~= shown_tools(tools@));
    list
}

/// Writes a tool call as viewers take it; `arguments` is the document of its
/// arguments.
pub fn to_call_document(call: &ToolCallSnapshot, arguments: Json) -> (document: Json)
    ensures
        document@ == call_document(*call, arguments@),
{
    let mut members = Members::new();
    members.put_str("id", call.id.as_str());
    members.put_str("name", call.name.as_str());
    members.put("arguments", arguments);
    members.into_object()
}

/// Tool calls, in order.
pub fn to_shown_calls(calls: &Vec<ToolCallSnapshot>) -> (list: Vec<Json>)
    ensures
        documents(list@) == shown_calls(calls@),
{
    let mut list: Vec<Json> = Vec::new();
    let mut at: usize = 0;
    while at < calls.len()
        invariant
            at <= calls.len(),
            list.len() == at,
            forall|i: int|
                0 <= i < at ==> (#[trigger] list@[i])@ == call_document(
                    calls@[i],
                    parsed_or_null(calls@[i].arguments_json@),
                ),
        decreases calls.len() - at,
    {
        let arguments = parse_or_null(calls[at].arguments_json.as_str());
        list.push(to_call_document(&calls[at], arguments));
        at = at + 1;
    }
    assert(documents(list@) =~= shown_calls(calls@));
    list
}

/// Writes what the model answered as viewers take it; `calls` are the documents of
/// the tool calls.
pub fn to_answer_document(text: &Option<String>, calls: Vec<Json>) -> (document: Json)
    ensures
        document@ == answer_document(text.deep_view(), documents(calls@)),
{
    let mut members = Members::new();
    members.put_str("role", "assistant");
    if let Some(text) = text {
        if !text.as_str().is_empty() {
            members.put_str("content", text.as_str());
        }
    }
    if !calls.is_empty() {
        members.put("tool_calls", Json::array(calls));
    }
    members.into_object()
}

fn to_some_array_text(items: Vec<Json>) -> (text: Option<String>)
    ensures
        text.deep_view() == some_array_text(documents(items@)),
{
    if items.is_empty() {
        None
    } else {
        Some(Json::array(items).render())
    }
}

/// The documents of a call of the model, as texts.
pub fn to_llm_texts(
    input_messages: &Vec<MessageSnapshot>,
    tool_definitions: &Vec<ToolSpecSnapshot>,
    output_text: &Option<String>,
    output_tool_calls: &Vec<ToolCallSnapshot>,
) -> (texts: LlmTexts)
    ensures
        texts.deep_view() == llm_texts(
            input_messages@,
            tool_definitions@,
            output_text.deep_view(),
            output_tool_calls@,
        ),
{
    let mut answers: Vec<Json> = Vec::new();
    answers.push(to_answer_document(output_text, to_shown_calls(output_tool_calls)));
    assert(documents(answers@) =~= seq![
        answer_document(output_text.deep_view(), shown_calls(output_tool_calls@)),
    ]);
    LlmTexts {
        input_messages: to_some_array_text(to_shown_messages(input_messages)),
        tool_definitions: to_some_array_text(to_shown_tools(tool_definitions)),
        output_messages: Json::array(answers).render(),
    }
}

/// No message of the system is shown among those that were sent, and where there is
/// none of it they are all shown.
pub proof fn law_system_message_is_not_shown(messages: Seq<MessageSnapshot>)
    ensures
        forall|i: int|
            0 <= i < shown_messages(messages).len() ==> (
            #[trigger] shown_messages(messages)[i]).member_text("role"@) != Some("system"@),
        (forall|i: int| 0 <= i < messages.len() ==> (#[trigger] messages[i]).role@ != "system"@)
            ==> shown_messages(messages) == messages.map_values(
            |message: MessageSnapshot| message_document(message),
        ),
    decreases messages.len(),
{
    reveal_strlit("role");
    reveal_strlit("content");
    assert("role"@.len() != "content"@.len());
    let all = messages.map_values(|message: MessageSnapshot| message_document(message));
    if messages.len() > 0 {
        let front = messages.drop_last();
        law_system_message_is_not_shown(front);
        lemma_shown_messages_push(front, messages.last());
        assert(front.push(messages.last()) =~= messages);
        if forall|i: int| 0 <= i < messages.len() ==> (#[trigger] messages[i]).role@ != "system"@ {
            assert(messages[messages.len() - 1].role@ != "system"@);
            assert forall|i: int| 0 <= i < front.len() implies (#[trigger] front[i]).role@
                != "system"@ by {
                assert(front[i] == messages[i]);
            }
            assert(shown_messages(messages) =~= all);
        }
    } else {
        reveal(Seq::filter);
        assert(shown_messages(messages) =~= all);
    }
}

/// Messages are shown in the order in which they were sent.
pub proof fn law_messages_shown_in_order(front: Seq<MessageSnapshot>, back: Seq<MessageSnapshot>)
    ensures
        shown_messages(front + back) == shown_messages(front) + shown_messages(back),
    decreases back.len(),
{
    if back.len() > 0 {
        law_messages_shown_in_order(front, back.drop_last());
        lemma_shown_messages_push(front + back.drop_last(), back.last());
        lemma_shown_messages_push(back.drop_last(), back.last());
        assert((front + back.drop_last()).push(back.last()) =~= front + back);
        assert(back.drop_last().push(back.last()) =~= back);
        assert(shown_messages(front + back) =~= shown_messages(front) + shown_messages(back));
    } else {
        reveal(Seq::filter);
        assert(front + back =~= front);
        assert(shown_messages(front + back) =~= shown_messages(front) + shown_messages(back));
    }
}

/// The parameters of a tool are shown as the document that they are, not as its
/// text, and as null where the text is none.
pub proof fn law_parameters_are_nested(tool: ToolSpecSnapshot, parameters: JsonView)
    ensures
        parsed_text(tool.parameters_json@) == Ok::<JsonView, Seq<char>>(parameters) ==> shown_tools(
            seq![tool],
        )[0].member("parameters"@) == Some(parameters),
        parsed_text(tool.parameters_json@) is Err ==> shown_tools(seq![tool])[0].member(
            "parameters"@,
        ) == Some(JsonView::Null),
{
}

/// An answer shows what the model said if and only if it said something, and the
/// tools that it called if and only if it called some.
pub proof fn law_answer_shows_what_there_is(text: Option<Seq<char>>, calls: Seq<JsonView>)
    ensures
        ({
            let answer = answer_document(text, calls);
            &&& answer.member_text("role"@) == Some("assistant"@)
            &&& answer.member("content"@) == if text is Some && text->0.len() > 0 {
                some_string(text)
            } else {
                None
            }
            &&& answer.member("tool_calls"@) == if calls.len() > 0 {
                Some(JsonView::Array(calls))
            } else {
                None
            }
        }),
{
    reveal_strlit("role");
    reveal_strlit("content");
    reveal_strlit("tool_calls");
    assert("role"@.len() == 4 && "content"@.len() == 7 && "tool_calls"@.len() == 10);
}

/// A message is shown by its role and its content, as they are, and by nothing else;
/// the system's is not shown.
pub proof fn law_shown_message_is_whole(message: MessageSnapshot)
    ensures
        ({
            let shown = shown_messages(seq![message]);
            if message.role@ == "system"@ {
                shown.len() == 0
            } else {
                &&& shown.len() == 1
                &&& shown[0] is Object
                &&& shown[0]->Object_0.dom() == set!["role"@, "content"@]
                &&& has_string(shown[0], "role"@, message.role@)
                &&& has_string(shown[0], "content"@, message.content@)
                &&& shown[0] == message_document(message)
            }
        }),
{
    reveal_strlit("role");
    reveal_strlit("content");
    assert("role"@.len() == 4 && "content"@.len() == 7);
    lemma_shown_messages_push(Seq::empty(), message);
    reveal(Seq::filter);
    assert(Seq::<MessageSnapshot>::empty().push(message) =~= seq![message]);
    assert(shown_messages(Seq::empty()).len() == 0);
    assert(message_document(message)->Object_0.dom() =~= set!["role"@, "content"@]);
}

/// A tool is shown by its name, its description and the document of its parameters,
/// as they are, and by nothing else.
pub proof fn law_shown_tool_is_whole(tool: ToolSpecSnapshot, parameters: JsonView)
    ensures
        ({
            let shown = tool_document(tool, parameters);
            &&& shown is Object
            &&& shown->Object_0.dom() == set!["name"@, "description"@, "parameters"@]
            &&& has_string(shown, "name"@, tool.name@)
            &&& has_string(shown, "description"@, tool.description@)
            &&& shown->Object_0["parameters"@] == parameters
        }),
{
    reveal_strlit("name");
    reveal_strlit("description");
    reveal_strlit("parameters");
    assert("name"@.len() == 4 && "description"@.len() == 11 && "parameters"@.len() == 10);
    assert(tool_document(tool, parameters)->Object_0.dom() =~= set![
        "name"@,
        "description"@,
        "parameters"@,
    ]);
}

/// A tool call is shown by its identifier, its name and the document of its
/// arguments, as they are, and by nothing else.
pub proof fn law_shown_call_is_whole(call: ToolCallSnapshot, arguments: JsonView)
    ensures
        ({
            let shown = call_document(call, arguments);
            &&& shown is Object
            &&& shown->Object_0.dom() == set!["id"@, "name"@, "arguments"@]
            &&& has_string(shown, "id"@, call.id@)
            &&& has_string(shown, "name"@, call.name@)
            &&& shown->Object_0["arguments"@] == arguments
        }),
{
    reveal_strlit("id");
    reveal_strlit("name");
    reveal_strlit("arguments");
    assert("id"@.len() == 2 && "name"@.len() == 4 && "arguments"@.len() == 9);
    assert(call_document(call, arguments)->Object_0.dom() =~= set!["id"@, "name"@, "arguments"@]);
}

/// Tools and tool calls are shown one for each, in order, with the documents that
/// their texts are inside; what is no document is shown as null.
pub proof fn law_tools_and_calls_keep_their_places(
    tools: Seq<ToolSpecSnapshot>,
    calls: Seq<ToolCallSnapshot>,
)
    ensures
        shown_tools(tools).len() == tools.len(),
        forall|i: int|
            0 <= i < tools.len() ==> #[trigger] shown_tools(tools)[i] == tool_document(
                tools[i],
                match parsed_text(tools[i].parameters_json@) {
                    Ok(document) => document,
                    Err(_) => JsonView::Null,
                },
            ),
        shown_calls(calls).len() == calls.len(),
        forall|i: int|
            0 <= i < calls.len() ==> #[trigger] shown_calls(calls)[i] == call_document(
                calls[i],
                match parsed_text(calls[i].arguments_json@) {
                    Ok(document) => document,
                    Err(_) => JsonView::Null,
                },
            ),
{
}

/// An answer is the assistant's. It says what the model said, as it is, unless that is
/// empty or there is none; it lists the calls, unless there are none; and it says
/// nothing else.
pub proof fn law_shown_answer_is_whole(text: Option<Seq<char>>, calls: Seq<JsonView>)
    ensures
        ({
            let shown = answer_document(text, calls);
            let members = shown->Object_0;
            &&& shown is Object
            &&& has_string(shown, "role"@, "assistant"@)
            &&& forall|said: Seq<char>| #[trigger]
                has_string(shown, "content"@, said) <==> text == Some(said) && said.len() > 0
            &&& text matches Some(said) ==> (said.len() > 0 <==> members.dom().contains("content"@))
            &&& text is None ==> !members.dom().contains("content"@)
            &&& calls.len() > 0 <==> members.dom().contains("tool_calls"@)
            &&& calls.len() > 0 ==> members["tool_calls"@] == JsonView::Array(calls)
            &&& forall|name: Seq<char>| #[trigger]
                members.dom().contains(name) ==> name == "role"@ || name == "content"@ || name
                    == "tool_calls"@
        }),
{
    reveal_strlit("role");
    reveal_strlit("content");
    reveal_strlit("tool_calls");
    assert("role"@.len() == 4 && "content"@.len() == 7 && "tool_calls"@.len() == 10);
}

/// The texts of a call of the model are those of the messages, of the tools and of the
/// one answer, each as an array; there is none of messages or tools where there is
/// nothing to show.
pub proof fn law_texts_show_what_there_is(
    input_messages: Seq<MessageSnapshot>,
    tool_definitions: Seq<ToolSpecSnapshot>,
    output_text: Option<Seq<char>>,
    output_tool_calls: Seq<ToolCallSnapshot>,
)
    ensures
        ({
            let texts = llm_texts(
                input_messages,
                tool_definitions,
                output_text,
                output_tool_calls,
            );
            let messages = shown_messages(input_messages);
            let tools = shown_tools(tool_definitions);
            let answer = answer_document(output_text, shown_calls(output_tool_calls));
            &&& messages.len() == 0 ==> texts.input_messages is None
            &&& messages.len() > 0 ==> texts.input_messages == Some(
                rendered_text(JsonView::Array(messages)),
            )
            &&& tool_definitions.len() == 0 ==> texts.tool_definitions is None
            &&& tool_definitions.len() > 0 ==> texts.tool_definitions == Some(
                rendered_text(JsonView::Array(tools)),
            )
            &&& texts.output_messages == rendered_text(JsonView::Array(seq![answer]))
        }),
{
}

/// Texts are seen as they are.
pub proof fn law_texts_are_seen_whole(texts: LlmTexts)
    ensures
        texts.deep_view().input_messages is Some <==> texts.input_messages is Some,
        texts.input_messages matches Some(text) ==> texts.deep_view().input_messages == Some(text@),
        texts.deep_view().tool_definitions is Some <==> texts.tool_definitions is Some,
        texts.tool_definitions matches Some(text) ==> texts.deep_view().tool_definitions == Some(
            text@,
        ),
        texts.deep_view().output_messages == texts.output_messages@,
{
}

} // verus!
