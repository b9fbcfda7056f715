//! The calls of the API.
use crate::json::{documents, Json, JsonView};
use crate::providers::openrouter::OpenRouterProvider;
use crate::providers::openrouter::content::{message_content, other_content};
use crate::providers::openrouter::messages::{history_message, history_messages, native_messages};
use crate::providers::openrouter::payload::outcome;
use crate::providers::openrouter::tool_specs::{offered_tools, some_if_any, tools_from_values};
use crate::providers::traits::{ChatMessage, ChatMessageView, ChatRequest as ProviderChatRequest};
use crate::providers::wire::{
    ChatRequest, ChatRequestView, ContentView, Message, MessageContent, MessageView,
    NativeChatRequest, NativeChatRequestView, NativeToolSpec, NativeToolSpecView,
};
use vstd::prelude::*;

verus! {

/// Where questions go.
pub const CHAT_URL: &'static str = "https://openrouter.ai/api/v1/chat/completions";

/// Where a key can be looked up. The answer is of no interest: asking opens the
/// connection, so that the first question need not wait for it.
pub const KEY_URL: &'static str = "https://openrouter.ai/api/v1/auth/key";

/// What is said where there is no key.
pub const KEY_NOT_SET: &'static str =
    "OpenRouter API key not set. Run `zeroclaw onboard` or set OPENROUTER_API_KEY env var.";

/// How a call is made.
#[derive(Debug, Clone, Copy, PartialEq, Eq, Structural)]
pub enum Method {
    Get,
    Post,
}

/// A call of the API: what goes where, and the headers that go with it.
#[derive(Debug)]
pub struct ApiCall<B> {
    pub method: Method,
    pub url: String,
    pub headers: Vec<(String, String)>,
    pub body: B,
}

pub struct ApiCallView<V> {
    pub method: Method,
    pub url: Seq<char>,
    pub headers: Seq<(Seq<char>, Seq<char>)>,
    pub body: V,
}

impl<B: DeepView> DeepView for ApiCall<B> {
    type V = ApiCallView<B::V>;

    open spec fn deep_view(&self) -> ApiCallView<B::V> {
        ApiCallView {
            method: self.method,
            url: self.url@,
            headers: self.headers.deep_view(),
            body: self.body.deep_view(),
        }
    }
}

/// The header that shows a key.
pub open spec fn authorization(credential: Seq<char>) -> (Seq<char>, Seq<char>) {
    ("Authorization"@, "Bearer "@ + credential)
}

/// The call that asks a question.
pub open spec fn chat_call<V>(credential: Seq<char>, body: V) -> ApiCallView<V> {
    ApiCallView {
        method: Method::Post,
        url: CHAT_URL@,
        headers: seq![
            authorization(credential),
            ("HTTP-Referer"@, "https://github.com/zeroclaw-labs/zeroclaw"@),
            ("X-Title"@, "ZeroClaw"@),
        ],
        body,
    }
}

/// The call that asks a question, or the message that there is no key to ask it
/// with.
pub open spec fn chat_call_or_error<V>(credential: Option<Seq<char>>, body: V) -> Result<
    ApiCallView<V>,
    Seq<char>,
> {
    match credential {
        Some(key) => Ok(chat_call(key, body)),
        None => Err(KEY_NOT_SET@),
    }
}

/// The call that opens the connection.
pub open spec fn warmup_call(credential: Seq<char>) -> ApiCallView<()> {
    ApiCallView {
        method: Method::Get,
        url: KEY_URL@,
        headers: seq![authorization(credential)],
        body: (),
    }
}

/// The messages of a question without a history.
pub open spec fn question(
    system_prompt: Option<Seq<char>>,
    message: Seq<char>,
) -> Seq<MessageView> {
    let user = MessageView { role: "user"@, content: other_content("user"@, message) };
    match system_prompt {
        Some(prompt) => seq![
            MessageView { role: "system"@, content: ContentView::Text(prompt) },
            user,
        ],
        None => seq![user],
    }
}

/// A request with tools. Where there are any, the model chooses among them.
pub open spec fn native_request(
    messages: Seq<ChatMessageView>,
    tools: Option<Seq<NativeToolSpecView>>,
    model: Seq<char>,
    temperature: JsonView,
    max_tokens: Option<u32>,
) -> NativeChatRequestView {
    NativeChatRequestView {
        model,
        messages: native_messages(messages),
        temperature,
        tools,
        tool_choice: match tools {
            Some(_) => Some("auto"@),
            None => None,
        },
        max_tokens,
    }
}

impl OpenRouterProvider {
    fn authorization(credential: &str) -> (header: (String, String))
        ensures
            header.deep_view() == authorization(credential@),
    {
        let mut bearer = "Bearer ".to_string();
        bearer.append(credential);
        ("Authorization".to_string(), bearer)
    }

    fn chat_call<B: DeepView>(&self, body: B) -> (call: Result<ApiCall<B>, String>)
        ensures
            outcome(call) == chat_call_or_error(self.credential.deep_view(), body.deep_view()),
    {
        match &self.credential {
            Some(credential) => {
                let mut headers: Vec<(String, String)> = Vec::new();
                headers.push(Self::authorization(credential.as_str()));
                headers.push(
                    (
                        "HTTP-Referer".to_string(),
                        "https://github.com/zeroclaw-labs/zeroclaw".to_string(),
                    ),
                );
                headers.push(("X-Title".to_string(), "ZeroClaw".to_string()));
                let call = ApiCall {
                    method: Method::Post,
                    url: CHAT_URL.to_string(),
                    headers,
                    body,
                };
                assert(call.deep_view().headers =~= chat_call(
                    credential@,
                    body.deep_view(),
                ).headers);
                Ok(call)
            },
            None => Err(KEY_NOT_SET.to_string()),
        }
    }

    /// The call that opens the connection ahead of the first question; none where
    /// there is no key.
    pub fn warmup(&self) -> (call: Option<ApiCall<()>>)
        ensures
            call.deep_view() == match self.credential.deep_view() {
                Some(key) => Some(warmup_call(key)),
                None => None,
            },
    {
        match &self.credential {
            Some(credential) => {
                let mut headers: Vec<(String, String)> = Vec::new();
                headers.push(Self::authorization(credential.as_str()));
                let call = ApiCall {
                    method: Method::Get,
                    url: KEY_URL.to_string(),
                    headers,
                    body: (),
                };
                assert(call.deep_view().headers =~= warmup_call(credential@).headers);
                Some(call)
            },
            None => None,
        }
    }

    /// The call that asks one question, with a system prompt where there is one.
    pub fn chat_with_system(
        &self,
        system_prompt: Option<&str>,
        message: &str,
        model: &str,
        temperature: &Json,
    ) -> (call: Result<ApiCall<ChatRequest>, String>)
        ensures
            outcome(call) == chat_call_or_error(
                self.credential.deep_view(),
                ChatRequestView {
                    model: model@,
                    messages: question(system_prompt.deep_view(), message@),
                    temperature: temperature@,
                    max_tokens: self.max_tokens,
                },
            ),
    {
        proof {
            reveal_strlit("user");
            reveal_strlit("system");
            assert("user"@.len() < "system"@.len());
        }
        let mut messages: Vec<Message> = Vec::new();
        if let Some(prompt) = system_prompt {
            messages.push(
                Message {
                    role: "system".to_string(),
                    content: MessageContent::Text(prompt.to_string()),
                },
            );
        }
        messages.push(
            Message {
                role: "user".to_string(),
                content: Self::to_message_content("user", message),
            },
        );
        assert(messages.deep_view() =~= question(system_prompt.deep_view(), message@));
        self.chat_call(
            ChatRequest {
                model: model.to_string(),
                messages,
                temperature: temperature.copy(),
                max_tokens: self.max_tokens,
            },
        )
    }

    /// The call that goes on with a conversation without tools.
    pub fn chat_with_history(
        &self,
        messages: &[ChatMessage],
        model: &str,
        temperature: &Json,
    ) -> (call: Result<ApiCall<ChatRequest>, String>)
        ensures
            outcome(call) == chat_call_or_error(
                self.credential.deep_view(),
                ChatRequestView {
                    model: model@,
                    messages: history_messages(messages.deep_view()),
                    temperature: temperature@,
                    max_tokens: self.max_tokens,
                },
            ),
    {
        let mut list: Vec<Message> = Vec::new();
        let mut at: usize = 0;
        while at < messages.len()
            invariant
                at <= messages.len(),
                list.len() == at,
                forall|i: int|
                    0 <= i < at ==> (#[trigger] list@[i]).deep_view() == history_message(
                        messages@[i].deep_view(),
                    ),
            decreases messages.len() - at,
        {
            list.push(Self::to_history_message(&messages[at]));
            at = at + 1;
        }
        assert(list.deep_view() =~= history_messages(messages.deep_view()));
        self.chat_call(
            ChatRequest {
                model: model.to_string(),
                messages: list,
                temperature: temperature.copy(),
                max_tokens: self.max_tokens,
            },
        )
    }

    fn native_request(
        &self,
        messages: &[ChatMessage],
        tools: Option<Vec<NativeToolSpec>>,
        model: &str,
        temperature: &Json,
    ) -> (request: NativeChatRequest)
        ensures
            request.deep_view() == native_request(
                messages.deep_view(),
                tools.deep_view(),
                model@,
                temperature@,
                self.max_tokens,
            ),
    {
        NativeChatRequest {
            model: model.to_string(),
            messages: Self::convert_messages(messages),
            temperature: temperature.copy(),
            tool_choice: match &tools {
                Some(_) => Some("auto".to_string()),
                None => None,
            },
            tools,
            max_tokens: self.max_tokens,
        }
    }

    /// The call that goes on with a conversation in which the model may call tools.
    pub fn chat(&self, request: ProviderChatRequest<'_>, model: &str, temperature: &Json) -> (call:
        Result<ApiCall<NativeChatRequest>, String>)
        ensures
            outcome(call) == chat_call_or_error(
                self.credential.deep_view(),
                native_request(
                    request.messages.deep_view(),
                    match request.tools.deep_view() {
                        Some(tools) => some_if_any(offered_tools(tools)),
                        None => None,
                    },
                    model@,
                    temperature@,
                    self.max_tokens,
                ),
            ),
    {
        let tools = Self::convert_tools(request.tools);
        self.chat_call(self.native_request(request.messages, tools, model, temperature))
    }

    /// The call that goes on with a conversation in which the model may call tools
    /// that are given as JSON values.
    pub fn chat_with_tools(
        &self,
        messages: &[ChatMessage],
        tools: &[Json],
        model: &str,
        temperature: &Json,
    ) -> (call: Result<ApiCall<NativeChatRequest>, String>)
        ensures
            outcome(call) == chat_call_or_error(
                self.credential.deep_view(),
                native_request(
                    messages.deep_view(),
                    some_if_any(tools_from_values(documents(tools@))),
                    model@,
                    temperature@,
                    self.max_tokens,
                ),
            ),
    {
        let tools = Self::convert_tool_values(tools);
        self.chat_call(self.native_request(messages, tools, model, temperature))
    }
}

/// The model is told to choose among tools if and only if there are some.
pub proof fn law_choice_with_tools(
    messages: Seq<ChatMessageView>,
    tools: Option<Seq<NativeToolSpecView>>,
    model: Seq<char>,
    temperature: JsonView,
    max_tokens: Option<u32>,
)
    ensures
        ({
            let request = native_request(messages, tools, model, temperature, max_tokens);
            request.tool_choice == if request.tools is Some {
                Some("auto"@)
            } else {
                None
            }
        }),
{
}

/// No question is asked without a key, and the key is shown in one header and
/// nowhere else.
pub proof fn law_key_only_in_header<V>(key: Seq<char>, other: Seq<char>, body: V)
    ensures
        chat_call_or_error(None, body) is Err,
        chat_call(key, body).headers[0] == authorization(key),
        chat_call(other, body) == (ApiCallView {
            headers: chat_call(key, body).headers.update(0, authorization(other)),
            ..chat_call(key, body)
        }),
{
    assert(chat_call(other, body).headers =~= chat_call(key, body).headers.update(
        0,
        authorization(other),
    ));
}

/// A question ends with the user's message, which says what a user's message with the
/// same words says in a conversation, with or without a system prompt. In front of it
/// there is one message of the system with the prompt, if and only if there is one.
pub proof fn law_question_is_a_conversation(
    system_prompt: Option<Seq<char>>,
    message: Seq<char>,
    stable_prefix: Option<Seq<char>>,
)
    ensures
        ({
            let asked = question(system_prompt, message);
            let said = ChatMessageView { role: "user"@, content: message, stable_prefix };
            &&& asked.len() == if system_prompt is Some {
                2int
            } else {
                1
            }
            &&& asked.last().role == "user"@
            &&& asked.last().content == message_content(said)
            &&& asked.last() == history_messages(seq![said])[0]
            &&& asked.last() == question(None, message)[0]
            &&& system_prompt matches Some(prompt) ==> asked[0].role == "system"@
                && asked[0].content == ContentView::Text(prompt)
        }),
{
    reveal_strlit("user");
    reveal_strlit("system");
    assert("user"@.len() == 4 && "system"@.len() == 6);
}

/// Whether a call goes to the address for questions and shows a key, where the
/// project is to be found, and what it is called.
pub open spec fn asks<V>(call: ApiCallView<V>, key: Seq<char>) -> bool {
    &&& call.method is Post
    &&& call.url == "https://openrouter.ai/api/v1/chat/completions"@
    &&& call.headers.len() == 3
    &&& call.headers[0].0 == "Authorization"@
    &&& call.headers[0].1 == "Bearer "@ + key
    &&& call.headers[1].0 == "HTTP-Referer"@
    &&& call.headers[1].1 == "https://github.com/zeroclaw-labs/zeroclaw"@
    &&& call.headers[2].0 == "X-Title"@
    &&& call.headers[2].1 == "ZeroClaw"@
}

/// With a key the body of a question is sent as it is, and without one there is no
/// call but a message that says how to set it.
pub proof fn law_questions_are_sent<V>(key: Seq<char>, body: V)
    ensures
        ({
            let call = chat_call_or_error(Some(key), body);
            &&& call is Ok
            &&& asks(call->Ok_0, key)
            &&& call->Ok_0.body == body
            &&& chat_call_or_error(None, body) == Err::<ApiCallView<V>, Seq<char>>(
                "OpenRouter API key not set. Run `zeroclaw onboard` or set OPENROUTER_API_KEY env var."@,
            )
        }),
{
}

/// The connection is opened by looking up the key, which is shown in the one header.
pub proof fn law_key_is_looked_up(key: Seq<char>)
    ensures
        ({
            let call = warmup_call(key);
            &&& call.method is Get
            &&& call.url == "https://openrouter.ai/api/v1/auth/key"@
            &&& call.headers.len() == 1
            &&& call.headers[0].0 == "Authorization"@
            &&& call.headers[0].1 == "Bearer "@ + key
        }),
{
}

/// A request with tools has the model, the temperature, the limit on tokens and the
/// tools that it is made with, and the messages of the conversation in order.
pub proof fn law_request_is_whole(
    messages: Seq<ChatMessageView>,
    tools: Option<Seq<NativeToolSpecView>>,
    model: Seq<char>,
    temperature: JsonView,
    max_tokens: Option<u32>,
)
    ensures
        ({
            let request = native_request(messages, tools, model, temperature, max_tokens);
            &&& request.model == model
            &&& request.temperature == temperature
            &&& request.max_tokens == max_tokens
            &&& request.tools == tools
            &&& tools is Some ==> request.tool_choice == Some("auto"@)
            &&& tools is None ==> request.tool_choice is None
            &&& request.messages == native_messages(messages)
        }),
{
}

/// A call is seen as it is.
pub proof fn law_calls_are_seen_whole<B: DeepView>(call: ApiCall<B>)
    ensures
        call.deep_view().method == call.method,
        call.deep_view().url == call.url@,
        call.deep_view().body == call.body.deep_view(),
        call.deep_view().headers.len() == call.headers@.len(),
        forall|i: int|
            0 <= i < call.headers@.len() ==> (#[trigger] call.deep_view().headers[i]).0
                == call.headers@[i].0@ && call.deep_view().headers[i].1 == call.headers@[i].1@,
{
}

} // verus!
