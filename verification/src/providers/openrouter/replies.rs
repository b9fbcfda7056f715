//! What the model answered.
use crate::providers::openrouter::OpenRouterProvider;
use crate::providers::openrouter::payload::{outcome, response_value, unexpected_payload};
use crate::providers::traits::{
    ChatResponse as ProviderChatResponse, ChatResponseView, TokenUsage,
    ToolCall as ProviderToolCall, ToolCallView,
};
use crate::providers::wire::{
    ApiChatResponse, NativeChatResponse, NativeChatResponseView, NativeResponseMessage,
    NativeResponseMessageView, NativeToolCall, NativeToolCallView, UsageInfo,
};
use vstd::prelude::*;

verus! {

/// A hexadecimal digit in lower case.
pub open spec fn hex_digit(c: char) -> bool {
    '0' <= c <= '9' || 'a' <= c <= 'f'
}

/// A random UUID as a text: 36 characters, hyphens between the groups of hexadecimal
/// digits, a `4` for the version and one of `8`, `9`, `a` and `b` for the variant.
pub open spec fn uuid_text(s: Seq<char>) -> bool {
    &&& s.len() == 36
    &&& forall|i: int|
        0 <= i < 36 ==> {
            let c = #[trigger] s[i];
            if i == 8 || i == 13 || i == 18 || i == 23 {
                c == '-'
            } else if i == 14 {
                c == '4'
            } else if i == 19 {
                c == '8' || c == '9' || c == 'a' || c == 'b'
            } else {
                hex_digit(c)
            }
        }
}

/// Calls `uuid::Uuid::new_v4` and gives the identifier as its `Display` writes it.
/// Claimed: the form of a random UUID in lower case with hyphens. Which one it is
/// stays open. `new_v4` panics where the machine gives no random bytes.
#[verifier::external_body]
fn random_uuid() -> (text: String)
    ensures
        uuid_text(text@),
{
    uuid::Uuid::new_v4().to_string()
}

/// A call that a model asks for; `fresh` is its identifier where the model gave it
/// none.
pub open spec fn provider_call(call: NativeToolCallView, fresh: Seq<char>) -> ToolCallView {
    ToolCallView {
        id: match call.id {
            Some(id) => id,
            None => fresh,
        },
        name: call.function.name,
        arguments: call.function.arguments,
    }
}

/// The calls of a message, in order.
pub open spec fn asked_calls(message: NativeResponseMessageView) -> Seq<NativeToolCallView> {
    match message.tool_calls {
        Some(calls) => calls,
        None => Seq::empty(),
    }
}

/// Whether a reply says what a message says: its text and its thoughts, each call
/// with the identifier that the model gave it, or with a random one.
pub open spec fn replies(
    message: NativeResponseMessageView,
    usage: Option<TokenUsage>,
    reply: ChatResponseView,
) -> bool {
    &&& reply.text == message.content
    &&& reply.reasoning_content == message.reasoning_content
    &&& reply.usage == usage
    &&& reply.tool_calls.len() == asked_calls(message).len()
    &&& forall|i: int|
        0 <= i < reply.tool_calls.len() ==> {
            let call = #[trigger] reply.tool_calls[i];
            let asked = asked_calls(message)[i];
            &&& call == provider_call(asked, call.id)
            &&& asked.id is None ==> uuid_text(call.id)
        }
}

/// How many tokens a call took. What OpenRouter calls cached was read from the
/// cache; it says nothing of tokens that were written to it.
pub open spec fn token_usage(usage: UsageInfo) -> TokenUsage {
    let cached = match usage.prompt_tokens_details {
        Some(details) => details.cached_tokens,
        None => None,
    };
    TokenUsage {
        input_tokens: usage.prompt_tokens,
        output_tokens: usage.completion_tokens,
        cached_input_tokens: cached,
        cache_read_input_tokens: cached,
        cache_creation_input_tokens: None,
    }
}

/// How many tokens a call took, where the response says so.
pub open spec fn some_token_usage(usage: Option<UsageInfo>) -> Option<TokenUsage> {
    match usage {
        Some(usage) => Some(token_usage(usage)),
        None => None,
    }
}

/// The message for a response without answers.
pub const NO_RESPONSE: &'static str = "No response from OpenRouter";

/// The name under which messages speak of the provider.
pub const PROVIDER_NAME: &'static str = "OpenRouter";

/// What a response to a question without tools is called.
pub const CHAT_KIND: &'static str = "chat-completions";

/// What a response to a question with tools is called.
pub const NATIVE_KIND: &'static str = "native chat";

/// The first of the answers; the error where there is none.
pub open spec fn first_choice<V>(choices: Seq<V>) -> Result<V, Seq<char>> {
    if choices.len() > 0 {
        Ok(choices[0])
    } else {
        Err(NO_RESPONSE@)
    }
}

/// The text of the reply to a question without tools.
pub open spec fn text_reply(response: Result<Seq<Seq<char>>, Seq<char>>) -> Result<
    Seq<char>,
    Seq<char>,
> {
    match response {
        Ok(choices) => first_choice(choices),
        Err(message) => Err(message),
    }
}

/// Whether a reply is what a response to a question with tools says.
pub open spec fn native_reply(
    response: Result<NativeChatResponseView, Seq<char>>,
    reply: Result<ChatResponseView, Seq<char>>,
) -> bool {
    match (response, reply) {
        (Ok(response), Ok(reply)) => response.choices.len() > 0 && replies(
            response.choices[0],
            some_token_usage(response.usage),
            reply,
        ),
        (Ok(response), Err(message)) => response.choices.len() == 0 && message == NO_RESPONSE@,
        (Err(error), Err(message)) => message == error,
        (Err(_), Ok(_)) => false,
    }
}

impl OpenRouterProvider {
    /// A call that a model asks for; `fresh` is its identifier where the model gave
    /// it none.
    pub fn provider_call(call: &NativeToolCall, fresh: String) -> (asked: ProviderToolCall)
        ensures
            asked.deep_view() == provider_call(call.deep_view(), fresh@),
    {
        ProviderToolCall {
            id: match &call.id {
                Some(id) => id.clone(),
                None => fresh,
            },
            name: call.function.name.clone(),
            arguments: call.function.arguments.clone(),
        }
    }

    /// The reply that a message stands for. A call without an identifier is given
    /// a random one.
    pub fn parse_native_response(message: NativeResponseMessage) -> (reply: ProviderChatResponse)
        ensures
            replies(message.deep_view(), None, reply.deep_view()),
    {
        let calls: Vec<NativeToolCall> = match message.tool_calls {
            Some(calls) => calls,
            None => Vec::new(),
        };
        let ghost asked = asked_calls(message.deep_view());
        assert(calls.deep_view() =~= asked);
        let mut tool_calls: Vec<ProviderToolCall> = Vec::new();
        let mut at: usize = 0;
        while at < calls.len()
            invariant
                at <= calls.len(),
                tool_calls.len() == at,
                calls.deep_view() == asked,
                forall|i: int|
                    0 <= i < at ==> {
                        let call = (#[trigger] tool_calls@[i]).deep_view();
                        &&& call == provider_call(asked[i], call.id)
                        &&& asked[i].id is None ==> uuid_text(call.id)
                    },
            decreases calls.len() - at,
        {
            let fresh = match &calls[at].id {
                Some(_) => String::new(),
                None => random_uuid(),
            };
            assert(asked[at as int] == calls@[at as int].deep_view());
            tool_calls.push(Self::provider_call(&calls[at], fresh));
            at = at + 1;
        }
        let reply = ProviderChatResponse {
            text: message.content,
            tool_calls,
            usage: None,
            reasoning_content: message.reasoning_content,
        };
        proof {
            let calls = reply.deep_view().tool_calls;
            assert forall|i: int| 0 <= i < calls.len() implies {
                let call = #[trigger] calls[i];
                &&& call == provider_call(asked[i], call.id)
                &&& asked[i].id is None ==> uuid_text(call.id)
            } by {
                assert(calls[i] == tool_calls@[i].deep_view());
            }
        }
        reply
    }

    /// How many tokens a call took.
    pub fn token_usage(usage: &UsageInfo) -> (tokens: TokenUsage)
        ensures
            tokens == token_usage(*usage),
    {
        let cached = match usage.prompt_tokens_details {
            Some(details) => details.cached_tokens,
            None => None,
        };
        TokenUsage {
            input_tokens: usage.prompt_tokens,
            output_tokens: usage.completion_tokens,
            cached_input_tokens: cached,
            cache_read_input_tokens: cached,
            cache_creation_input_tokens: None,
        }
    }

    /// The text of the first answer.
    pub fn first_text(response: ApiChatResponse) -> (text: Result<String, String>)
        ensures
            outcome(text) == first_choice(response.deep_view()),
    {
        let mut choices = response.choices;
        if choices.len() == 0 {
            return Err(NO_RESPONSE.to_string());
        }
        let first = choices.remove(0);
        Ok(first.message.content)
    }

    /// The reply to a question without tools, given the body of the response and the
    /// outcome of parsing it.
    pub fn text_reply(body: &str, parsed: Result<ApiChatResponse, String>) -> (reply: Result<
        String,
        String,
    >)
        ensures
            outcome(reply) == text_reply(
                response_value(PROVIDER_NAME@, body@, CHAT_KIND@, outcome(parsed)),
            ),
    {
        match Self::parse_response_body(PROVIDER_NAME, body, CHAT_KIND, parsed) {
            Ok(response) => Self::first_text(response),
            Err(message) => Err(message),
        }
    }

    /// The reply that the first answer stands for, with the tokens that the call
    /// took.
    pub fn first_reply(response: NativeChatResponse) -> (reply: Result<
        ProviderChatResponse,
        String,
    >)
        ensures
            native_reply(Ok(response.deep_view()), outcome(reply)),
    {
        let usage = match &response.usage {
            Some(usage) => Some(Self::token_usage(usage)),
            None => None,
        };
        let mut choices = response.choices;
        if choices.len() == 0 {
            return Err(NO_RESPONSE.to_string());
        }
        let first = choices.remove(0);
        let mut reply = Self::parse_native_response(first.message);
        reply.usage = usage;
        Ok(reply)
    }

    /// The reply to a question with tools, given the body of the response and the
    /// outcome of parsing it.
    pub fn native_reply(body: &str, parsed: Result<NativeChatResponse, String>) -> (reply: Result<
        ProviderChatResponse,
        String,
    >)
        ensures
            native_reply(
                response_value(PROVIDER_NAME@, body@, NATIVE_KIND@, outcome(parsed)),
                outcome(reply),
            ),
    {
        match Self::parse_response_body(PROVIDER_NAME, body, NATIVE_KIND, parsed) {
            Ok(response) => Self::first_reply(response),
            Err(message) => Err(message),
        }
    }
}

/// What the cache had to do with is what was read from it, and nothing was written.
pub proof fn law_cached_tokens_were_read(usage: UsageInfo)
    ensures
        token_usage(usage).cached_input_tokens == token_usage(usage).cache_read_input_tokens,
        token_usage(usage).cache_creation_input_tokens is None,
        token_usage(usage).cached_input_tokens is Some <==> usage.prompt_tokens_details is Some
            && usage.prompt_tokens_details->0.cached_tokens is Some,
{
}

/// A reply says what the message says. It has the calls of the message in their order,
/// each with the name and the arguments that the model gave it, whether or not it has
/// an identifier. The identifier is the model's where there is one.
pub proof fn law_reply_keeps_the_message(
    message: NativeResponseMessageView,
    usage: Option<TokenUsage>,
    reply: ChatResponseView,
)
    requires
        replies(message, usage, reply),
    ensures
        reply.text == message.content,
        reply.reasoning_content == message.reasoning_content,
        reply.usage == usage,
        message.tool_calls is None ==> reply.tool_calls.len() == 0,
        message.tool_calls matches Some(asked) ==> {
            &&& reply.tool_calls.len() == asked.len()
            &&& forall|i: int|
                0 <= i < asked.len() ==> {
                    let call = #[trigger] reply.tool_calls[i];
                    &&& call.name == asked[i].function.name
                    &&& call.arguments == asked[i].function.arguments
                    &&& asked[i].id matches Some(id) ==> call.id == id
                }
        },
{
}

/// A call keeps its name and its arguments, and its identifier where it has one; the
/// fresh one is taken where it has none.
pub proof fn law_call_is_kept(call: NativeToolCallView, fresh: Seq<char>)
    ensures
        provider_call(call, fresh).name == call.function.name,
        provider_call(call, fresh).arguments == call.function.arguments,
        call.id matches Some(id) ==> provider_call(call, fresh).id == id,
        call.id is None ==> provider_call(call, fresh).id == fresh,
{
}

/// A call without an identifier is given one of 36 characters: hexadecimal digits in
/// lower case in groups of 8, 4, 4, 4 and 12, with hyphens between them.
pub proof fn law_missing_identifiers_are_made(
    message: NativeResponseMessageView,
    usage: Option<TokenUsage>,
    reply: ChatResponseView,
    at: int,
)
    requires
        replies(message, usage, reply),
        0 <= at < reply.tool_calls.len(),
        message.tool_calls is Some,
        message.tool_calls->0[at].id is None,
    ensures
        ({
            let id = reply.tool_calls[at].id;
            &&& id.len() == 36
            &&& id[8] == '-' && id[13] == '-' && id[18] == '-' && id[23] == '-'
            &&& id[14] == '4'
            &&& forall|i: int|
                0 <= i < 36 && i != 8 && i != 13 && i != 18 && i != 23 ==> {
                    let n = (#[trigger] id[i]) as u32;
                    0x30 <= n <= 0x39 || 0x61 <= n <= 0x66
                }
        }),
{
    let id = reply.tool_calls[at].id;
    assert(uuid_text(id));
}

/// The first answer of a response is the reply to a question with tools, with the
/// tokens that the response tells of. Where there is none, or the response is an
/// error, there is no reply.
pub proof fn law_first_answer_is_the_reply(
    response: Result<NativeChatResponseView, Seq<char>>,
    reply: Result<ChatResponseView, Seq<char>>,
)
    requires
        native_reply(response, reply),
    ensures
        reply is Ok <==> response is Ok && response->Ok_0.choices.len() > 0,
        response is Ok && response->Ok_0.choices.len() == 0 ==> reply == Err::<
            ChatResponseView,
            Seq<char>,
        >("No response from OpenRouter"@),
        response matches Err(error) ==> reply == Err::<ChatResponseView, Seq<char>>(error),
        response is Ok && reply is Ok ==> {
            let response = response->Ok_0;
            &&& response.usage is None ==> replies(response.choices[0], None, reply->Ok_0)
            &&& response.usage matches Some(usage) ==> replies(
                response.choices[0],
                Some(token_usage(usage)),
                reply->Ok_0,
            )
        },
{
}

/// The tokens of a call are those that the response tells of: those of the prompt,
/// those of the answer, and those of the prompt that were in the cache.
pub proof fn law_tokens_are_kept(usage: UsageInfo)
    ensures
        token_usage(usage).input_tokens == usage.prompt_tokens,
        token_usage(usage).output_tokens == usage.completion_tokens,
        usage.prompt_tokens_details matches Some(details) ==> token_usage(usage).cached_input_tokens
            == details.cached_tokens && token_usage(usage).cache_read_input_tokens
            == details.cached_tokens,
        usage.prompt_tokens_details is None ==> token_usage(usage).cached_input_tokens is None
            && token_usage(usage).cache_read_input_tokens is None,
        token_usage(usage).cache_creation_input_tokens is None,
{
}

/// The first answer of a response is the reply to a question without tools. Where
/// there is none, or the response is an error, there is no reply.
pub proof fn law_first_text_is_the_reply(choices: Seq<Seq<char>>, error: Seq<char>)
    ensures
        choices.len() > 0 ==> text_reply(Ok(choices)) == Ok::<Seq<char>, Seq<char>>(choices[0]),
        choices.len() == 0 ==> text_reply(Ok(choices)) == Err::<Seq<char>, Seq<char>>(
            "No response from OpenRouter"@,
        ),
        text_reply(Err(error)) == Err::<Seq<char>, Seq<char>>(error),
{
}

/// A response that could not be parsed is answered by a message that names the
/// provider and says what the response was to be.
pub proof fn law_unread_responses_are_named(body: Seq<char>, error: Seq<char>)
    ensures
        text_reply(response_value(PROVIDER_NAME@, body, CHAT_KIND@, Err(error))) == Err::<
            Seq<char>,
            Seq<char>,
        >(unexpected_payload("OpenRouter"@, "chat-completions"@, error, body)),
        forall|reply: Result<ChatResponseView, Seq<char>>| #[trigger]
            native_reply(response_value(PROVIDER_NAME@, body, NATIVE_KIND@, Err(error)), reply)
                ==> reply == Err::<ChatResponseView, Seq<char>>(
                unexpected_payload("OpenRouter"@, "native chat"@, error, body),
            ),
{
}

} // verus!
