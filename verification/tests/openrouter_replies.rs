use std::collections::BTreeMap;
use zeroclaw::providers::openrouter::OpenRouterProvider;
use zeroclaw::providers::wire::{
    ApiChatResponse, Choice, NativeChatResponse, NativeChoice, NativeFunctionCall,
    NativeResponseMessage, NativeToolCall, PromptTokensDetails, ResponseMessage, UsageInfo,
};

/// What serde_json says of a body whose `choices` are no list, or that is no object.
fn typed_error(body: &str) -> String {
    serde_json::from_str::<BTreeMap<String, Vec<serde_json::Value>>>(body)
        .expect_err("the body has another type")
        .to_string()
}

fn chat_response(texts: &[&str]) -> ApiChatResponse {
    ApiChatResponse {
        choices: texts
            .iter()
            .map(|text| Choice { message: ResponseMessage { content: text.to_string() } })
            .collect(),
    }
}

fn native_response(usage: Option<UsageInfo>) -> NativeChatResponse {
    NativeChatResponse {
        choices: vec![NativeChoice {
            message: NativeResponseMessage {
                content: Some("Hello".into()),
                reasoning_content: None,
                tool_calls: None,
            },
        }],
        usage,
    }
}

fn usage(prompt: u64, completion: u64, details: Option<PromptTokensDetails>) -> Option<UsageInfo> {
    Some(UsageInfo {
        prompt_tokens: Some(prompt),
        completion_tokens: Some(completion),
        prompt_tokens_details: details,
    })
}

#[test]
fn parse_chat_response_body_reports_sanitized_snippet() {
    let body = r#"{"choices":"invalid","api_key":"sk-test-secret-value"}"#;
    let err = OpenRouterProvider::parse_response_body::<ApiChatResponse>(
        "OpenRouter",
        body,
        "chat-completions",
        Err(typed_error(body)),
    )
    .expect_err("payload should fail");
    let msg = err.to_string();

    assert!(msg.contains("OpenRouter API returned an unexpected chat-completions payload"));
    assert!(msg.contains("body="));
    assert!(msg.contains("[REDACTED]"));
    assert!(!msg.contains("sk-test-secret-value"));
}

#[test]
fn parse_native_response_body_reports_sanitized_snippet() {
    let body = r#"{"choices":123,"api_key":"sk-another-secret"}"#;
    let err = OpenRouterProvider::parse_response_body::<NativeChatResponse>(
        "OpenRouter",
        body,
        "native chat",
        Err(typed_error(body)),
    )
    .expect_err("payload should fail");
    let msg = err.to_string();

    assert!(msg.contains("OpenRouter API returned an unexpected native chat payload"));
    assert!(msg.contains("body="));
    assert!(msg.contains("[REDACTED]"));
    assert!(!msg.contains("sk-another-secret"));
}

#[test]
fn parse_native_response_converts_to_chat_response() {
    let message = NativeResponseMessage {
        content: Some("Here you go.".into()),
        reasoning_content: None,
        tool_calls: Some(vec![NativeToolCall {
            id: Some("call_789".into()),
            kind: Some("function".into()),
            function: NativeFunctionCall {
                name: "file_read".into(),
                arguments: r#"{"path":"test.txt"}"#.into(),
            },
        }]),
    };

    let response = OpenRouterProvider::parse_native_response(message);

    assert_eq!(response.text.as_deref(), Some("Here you go."));
    assert_eq!(response.tool_calls.len(), 1);
    assert_eq!(response.tool_calls[0].id, "call_789");
    assert_eq!(response.tool_calls[0].name, "file_read");
}

#[test]
fn native_response_maps_cached_tokens_to_token_usage() {
    let resp = native_response(usage(
        25000,
        500,
        Some(PromptTokensDetails { cached_tokens: Some(15000) }),
    ));
    let usage = resp.usage.map(|u| OpenRouterProvider::token_usage(&u));
    let usage = usage.unwrap();
    assert_eq!(usage.input_tokens, Some(25000));
    assert_eq!(usage.output_tokens, Some(500));
    assert_eq!(usage.cached_input_tokens, Some(15000));
    assert_eq!(usage.cache_read_input_tokens, Some(15000));
    assert!(usage.cache_creation_input_tokens.is_none());
}

#[test]
fn native_response_maps_none_when_no_prompt_tokens_details() {
    let resp = native_response(usage(100, 50, None));
    let usage = resp.usage.map(|u| OpenRouterProvider::token_usage(&u));
    let usage = usage.unwrap();
    assert!(usage.cached_input_tokens.is_none());
    assert!(usage.cache_read_input_tokens.is_none());
}

#[test]
fn native_response_maps_zero_cached_tokens_as_some_zero() {
    let resp = native_response(usage(
        100,
        50,
        Some(PromptTokensDetails { cached_tokens: Some(0) }),
    ));
    let usage = resp.usage.map(|u| OpenRouterProvider::token_usage(&u));
    let usage = usage.unwrap();
    assert_eq!(usage.cached_input_tokens, Some(0));
    assert_eq!(usage.cache_read_input_tokens, Some(0));
}

#[test]
fn parse_native_response_captures_reasoning_content() {
    let message = NativeResponseMessage {
        content: Some("answer".into()),
        reasoning_content: Some("thinking step".into()),
        tool_calls: Some(vec![NativeToolCall {
            id: Some("call_1".into()),
            kind: Some("function".into()),
            function: NativeFunctionCall {
                name: "shell".into(),
                arguments: "{}".into(),
            },
        }]),
    };
    let parsed = OpenRouterProvider::parse_native_response(message);
    assert_eq!(parsed.reasoning_content.as_deref(), Some("thinking step"));
    assert_eq!(parsed.tool_calls.len(), 1);
}

#[test]
fn parse_native_response_none_reasoning_content_for_normal_model() {
    let message = NativeResponseMessage {
        content: Some("hello".into()),
        reasoning_content: None,
        tool_calls: None,
    };
    let parsed = OpenRouterProvider::parse_native_response(message);
    assert!(parsed.reasoning_content.is_none());
}

fn random_id_form(id: &str) -> bool {
    let chars: Vec<char> = id.chars().collect();
    chars.len() == 36
        && chars.iter().enumerate().all(|(at, c)| match at {
            8 | 13 | 18 | 23 => *c == '-',
            14 => *c == '4',
            19 => "89ab".contains(*c),
            _ => c.is_ascii_digit() || ('a'..='f').contains(c),
        })
}

fn call_without_id() -> NativeToolCall {
    NativeToolCall {
        id: None,
        kind: None,
        function: NativeFunctionCall { name: "n".into(), arguments: "a".into() },
    }
}

#[test]
fn call_without_identifier_is_given_a_random_one() {
    let message = NativeResponseMessage {
        content: None,
        reasoning_content: None,
        tool_calls: Some(vec![call_without_id(), call_without_id()]),
    };
    let reply = OpenRouterProvider::parse_native_response(message);
    assert!(reply.text.is_none());
    assert!(reply.usage.is_none());
    assert!(random_id_form(&reply.tool_calls[0].id));
    assert!(random_id_form(&reply.tool_calls[1].id));
    assert_ne!(reply.tool_calls[0].id, reply.tool_calls[1].id);
    assert_eq!(reply.tool_calls[1].name, "n");
    assert_eq!(reply.tool_calls[1].arguments, "a");
}

#[test]
fn fresh_identifier_is_used_only_where_there_is_none() {
    let mut call = call_without_id();
    assert_eq!(OpenRouterProvider::provider_call(&call, "fresh".into()).id, "fresh");
    call.id = Some("given".into());
    assert_eq!(OpenRouterProvider::provider_call(&call, "fresh".into()).id, "given");
}

#[test]
fn message_without_calls_has_none() {
    let message = NativeResponseMessage {
        content: Some("t".into()),
        reasoning_content: None,
        tool_calls: None,
    };
    assert!(OpenRouterProvider::parse_native_response(message).tool_calls.is_empty());
}

#[test]
fn text_reply_is_the_first_choice() {
    let reply = OpenRouterProvider::text_reply("ignored", Ok(chat_response(&["one", "two"])));
    assert_eq!(reply, Ok("one".into()));
}

#[test]
fn text_reply_without_choices_is_an_error() {
    let reply = OpenRouterProvider::text_reply("{}", Ok(chat_response(&[])));
    assert_eq!(reply, Err("No response from OpenRouter".into()));
}

#[test]
fn text_reply_quotes_a_body_that_is_no_document() {
    let body = "<html>\n  bad\tgateway </html>";
    let reply = OpenRouterProvider::text_reply(body, Err(typed_error(body)));
    assert_eq!(
        reply.unwrap_err(),
        "OpenRouter API returned an unexpected chat-completions payload: \
         expected value at line 1 column 1; body=<html> bad gateway </html>"
    );
}

#[test]
fn replies_quote_what_is_said_of_a_body_of_another_type() {
    let body = r#"{"choices": "none",   "key": "sk-abc"}"#;
    let error = typed_error(body);
    assert_eq!(
        error,
        "invalid type: string \"none\", expected a sequence at line 1 column 18"
    );
    assert_eq!(
        OpenRouterProvider::text_reply(body, Err(error.clone())).unwrap_err(),
        format!(
            "OpenRouter API returned an unexpected chat-completions payload: {error}; \
             body={{\"choices\": \"none\", \"key\": \"[REDACTED]\"}}"
        )
    );
    assert_eq!(
        OpenRouterProvider::native_reply("null", Err("no struct".into())).unwrap_err(),
        "OpenRouter API returned an unexpected native chat payload: no struct; body=null"
    );
}

#[test]
fn parsed_value_is_handed_on_unchanged() {
    let value: Result<ApiChatResponse, String> =
        OpenRouterProvider::parse_response_body("P", "any", "k", Ok(chat_response(&["a"])));
    assert_eq!(value.unwrap().choices[0].message.content, "a");
    let value: Result<ApiChatResponse, String> =
        OpenRouterProvider::parse_response_body("P", "the  body", "k", Err("no good".into()));
    assert_eq!(
        value.unwrap_err(),
        "P API returned an unexpected k payload: no good; body=the body"
    );
}

#[test]
fn body_that_could_not_be_read_is_told_without_its_keys() {
    let body = OpenRouterProvider::read_response_body(
        "OpenRouter",
        Err("reset, key sk-or-v1.abc:9 lost".into()),
    );
    assert_eq!(
        body.unwrap_err(),
        "OpenRouter transport error while reading response body: reset, key [REDACTED] lost"
    );
    let body = OpenRouterProvider::read_response_body("OpenRouter", Ok("sk-kept".into()));
    assert_eq!(body, Ok("sk-kept".into()));
}

#[test]
fn responses_are_accepted_by_their_status() {
    for status in [200, 204, 299] {
        assert!(OpenRouterProvider::accepts(status));
    }
    for status in [0, 100, 199, 300, 404, 500, u16::MAX] {
        assert!(!OpenRouterProvider::accepts(status));
    }
}

#[test]
fn native_reply_has_text_calls_thoughts_and_usage() {
    let mut response =
        native_response(usage(9, 2, Some(PromptTokensDetails { cached_tokens: Some(5) })));
    response.choices[0].message.reasoning_content = Some("r".into());
    let mut call = call_without_id();
    call.id = Some("1".into());
    response.choices[0].message.tool_calls = Some(vec![call]);
    let reply = OpenRouterProvider::native_reply("ignored", Ok(response)).unwrap();
    assert_eq!(reply.text.as_deref(), Some("Hello"));
    assert_eq!(reply.reasoning_content.as_deref(), Some("r"));
    assert_eq!(reply.tool_calls[0].id, "1");
    let usage = reply.usage.unwrap();
    assert_eq!(usage.input_tokens, Some(9));
    assert_eq!(usage.output_tokens, Some(2));
    assert_eq!(usage.cached_input_tokens, Some(5));
    assert_eq!(usage.cache_read_input_tokens, usage.cached_input_tokens);
    assert_eq!(usage.cache_creation_input_tokens, None);
}

#[test]
fn native_reply_without_choices_is_an_error() {
    let response = NativeChatResponse { choices: vec![], usage: None };
    let reply = OpenRouterProvider::native_reply("{}", Ok(response));
    assert_eq!(reply.unwrap_err(), "No response from OpenRouter");
}

#[test]
fn reply_without_usage_has_none() {
    let reply = OpenRouterProvider::native_reply("{}", Ok(native_response(None))).unwrap();
    assert!(reply.usage.is_none());
}
