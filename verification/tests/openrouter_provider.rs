use zeroclaw::json::Json;
use zeroclaw::providers::openrouter::calls::{Method, CHAT_URL, KEY_NOT_SET, KEY_URL};
use zeroclaw::providers::openrouter::{
    OpenRouterProvider, DEFAULT_OPENROUTER_TIMEOUT_SECS, OPENROUTER_CONNECT_TIMEOUT_SECS,
};
use zeroclaw::outline::{Outline, ToJson};
use zeroclaw::providers::traits::{ChatMessage, ChatRequest};
use zeroclaw::providers::wire::MessageContent;
use zeroclaw::tools::ToolSpec;

fn json(text: &str) -> Json {
    Json::parse(text).unwrap()
}

fn value(outline: &Outline) -> serde_json::Value {
    serde_json::from_str(&outline.render()).unwrap()
}

fn temperature(text: &str) -> Json {
    Json::Float(text.to_string())
}

#[test]
fn capabilities_report_vision_support() {
    let provider = OpenRouterProvider::new(Some("openrouter-test-credential"), None);
    let caps = provider.capabilities();
    assert!(caps.native_tool_calling);
    assert!(caps.vision);
}

#[test]
fn creates_with_key() {
    let provider = OpenRouterProvider::new(Some("openrouter-test-credential"), None);
    assert_eq!(
        provider.credential.as_deref(),
        Some("openrouter-test-credential")
    );
}

#[test]
fn creates_without_key() {
    let provider = OpenRouterProvider::new(None, None);
    assert!(provider.credential.is_none());
}

#[test]
fn uses_configured_timeout_when_provided() {
    let provider = OpenRouterProvider::new(Some("openrouter-test-credential"), Some(1200));
    assert_eq!(provider.timeout_secs, 1200);
}

#[test]
fn falls_back_to_default_timeout_for_zero() {
    let provider = OpenRouterProvider::new(Some("openrouter-test-credential"), Some(0));
    assert_eq!(provider.timeout_secs, DEFAULT_OPENROUTER_TIMEOUT_SECS);
}

#[test]
fn default_timeout_is_120() {
    let provider = OpenRouterProvider::new(Some("key"), None);
    assert_eq!(provider.timeout_secs, 120);
}

#[test]
fn with_timeout_secs_overrides_default() {
    let provider = OpenRouterProvider::new(Some("key"), None).with_timeout_secs(300);
    assert_eq!(provider.timeout_secs, 300);
}

#[test]
fn warmup_without_key_is_noop() {
    let provider = OpenRouterProvider::new(None, None);
    let call = provider.warmup();
    assert!(call.is_none());
}

#[test]
fn chat_with_system_fails_without_key() {
    let provider = OpenRouterProvider::new(None, None);
    let result =
        provider.chat_with_system(Some("system"), "hello", "openai/gpt-4o", &temperature("0.2"));

    assert!(result.is_err());
    assert!(result.unwrap_err().contains("API key not set"));
}

#[test]
fn chat_with_history_fails_without_key() {
    let provider = OpenRouterProvider::new(None, None);
    let messages = vec![
        ChatMessage {
            role: "system".into(),
            content: "be concise".into(),
            stable_prefix: None,
        },
        ChatMessage {
            role: "user".into(),
            content: "hello".into(),
            stable_prefix: None,
        },
    ];

    let result =
        provider.chat_with_history(&messages, "anthropic/sonnet-4", &temperature("0.7"));

    assert!(result.is_err());
    assert!(result.unwrap_err().contains("API key not set"));
}

#[test]
fn chat_with_tools_fails_without_key() {
    let provider = OpenRouterProvider::new(None, None);
    let messages = vec![ChatMessage {
        role: "user".into(),
        content: "What is the date?".into(),
        stable_prefix: None,
    }];
    let tools = vec![json(
        r#"{
            "type": "function",
            "function": {
                "name": "shell",
                "description": "Run a shell command",
                "parameters": {"type": "object", "properties": {"command": {"type": "string"}}}
            }
        }"#,
    )];

    let result = provider.chat_with_tools(
        &messages,
        &tools,
        "deepseek/deepseek-chat",
        &temperature("0.5"),
    );

    assert!(result.is_err());
    assert!(result.unwrap_err().contains("API key not set"));
}

#[test]
fn chat_fails_without_key() {
    let provider = OpenRouterProvider::new(None, None);
    let messages = [ChatMessage::user("hello")];
    let request = ChatRequest { messages: &messages, tools: None };
    let error = provider.chat(request, "model", &temperature("0.5")).unwrap_err();
    assert_eq!(error, KEY_NOT_SET);
    assert_eq!(
        error,
        "OpenRouter API key not set. Run `zeroclaw onboard` or set OPENROUTER_API_KEY env var."
    );
}

#[test]
fn builders_keep_what_they_do_not_set() {
    let provider = OpenRouterProvider::new(Some("key"), Some(7))
        .with_max_tokens(Some(256))
        .with_timeout_secs(0);
    assert_eq!(provider.credential.as_deref(), Some("key"));
    assert_eq!(provider.timeout_secs, 0);
    assert_eq!(provider.max_tokens, Some(256));
    assert_eq!(provider.with_max_tokens(None).max_tokens, None);
}

#[test]
fn client_has_the_configured_and_the_connect_timeout() {
    let client = OpenRouterProvider::new(None, Some(45)).http_client();
    assert_eq!(client.service, "provider.openrouter");
    assert_eq!(client.timeout_secs, 45);
    assert_eq!(client.connect_timeout_secs, OPENROUTER_CONNECT_TIMEOUT_SECS);
    assert_eq!(client.connect_timeout_secs, 10);
}

#[test]
fn native_tools_are_supported_and_prompt_caching_is_not_claimed() {
    let provider = OpenRouterProvider::new(None, None);
    assert!(provider.supports_native_tools());
    assert!(!provider.capabilities().prompt_caching);
}

#[test]
fn warmup_asks_for_the_key() {
    let call = OpenRouterProvider::new(Some("secret"), None).warmup().unwrap();
    assert_eq!(call.method, Method::Get);
    assert_eq!(call.url, KEY_URL);
    assert_eq!(call.url, "https://openrouter.ai/api/v1/auth/key");
    assert_eq!(
        call.headers,
        vec![("Authorization".to_string(), "Bearer secret".to_string())]
    );
}

#[test]
fn question_goes_out_with_headers_and_both_messages() {
    let provider = OpenRouterProvider::new(Some("secret"), None).with_max_tokens(Some(64));
    let call = provider
        .chat_with_system(Some("Be brief"), "Hi", "openai/gpt-4o", &temperature("0.2"))
        .unwrap();
    assert_eq!(call.method, Method::Post);
    assert_eq!(call.url, CHAT_URL);
    assert_eq!(call.url, "https://openrouter.ai/api/v1/chat/completions");
    assert_eq!(
        call.headers,
        vec![
            ("Authorization".to_string(), "Bearer secret".to_string()),
            (
                "HTTP-Referer".to_string(),
                "https://github.com/zeroclaw-labs/zeroclaw".to_string()
            ),
            ("X-Title".to_string(), "ZeroClaw".to_string()),
        ]
    );
    let body = value(&call.body.to_json());
    assert_eq!(body["model"], "openai/gpt-4o");
    assert_eq!(body["temperature"], 0.2);
    assert_eq!(body["max_tokens"], 64);
    assert_eq!(body["messages"][0]["role"], "system");
    assert_eq!(body["messages"][0]["content"], "Be brief");
    assert_eq!(body["messages"][1]["role"], "user");
    assert_eq!(body["messages"][1]["content"], "Hi");
}

#[test]
fn question_without_system_prompt_has_one_message() {
    let provider = OpenRouterProvider::new(Some("secret"), None);
    let call = provider.chat_with_system(None, "Hi", "m", &temperature("1.0")).unwrap();
    assert_eq!(call.body.messages.len(), 1);
    assert_eq!(call.body.messages[0].role, "user");
    assert!(value(&call.body.to_json()).get("max_tokens").is_none());
}

#[test]
fn history_keeps_the_split_system_message() {
    let provider = OpenRouterProvider::new(Some("secret"), None);
    let messages = [
        ChatMessage::system_with_stable_prefix("STABLE", "DYNAMIC"),
        ChatMessage::user("Hi"),
    ];
    let call = provider.chat_with_history(&messages, "m", &temperature("0.0")).unwrap();
    let body = value(&call.body.to_json());
    assert_eq!(body["messages"][0]["content"][0]["text"], "STABLE");
    assert_eq!(body["messages"][0]["content"][0]["cache_control"]["type"], "ephemeral");
    assert_eq!(body["messages"][0]["content"][1]["text"], "DYNAMIC");
    assert_eq!(body["messages"][1]["content"], "Hi");
}

#[test]
fn chat_offers_valid_tools_and_leaves_the_choice() {
    let provider = OpenRouterProvider::new(Some("secret"), None);
    let messages = [ChatMessage::user("Hi")];
    let tools = [
        ToolSpec {
            name: "shell".into(),
            description: "Run".into(),
            parameters: json(r#"{"type":"object"}"#),
        },
        ToolSpec {
            name: "not valid".into(),
            description: "Bad".into(),
            parameters: Json::Null,
        },
    ];
    let request = ChatRequest { messages: &messages, tools: Some(&tools) };
    let call = provider.chat(request, "m", &temperature("0.5")).unwrap();
    let body = value(&call.body.to_json());
    assert_eq!(body["tools"].as_array().unwrap().len(), 1);
    assert_eq!(body["tools"][0]["type"], "function");
    assert_eq!(body["tools"][0]["function"]["name"], "shell");
    assert_eq!(body["tools"][0]["function"]["description"], "Run");
    assert_eq!(body["tools"][0]["function"]["parameters"]["type"], "object");
    assert_eq!(body["tool_choice"], "auto");
}

#[test]
fn chat_without_tools_makes_no_choice() {
    let provider = OpenRouterProvider::new(Some("secret"), None);
    let messages = [ChatMessage::user("Hi")];
    for tools in [None, Some(&[][..])] {
        let request = ChatRequest { messages: &messages, tools };
        let call = provider.chat(request, "m", &temperature("0.5")).unwrap();
        let document = value(&call.body.to_json());
        assert!(document.get("tools").is_none());
        assert!(document.get("tool_choice").is_none());
    }
}

#[test]
fn chat_with_tools_fills_in_what_a_tool_lacks() {
    let provider = OpenRouterProvider::new(Some("secret"), None);
    let messages = [ChatMessage::user("Hi")];
    let tools = [
        json(r#"{"function":{"name":"bare"}}"#),
        json(r#"{"function":{"description":"no name"}}"#),
        json(r#"{"name":"no function"}"#),
        json(r#"{"function":{"name":"mcp:any.name","description":7,"parameters":[1]}}"#),
    ];
    let call = provider.chat_with_tools(&messages, &tools, "m", &temperature("0.5")).unwrap();
    let offered = call.body.tools.as_ref().unwrap();
    assert_eq!(offered.len(), 2);
    assert_eq!(offered[0].function.name, "bare");
    assert_eq!(offered[0].function.description, "");
    assert_eq!(offered[0].function.parameters.render(), "{}");
    assert_eq!(offered[1].function.name, "mcp:any.name");
    assert_eq!(offered[1].function.description, "");
    assert_eq!(offered[1].function.parameters.render(), "[1]");
    assert_eq!(call.body.tool_choice.as_deref(), Some("auto"));
}

#[test]
fn chat_with_tools_offers_none_where_no_value_is_a_tool() {
    let provider = OpenRouterProvider::new(Some("secret"), None);
    let messages = [ChatMessage::user("Hi")];
    for tools in [vec![], vec![Json::Null, json("[]")]] {
        let call = provider.chat_with_tools(&messages, &tools, "m", &temperature("0.5")).unwrap();
        assert!(call.body.tools.is_none());
        assert!(call.body.tool_choice.is_none());
    }
}

#[test]
fn key_is_shown_in_the_header_alone() {
    let messages = [ChatMessage::user("Hi")];
    let first = OpenRouterProvider::new(Some("first-key"), None)
        .chat_with_history(&messages, "m", &temperature("0.5"))
        .unwrap();
    let second = OpenRouterProvider::new(Some("second-key"), None)
        .chat_with_history(&messages, "m", &temperature("0.5"))
        .unwrap();
    assert_eq!(first.body.to_json().render(), second.body.to_json().render());
    assert_eq!(first.headers[1..], second.headers[1..]);
    assert_ne!(first.headers[0], second.headers[0]);
    assert!(!first.body.to_json().render().contains("first-key"));
}

#[test]
fn images_of_a_question_become_parts() {
    let provider = OpenRouterProvider::new(Some("secret"), None);
    let call = provider
        .chat_with_system(None, "[IMAGE:a.png][IMAGE: b.png ]", "m", &temperature("0.5"))
        .unwrap();
    match &call.body.messages[0].content {
        MessageContent::Parts(parts) => assert_eq!(parts.len(), 2),
        MessageContent::Text(text) => panic!("parts expected, got {text}"),
    }
    let body = value(&call.body.to_json());
    assert_eq!(body["messages"][0]["content"][0]["image_url"]["url"], "a.png");
    assert_eq!(body["messages"][0]["content"][1]["image_url"]["url"], "b.png");
}

#[test]
fn tool_values_are_taken_one_list_after_the_other() {
    let front = [json(r#"{"function":{"name":"a"}}"#), Json::Null];
    let back = [json(r#"{"function":{"name":"b"}}"#)];
    let mut whole = front.to_vec();
    whole.extend(back.to_vec());
    let names = |values: &[Json]| -> Vec<String> {
        let tools = OpenRouterProvider::convert_tool_values(values).unwrap_or_default();
        tools.iter().map(|tool| tool.function.name.clone()).collect()
    };
    assert_eq!(names(&whole), [names(&front), names(&back)].concat());
    assert_eq!(names(&whole), vec!["a".to_string(), "b".to_string()]);
}
