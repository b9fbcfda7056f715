use zeroclaw::agent::user_message::enrich_user_message;
use zeroclaw::json::Json;
use zeroclaw::outline::{array_to_json, Outline, ToJson};
use zeroclaw::providers::openrouter::OpenRouterProvider;
use zeroclaw::providers::traits::ChatMessage;
use zeroclaw::providers::wire::{
    ChatRequest, Message, MessageContent, NativeChatRequest, NativeMessage,
    NativeToolFunctionSpec, NativeToolSpec,
};

fn document(text: &str) -> Json {
    Json::parse(text).unwrap()
}

fn value(outline: &Outline) -> serde_json::Value {
    serde_json::from_str(&outline.render()).unwrap()
}

#[test]
fn chat_request_serializes_with_system_and_user() {
    let request = ChatRequest {
        model: "anthropic/sonnet-4".into(),
        messages: vec![
            Message {
                role: "system".into(),
                content: MessageContent::Text("You are helpful".into()),
            },
            Message {
                role: "user".into(),
                content: MessageContent::Text("Summarize this".into()),
            },
        ],
        temperature: Json::Float("0.5".into()),
        max_tokens: None,
    };

    let json = request.to_json().render();

    assert!(json.contains("anthropic/sonnet-4"));
    assert!(json.contains("\"role\":\"system\""));
    assert!(json.contains("\"role\":\"user\""));
    assert!(json.contains("\"temperature\":0.5"));
}

#[test]
fn chat_request_serializes_history_messages() {
    let messages = [
        ChatMessage {
            role: "assistant".into(),
            content: "Previous answer".into(),
            stable_prefix: None,
        },
        ChatMessage {
            role: "user".into(),
            content: "Follow-up".into(),
            stable_prefix: None,
        },
    ];

    let request = ChatRequest {
        model: "google/gemini-2.5-pro".into(),
        messages: messages
            .iter()
            .map(|msg| Message {
                role: msg.role.clone(),
                content: MessageContent::Text(msg.content.clone()),
            })
            .collect(),
        temperature: Json::Float("0.0".into()),
        max_tokens: None,
    };

    let json = request.to_json().render();
    assert!(json.contains("\"role\":\"assistant\""));
    assert!(json.contains("\"role\":\"user\""));
    assert!(json.contains("google/gemini-2.5-pro"));
}

#[test]
fn convert_messages_parses_assistant_tool_call_payload() {
    let messages = vec![ChatMessage {
        role: "assistant".into(),
        content: r#"{"content":"Using tool","tool_calls":[{"id":"call_abc","name":"shell","arguments":"{\"command\":\"pwd\"}"}]}"#
            .into(),
        stable_prefix: None,
    }];

    let converted = OpenRouterProvider::convert_messages(&messages);
    assert_eq!(converted.len(), 1);
    assert_eq!(converted[0].role, "assistant");
    assert_eq!(
        converted[0]
            .content
            .as_ref()
            .and_then(|content| match content {
                MessageContent::Text(value) => Some(value.as_str()),
                MessageContent::Parts(_) => None,
            }),
        Some("Using tool")
    );

    let tool_calls = converted[0].tool_calls.as_ref().unwrap();
    assert_eq!(tool_calls.len(), 1);
    assert_eq!(tool_calls[0].id.as_deref(), Some("call_abc"));
    assert_eq!(tool_calls[0].function.name, "shell");
    assert_eq!(tool_calls[0].function.arguments, r#"{"command":"pwd"}"#);
}

#[test]
fn convert_messages_parses_tool_result_payload() {
    let messages = vec![ChatMessage {
        role: "tool".into(),
        content: r#"{"tool_call_id":"call_xyz","content":"done"}"#.into(),
        stable_prefix: None,
    }];

    let converted = OpenRouterProvider::convert_messages(&messages);
    assert_eq!(converted.len(), 1);
    assert_eq!(converted[0].role, "tool");
    assert_eq!(converted[0].tool_call_id.as_deref(), Some("call_xyz"));
    assert_eq!(
        converted[0]
            .content
            .as_ref()
            .and_then(|content| match content {
                MessageContent::Text(value) => Some(value.as_str()),
                MessageContent::Parts(_) => None,
            }),
        Some("done")
    );
    assert!(converted[0].tool_calls.is_none());
}

#[test]
fn to_message_content_converts_image_markers_to_openai_parts() {
    let content = "Describe this\n\n[IMAGE:data:image/png;base64,abcd]";
    let value =
        value(&OpenRouterProvider::to_message_content("user", content).to_json());
    let parts = value
        .as_array()
        .expect("multimodal content should be an array");
    assert_eq!(parts.len(), 2);
    assert_eq!(parts[0]["type"], "text");
    assert_eq!(parts[0]["text"], "Describe this");
    assert_eq!(parts[1]["type"], "image_url");
    assert_eq!(parts[1]["image_url"]["url"], "data:image/png;base64,abcd");
}

#[test]
fn user_message_serializes_as_plain_string() {
    let content = OpenRouterProvider::to_message_content("user", "Hello");
    let json = value(&content.to_json());
    assert!(json.is_string(), "user content should be a plain string");
    assert_eq!(json.as_str().unwrap(), "Hello");
}

#[test]
fn assistant_message_serializes_as_plain_string() {
    let content = OpenRouterProvider::to_message_content("assistant", "Hi there.");
    let json = value(&content.to_json());
    assert!(
        json.is_string(),
        "assistant content should be a plain string"
    );
    assert_eq!(json.as_str().unwrap(), "Hi there.");
}

#[test]
fn cache_control_not_serialized_for_user_image_text_part() {
    let content = OpenRouterProvider::to_message_content(
        "user",
        "Describe this\n\n[IMAGE:data:image/png;base64,abcd]",
    );
    let json = value(&content.to_json());
    let parts = json.as_array().expect("multimodal content should be array");
    let text_part = &parts[0];
    assert_eq!(text_part["type"], "text");
    assert!(
        text_part.get("cache_control").is_none() || text_part["cache_control"].is_null(),
        "cache_control should not appear on user image text parts"
    );
}

#[test]
fn full_native_request_serializes_system_as_blocks_user_as_string() {
    let messages = vec![
        ChatMessage {
            role: "system".into(),
            content: "Be helpful".into(),
            stable_prefix: None,
        },
        ChatMessage {
            role: "user".into(),
            content: "Hi".into(),
            stable_prefix: None,
        },
    ];
    let native = OpenRouterProvider::convert_messages(&messages);
    assert_eq!(native.len(), 2);

    let sys_json = value(&native[0].content.as_ref().unwrap().to_json());
    let sys_content = sys_json.as_array().expect("system content should be array");
    assert_eq!(sys_content[0]["cache_control"]["type"], "ephemeral");

    let user_json = value(&native[1].content.as_ref().unwrap().to_json());
    assert!(user_json.is_string(), "user content should be string");
}

#[test]
fn system_message_with_stable_prefix_emits_two_blocks() {
    let content = OpenRouterProvider::system_message_content(Some("STABLE"), "DYNAMIC");
    let json = value(&content.to_json());
    let parts = json.as_array().expect("system content should be an array");
    assert_eq!(parts.len(), 2, "expected stable + dynamic blocks");

    assert_eq!(parts[0]["type"], "text");
    assert_eq!(parts[0]["text"], "STABLE");
    assert_eq!(parts[0]["cache_control"]["type"], "ephemeral");

    assert_eq!(parts[1]["type"], "text");
    assert_eq!(parts[1]["text"], "DYNAMIC");
}

#[test]
fn system_message_without_stable_prefix_emits_single_cached_block() {
    let content = OpenRouterProvider::system_message_content(None, "WHOLE");
    let json = value(&content.to_json());
    let parts = json.as_array().expect("system content should be an array");
    assert_eq!(parts.len(), 1, "no stable prefix → single block");

    assert_eq!(parts[0]["type"], "text");
    assert_eq!(parts[0]["text"], "WHOLE");
    assert_eq!(parts[0]["cache_control"]["type"], "ephemeral");
}

#[test]
fn system_message_with_stable_prefix_and_empty_content_omits_dynamic_block() {
    let content = OpenRouterProvider::system_message_content(Some("STABLE"), "");
    let json = value(&content.to_json());
    let parts = json.as_array().unwrap();
    assert_eq!(parts.len(), 1, "empty content → omit dynamic block");
    assert_eq!(parts[0]["text"], "STABLE");
    assert_eq!(parts[0]["cache_control"]["type"], "ephemeral");
}

#[test]
fn system_message_with_empty_stable_prefix_falls_back_to_single_block() {
    let content = OpenRouterProvider::system_message_content(Some(""), "WHOLE");
    let json = value(&content.to_json());
    let parts = json.as_array().expect("system content should be an array");
    assert_eq!(parts.len(), 1, "empty prefix collapses to single block");

    assert_eq!(parts[0]["text"], "WHOLE");
    assert_eq!(parts[0]["cache_control"]["type"], "ephemeral");
}

#[test]
fn system_message_with_whitespace_only_stable_prefix_falls_back_to_single_block() {
    let content = OpenRouterProvider::system_message_content(Some("   \n"), "WHOLE");
    let json = value(&content.to_json());
    let parts = json.as_array().unwrap();
    assert_eq!(
        parts.len(),
        1,
        "whitespace-only prefix collapses to single block"
    );
    assert_eq!(parts[0]["text"], "WHOLE");
}

#[test]
fn system_message_blocks_preserve_stable_then_dynamic_order() {
    let content =
        OpenRouterProvider::system_message_content(Some("STABLE_FIRST"), "DYNAMIC_SECOND");
    let json = value(&content.to_json());
    let parts = json.as_array().unwrap();

    assert_eq!(parts[0]["text"], "STABLE_FIRST");
    assert!(parts[0].get("cache_control").is_some());
    assert_eq!(parts[1]["text"], "DYNAMIC_SECOND");
}

#[test]
fn convert_messages_system_with_stable_prefix_emits_two_blocks() {
    let messages = vec![
        ChatMessage::system_with_stable_prefix("STABLE", "DYNAMIC"),
        ChatMessage::user("Hi"),
    ];
    let native = OpenRouterProvider::convert_messages(&messages);
    assert_eq!(native.len(), 2);

    let sys_json = value(&native[0].content.as_ref().unwrap().to_json());
    let parts = sys_json.as_array().expect("system content should be array");
    assert_eq!(parts.len(), 2, "stable_prefix should produce 2 blocks");
    assert_eq!(parts[0]["text"], "STABLE");
    assert_eq!(parts[0]["cache_control"]["type"], "ephemeral");
    assert_eq!(parts[1]["text"], "DYNAMIC");
    assert!(parts[1].get("cache_control").is_none());

    let user_json = value(&native[1].content.as_ref().unwrap().to_json());
    assert!(user_json.is_string());
}

#[test]
fn convert_messages_applies_stable_prefix_per_system_message() {
    let messages = vec![
        ChatMessage::system("first plain"),
        ChatMessage::system_with_stable_prefix("second-stable", "second-dynamic"),
        ChatMessage::user("Hi"),
    ];
    let native = OpenRouterProvider::convert_messages(&messages);
    assert_eq!(native.len(), 3);

    let first = value(&native[0].content.as_ref().unwrap().to_json());
    let first_parts = first.as_array().unwrap();
    assert_eq!(first_parts.len(), 1);
    assert_eq!(first_parts[0]["text"], "first plain");

    let second = value(&native[1].content.as_ref().unwrap().to_json());
    let second_parts = second.as_array().unwrap();
    assert_eq!(second_parts.len(), 2);
    assert_eq!(second_parts[0]["text"], "second-stable");
    assert_eq!(second_parts[1]["text"], "second-dynamic");
}

#[test]
fn chat_request_body_contains_split_system_blocks_when_stable_prefix_set() {
    let messages = vec![
        ChatMessage::system_with_stable_prefix("STABLE_BYTES", "DYNAMIC_BYTES"),
        ChatMessage::user("Hello"),
    ];
    let native = OpenRouterProvider::convert_messages(&messages);
    let request = NativeChatRequest {
        model: "test-model".to_string(),
        messages: native,
        temperature: Json::Float("0.0".into()),
        tools: None,
        tool_choice: None,
        max_tokens: None,
    };
    let body = value(&request.to_json());
    let messages = body["messages"].as_array().unwrap();

    assert_eq!(messages[0]["role"], "system");
    let parts = messages[0]["content"].as_array().unwrap();
    assert_eq!(
        parts.len(),
        2,
        "system must serialize as 2 blocks on the wire"
    );
    assert_eq!(parts[0]["text"], "STABLE_BYTES");
    assert_eq!(parts[0]["cache_control"]["type"], "ephemeral");
    assert_eq!(parts[1]["text"], "DYNAMIC_BYTES");
    assert!(parts[1].get("cache_control").is_none());
}

#[test]
fn convert_messages_user_assistant_tool_unchanged_when_stable_prefix_present() {
    let with_prefix = vec![
        ChatMessage {
            role: "user".into(),
            content: "U".into(),
            stable_prefix: Some("ignored".into()),
        },
        ChatMessage {
            role: "assistant".into(),
            content: "A".into(),
            stable_prefix: Some("ignored".into()),
        },
    ];
    let without_prefix = vec![ChatMessage::user("U"), ChatMessage::assistant("A")];

    let with = OpenRouterProvider::convert_messages(&with_prefix);
    let without = OpenRouterProvider::convert_messages(&without_prefix);

    assert_eq!(
        value(&array_to_json(&with)),
        value(&array_to_json(&without)),
        "stable_prefix on non-system roles must not affect serialization"
    );
}

#[test]
fn to_history_message_system_with_stable_prefix_emits_two_blocks() {
    let msg = ChatMessage::system_with_stable_prefix("STABLE", "DYNAMIC");
    let api = OpenRouterProvider::to_history_message(&msg);
    assert_eq!(api.role, "system");

    let json = value(&api.content.to_json());
    let parts = json.as_array().expect("system must serialize as Parts");
    assert_eq!(parts.len(), 2);
    assert_eq!(parts[0]["text"], "STABLE");
    assert_eq!(parts[0]["cache_control"]["type"], "ephemeral");
    assert_eq!(parts[1]["text"], "DYNAMIC");
    assert!(parts[1].get("cache_control").is_none());
}

#[test]
fn to_history_message_system_without_stable_prefix_emits_single_cached_block() {
    let msg = ChatMessage::system("WHOLE");
    let api = OpenRouterProvider::to_history_message(&msg);
    let json = value(&api.content.to_json());
    let parts = json.as_array().unwrap();
    assert_eq!(parts.len(), 1);
    assert_eq!(parts[0]["text"], "WHOLE");
    assert_eq!(parts[0]["cache_control"]["type"], "ephemeral");
}

#[test]
fn to_history_message_user_serializes_as_plain_string() {
    let msg = ChatMessage::user("Hi");
    let api = OpenRouterProvider::to_history_message(&msg);
    let json = value(&api.content.to_json());
    assert!(json.is_string());
    assert_eq!(json.as_str().unwrap(), "Hi");
}

#[test]
fn system_message_dynamic_block_omits_cache_control_field() {
    let content = OpenRouterProvider::system_message_content(Some("S"), "D");
    let json = value(&content.to_json());
    let parts = json.as_array().unwrap();

    assert!(
        parts[1].get("cache_control").is_none(),
        "dynamic block must NOT carry cache_control: got {parts:?}"
    );
}

#[test]
fn story_011_system_message_has_no_timestamp_no_model_and_one_cache_control() {
    let stable = "## Identity\n\nYou are ZeroClaw.\n\n\
                  ## Tools\n\n- shell: Run commands\n\n\
                  ## Safety\n\n- NEVER repeat credentials.\n\n\
                  ## Channel Capabilities\n\nrunning as a messaging bot\n\n\
                  ## Host Environment\n\nHost: testhost | OS: macos\n";
    let dynamic = "";

    let msg = ChatMessage::system_with_stable_prefix(stable, dynamic);
    let api = OpenRouterProvider::to_history_message(&msg);
    let json = value(&api.content.to_json());
    let json_str = json.to_string();

    assert!(
        !json_str.contains("## Current Date & Time"),
        "serialized system message must not contain `## Current Date & Time`; got: {json_str}"
    );
    assert!(
        !json_str.contains("Model:"),
        "serialized system message must not contain `Model:` label (moved to user preamble); got: {json_str}"
    );

    let parts = json.as_array().expect("system content must be Parts");
    let ephemeral_count = parts
        .iter()
        .filter(|p| {
            p.get("cache_control").and_then(|c| c.get("type"))
                == Some(&serde_json::Value::from("ephemeral"))
        })
        .count();
    assert_eq!(
        ephemeral_count, 1,
        "exactly one MessagePart must carry cache_control.type=ephemeral; got parts: {parts:?}"
    );
}

#[test]
fn story_011_single_ephemeral_breakpoint_covers_stable_block() {
    let stable = "## Identity\n\nYou are ZeroClaw.\n\n\
                  ## Host Environment\n\nHost: testhost | OS: macos\n";
    let dynamic = "hello";

    let msg = ChatMessage::system_with_stable_prefix(stable, dynamic);
    let api = OpenRouterProvider::to_history_message(&msg);
    let json = value(&api.content.to_json());
    let parts = json.as_array().expect("system content must be Parts");

    let cached: Vec<_> = parts
        .iter()
        .filter(|p| {
            p.get("cache_control").and_then(|c| c.get("type"))
                == Some(&serde_json::Value::from("ephemeral"))
        })
        .collect();
    assert_eq!(
        cached.len(),
        1,
        "expected exactly one ephemeral breakpoint, got {cached:?}"
    );
    let cached_text = cached[0]["text"]
        .as_str()
        .expect("cached part must have text");
    assert!(
        cached_text.contains("## Host Environment"),
        "the single ephemeral breakpoint must cover the stable block (which contains `## Host Environment`); got cached text: {cached_text}"
    );
}

#[test]
fn convert_messages_round_trips_reasoning_content() {
    let history_json = document(
        r#"{
            "content": "I will check",
            "tool_calls": [{
                "id": "tc_1",
                "name": "shell",
                "arguments": "{}"
            }],
            "reasoning_content": "Let me think..."
        }"#,
    );

    let messages = vec![ChatMessage {
        role: "assistant".into(),
        content: history_json.render(),
        stable_prefix: None,
    }];
    let native = OpenRouterProvider::convert_messages(&messages);
    assert_eq!(native.len(), 1);
    assert_eq!(
        native[0].reasoning_content.as_deref(),
        Some("Let me think...")
    );
}

#[test]
fn convert_messages_no_reasoning_content_when_absent() {
    let history_json = document(
        r#"{
            "content": "I will check",
            "tool_calls": [{
                "id": "tc_1",
                "name": "shell",
                "arguments": "{}"
            }]
        }"#,
    );

    let messages = vec![ChatMessage {
        role: "assistant".into(),
        content: history_json.render(),
        stable_prefix: None,
    }];
    let native = OpenRouterProvider::convert_messages(&messages);
    assert_eq!(native.len(), 1);
    assert!(native[0].reasoning_content.is_none());
}

#[test]
fn native_message_omits_reasoning_content_when_none() {
    let msg = NativeMessage {
        role: "assistant".to_string(),
        content: Some(MessageContent::Text("hi".into())),
        tool_call_id: None,
        tool_calls: None,
        reasoning_content: None,
    };
    let json = msg.to_json().render();
    assert!(!json.contains("reasoning_content"));
}

#[test]
fn native_message_includes_reasoning_content_when_some() {
    let msg = NativeMessage {
        role: "assistant".to_string(),
        content: Some(MessageContent::Text("hi".into())),
        tool_call_id: None,
        tool_calls: None,
        reasoning_content: Some("thinking...".to_string()),
    };
    let json = msg.to_json().render();
    assert!(json.contains("reasoning_content"));
    assert!(json.contains("thinking..."));
}

#[test]
fn tool_result_without_content_keeps_its_text() {
    let text = r#"{"tool_call_id":"call_1","content":7}"#;
    let messages = vec![ChatMessage {
        role: "tool".into(),
        content: text.into(),
        stable_prefix: None,
    }];
    let converted = OpenRouterProvider::convert_messages(&messages);
    assert_eq!(converted[0].tool_call_id.as_deref(), Some("call_1"));
    match converted[0].content.as_ref().unwrap() {
        MessageContent::Text(value) => assert_eq!(value, text),
        MessageContent::Parts(_) => panic!("text expected"),
    }
}

#[test]
fn tool_result_that_is_no_document_is_a_plain_message() {
    let messages = vec![ChatMessage {
        role: "tool".into(),
        content: "not json".into(),
        stable_prefix: None,
    }];
    let converted = OpenRouterProvider::convert_messages(&messages);
    assert_eq!(converted[0].role, "tool");
    assert!(converted[0].tool_call_id.is_none());
    assert_eq!(
        value(&converted[0].content.as_ref().unwrap().to_json()),
        serde_json::Value::from("not json")
    );
}

#[test]
fn assistant_document_without_readable_calls_is_a_plain_message() {
    for text in [
        r#"{"content":"hi"}"#,
        r#"{"content":"hi","tool_calls":"none"}"#,
        r#"{"content":"hi","tool_calls":[{"id":"a","name":"b"}]}"#,
        r#"{"content":"hi","tool_calls":[{"id":"a","name":"b","arguments":{}}]}"#,
        "[1, 2",
    ] {
        let converted = OpenRouterProvider::convert_messages(&[ChatMessage::assistant(text)]);
        assert!(converted[0].tool_calls.is_none());
        assert!(converted[0].reasoning_content.is_none());
        assert_eq!(
            value(&converted[0].content.as_ref().unwrap().to_json()),
            serde_json::Value::from(text)
        );
    }
}

#[test]
fn assistant_calls_may_be_empty_and_content_missing() {
    let message = ChatMessage::assistant(r#"{"tool_calls":[]}"#);
    let converted = OpenRouterProvider::convert_messages(&[message]);
    assert!(converted[0].content.is_none());
    assert_eq!(converted[0].tool_calls.as_ref().unwrap().len(), 0);
    assert_eq!(
        converted[0].to_json().render(),
        r#"{"role":"assistant","tool_calls":[]}"#
    );
}

#[test]
fn converting_one_message_takes_the_document_as_given() {
    let message = ChatMessage::assistant("not json");
    let given = Some(document(
        r#"{"content":"said","tool_calls":[{"id":"i","name":"n","arguments":"a"}]}"#,
    ));
    let converted = OpenRouterProvider::convert_message(&message, &given);
    let calls = converted.tool_calls.as_ref().unwrap();
    assert_eq!(calls[0].id.as_deref(), Some("i"));
    assert_eq!(calls[0].kind.as_deref(), Some("function"));
    let plain = OpenRouterProvider::convert_message(&message, &None);
    assert!(plain.tool_calls.is_none());
}

#[test]
fn recorded_answer_goes_back_from_its_text() {
    let record = document(
        r#"{"content":"on it","reasoning_content":"hm","tool_calls":[
            {"id":"1","name":"a","arguments":"{}"},{"id":"2","name":"b","arguments":"[]"}]}"#,
    );
    let converted =
        OpenRouterProvider::convert_messages(&[ChatMessage::assistant(&record.render())]);
    assert_eq!(
        converted[0].to_json().render(),
        concat_lines(&[
            r#"{"role":"assistant","content":"on it","tool_calls":["#,
            r#"{"id":"1","type":"function","function":{"name":"a","arguments":"{}"}},"#,
            r#"{"id":"2","type":"function","function":{"name":"b","arguments":"[]"}}],"#,
            r#""reasoning_content":"hm"}"#,
        ])
    );
}

fn concat_lines(lines: &[&str]) -> String {
    lines.concat()
}

#[test]
fn messages_are_converted_one_by_one() {
    let front = [ChatMessage::system("S"), ChatMessage::user("U [IMAGE:x]")];
    let back = [ChatMessage::assistant("A"), ChatMessage::user("V")];
    let mut whole = front.to_vec();
    whole.extend(back.to_vec());
    let mut parts = OpenRouterProvider::convert_messages(&front);
    parts.extend(OpenRouterProvider::convert_messages(&back));
    let together = OpenRouterProvider::convert_messages(&whole);
    assert_eq!(together.len(), 4);
    assert_eq!(array_to_json(&together).render(), array_to_json(&parts).render());
}

#[test]
fn no_part_of_a_split_system_message_is_empty() {
    for content in ["", "x", " "] {
        let said =
            value(&OpenRouterProvider::system_message_content(Some(" a "), content).to_json());
        for part in said.as_array().unwrap() {
            assert!(!part["text"].as_str().unwrap().is_empty());
        }
    }
}

#[test]
fn cached_part_does_not_change_with_the_rest() {
    let one = value(&OpenRouterProvider::system_message_content(Some("P"), "monday").to_json());
    let two = value(&OpenRouterProvider::system_message_content(Some("P"), "tuesday").to_json());
    assert_eq!(one[0], two[0]);
    assert_ne!(one, two);
}

#[test]
fn unicode_blank_prefix_counts_as_none() {
    let blank = "\u{a0}\u{2003}\u{3000}\t";
    let with = OpenRouterProvider::system_message_content(Some(blank), "W").to_json();
    let without = OpenRouterProvider::system_message_content(None, "W").to_json();
    assert_eq!(with.render(), without.render());
}

#[test]
fn markers_without_reference_or_end_are_text() {
    for content in ["[IMAGE:]", "[IMAGE:  ]", "[IMAGE:open", "[image:x]", "see ]"] {
        let said = OpenRouterProvider::to_message_content("user", content);
        assert_eq!(value(&said.to_json()), serde_json::Value::from(content));
    }
}

#[test]
fn other_roles_keep_their_markers() {
    let said = OpenRouterProvider::to_message_content("assistant", "[IMAGE:x]");
    assert_eq!(value(&said.to_json()), serde_json::Value::from("[IMAGE:x]"));
}

#[test]
fn text_around_images_is_joined_and_trimmed() {
    let said = OpenRouterProvider::to_message_content("user", " a [IMAGE:1] b [IMAGE:2] ");
    assert_eq!(
        said.to_json().render(),
        concat_lines(&[
            r#"[{"type":"text","text":"a  b"},"#,
            r#"{"type":"image_url","image_url":{"url":"1"}},"#,
            r#"{"type":"image_url","image_url":{"url":"2"}}]"#,
        ])
    );
}

#[test]
fn request_members_are_there_where_they_have_values() {
    let request = NativeChatRequest {
        model: "m".into(),
        messages: vec![],
        temperature: Json::Unsigned(1),
        tools: None,
        tool_choice: Some("auto".into()),
        max_tokens: Some(9),
    };
    assert_eq!(
        request.to_json().render(),
        r#"{"model":"m","messages":[],"temperature":1,"tool_choice":"auto","max_tokens":9}"#
    );
}

#[test]
fn time_of_the_turn_reaches_the_model() {
    let plain = enrich_user_message("2026-04-17 10:00:00 +02:00", "hello", "memory\n");
    let said = value(&OpenRouterProvider::to_message_content("user", &plain).to_json());
    assert!(said.as_str().unwrap().contains("[2026-04-17 10:00:00 +02:00]"));
    let images = enrich_user_message(
        "2026-04-17 10:00:00 +02:00",
        "[IMAGE:a.png] what is this?",
        "  [IMAGE:old.png]",
    );
    let said = value(&OpenRouterProvider::to_message_content("user", &images).to_json());
    let parts = said.as_array().unwrap();
    assert_eq!(
        parts[0]["text"],
        "[2026-04-17 10:00:00 +02:00]  what is this?"
    );
    assert_eq!(parts.len(), 3);
}

#[test]
fn message_says_the_same_with_and_without_tools() {
    for message in [
        ChatMessage::system_with_stable_prefix("P", "C"),
        ChatMessage::user("look [IMAGE:x]"),
        ChatMessage::assistant("plain"),
    ] {
        let history = OpenRouterProvider::to_history_message(&message);
        let native = OpenRouterProvider::convert_messages(&[message]);
        assert_eq!(history.to_json().render(), native[0].to_json().render());
    }
}

#[test]
fn request_is_written_in_the_order_of_its_members() {
    let messages = [
        ChatMessage::system_with_stable_prefix("S", "D \"quoted\""),
        ChatMessage::user("\u{1f600}\n"),
    ];
    let request = NativeChatRequest {
        model: "m".into(),
        messages: OpenRouterProvider::convert_messages(&messages),
        temperature: Json::Float("0.7".into()),
        tools: Some(vec![NativeToolSpec {
            kind: "function".into(),
            function: NativeToolFunctionSpec {
                name: "n".into(),
                description: "d".into(),
                parameters: document(r#"{"type":"object","properties":{"z":1,"a":2}}"#),
            },
        }]),
        tool_choice: Some("auto".into()),
        max_tokens: None,
    };
    assert_eq!(
        request.to_json().render(),
        concat_lines(&[
            r#"{"model":"m","messages":[{"role":"system","content":["#,
            r#"{"type":"text","text":"S","cache_control":{"type":"ephemeral"}},"#,
            r#"{"type":"text","text":"D \"quoted\""}]},"#,
            "{\"role\":\"user\",\"content\":\"\u{1f600}\\n\"}],",
            r#""temperature":0.7,"tools":[{"type":"function","function":"#,
            r#"{"name":"n","description":"d","parameters":"#,
            r#"{"properties":{"a":2,"z":1},"type":"object"}}}],"tool_choice":"auto"}"#,
        ])
    );
}

#[test]
fn empty_arrays_and_objects_are_written() {
    assert_eq!(Outline::Array(vec![]).render(), "[]");
    assert_eq!(Outline::Object(vec![]).render(), "{}");
    assert_eq!(
        Outline::Object(vec![("a\"b", Outline::Value(Json::Null))]).render(),
        r#"{"a\"b":null}"#
    );
}
