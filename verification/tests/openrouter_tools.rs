use zeroclaw::json::Json;
use zeroclaw::providers::openrouter::tool_specs::is_valid_openai_tool_name;
use zeroclaw::providers::openrouter::OpenRouterProvider;
use zeroclaw::tools::ToolSpec;

fn document(text: &str) -> Json {
    Json::parse(text).unwrap()
}

#[test]
fn valid_openai_tool_names() {
    assert!(is_valid_openai_tool_name("shell"));
    assert!(is_valid_openai_tool_name("file_read"));
    assert!(is_valid_openai_tool_name("web-search"));
    assert!(is_valid_openai_tool_name("Tool123"));
    assert!(is_valid_openai_tool_name("a"));
}

#[test]
fn invalid_openai_tool_names() {
    assert!(!is_valid_openai_tool_name(""));
    assert!(!is_valid_openai_tool_name("mcp:server.tool"));
    assert!(!is_valid_openai_tool_name("node.js"));
    assert!(!is_valid_openai_tool_name("tool name"));
    assert!(!is_valid_openai_tool_name(
        "this_tool_name_is_way_too_long_and_exceeds_the_sixty_four_character_limit_xxxxx"
    ));
}

#[test]
fn convert_tools_skips_invalid_names() {
    let tools = vec![
        ToolSpec {
            name: "valid_tool".into(),
            description: "A valid tool".into(),
            parameters: document(r#"{"type": "object"}"#),
        },
        ToolSpec {
            name: "mcp:server.bad".into(),
            description: "Invalid name".into(),
            parameters: document(r#"{"type": "object"}"#),
        },
        ToolSpec {
            name: "another-valid".into(),
            description: "Also valid".into(),
            parameters: document(r#"{"type": "object"}"#),
        },
    ];

    let result = OpenRouterProvider::convert_tools(Some(&tools)).unwrap();
    assert_eq!(result.len(), 2);
    assert_eq!(result[0].function.name, "valid_tool");
    assert_eq!(result[1].function.name, "another-valid");
}

#[test]
fn convert_tools_returns_none_when_all_invalid() {
    let tools = vec![ToolSpec {
        name: "mcp:bad.name".into(),
        description: "Invalid".into(),
        parameters: document(r#"{"type": "object"}"#),
    }];

    assert!(OpenRouterProvider::convert_tools(Some(&tools)).is_none());
}

#[test]
fn tool_names_have_at_most_sixty_four_characters() {
    assert!(is_valid_openai_tool_name(&"x".repeat(64)));
    assert!(!is_valid_openai_tool_name(&"x".repeat(65)));
    assert!(!is_valid_openai_tool_name("caf\u{e9}"));
    assert!(!is_valid_openai_tool_name("\u{ff21}"));
}

#[test]
fn convert_tools_returns_none_without_tools() {
    assert!(OpenRouterProvider::convert_tools(None).is_none());
    assert!(OpenRouterProvider::convert_tools(Some(&[])).is_none());
}

#[test]
fn convert_tools_keeps_description_and_parameters() {
    let tools = [ToolSpec {
        name: "t".into(),
        description: "d".into(),
        parameters: document(r#"{"b":[1,-2,"x",null,true],"a":{}}"#),
    }];
    let offered = OpenRouterProvider::convert_tools(Some(&tools)).unwrap();
    assert_eq!(offered[0].kind, "function");
    assert_eq!(offered[0].function.description, "d");
    assert_eq!(
        offered[0].function.parameters.render(),
        r#"{"a":{},"b":[1,-2,"x",null,true]}"#
    );
}
