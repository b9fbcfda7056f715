use std::time::Duration;
use zeroclaw::json::Json;
use zeroclaw::observability::llm_documents::LlmTexts;
use zeroclaw::observability::otel::{is_countable, OtelObserver};
use zeroclaw::observability::telemetry::{
    Attribute, AttributeValue, Elapsed, Instrument, InstrumentKind, Signal, Span, SpanKind,
    SpanStatus,
};
use zeroclaw::observability::traits::{
    MessageSnapshot, ObserverEvent, ObserverMetric, ToolCallSnapshot, ToolSpecSnapshot, UsdAmount,
};

fn test_observer() -> OtelObserver {
    OtelObserver::new(Some("http://127.0.0.1:19999"), Some("zeroclaw-test"))
}

fn llm_response(success: bool, input_tokens: Option<u64>, output_tokens: Option<u64>) -> ObserverEvent {
    ObserverEvent::LlmResponse {
        provider: "openrouter".into(),
        model: "sonnet".into(),
        duration: Duration::from_millis(250),
        success,
        error_message: None,
        system_prompt: None,
        input_messages: Vec::new(),
        tool_definitions: Vec::new(),
        input_tokens,
        output_tokens,
        cache_read_input_tokens: None,
        cache_creation_input_tokens: None,
        output_text: None,
        output_tool_calls: Vec::new(),
    }
}

fn text<'a>(attributes: &'a [Attribute], key: &str) -> Option<&'a str> {
    attributes.iter().find(|attribute| attribute.key == key).map(|attribute| {
        match &attribute.value {
            AttributeValue::Text(text) => text.as_str(),
            other => panic!("text expected, got {other:?}"),
        }
    })
}

fn number(attributes: &[Attribute], key: &str) -> Option<i64> {
    attributes.iter().find(|attribute| attribute.key == key).map(|attribute| {
        match attribute.value {
            AttributeValue::Number(number) => number,
            ref other => panic!("number expected, got {other:?}"),
        }
    })
}

fn keys(attributes: &[Attribute]) -> Vec<&str> {
    attributes.iter().map(|attribute| attribute.key).collect()
}

fn span(signals: &[Signal]) -> &Span {
    signals
        .iter()
        .find_map(|signal| match signal {
            Signal::Emit(span) => Some(span),
            _ => None,
        })
        .expect("a span")
}

fn added(signals: &[Signal], instrument: Instrument) -> Option<u64> {
    signals.iter().find_map(|signal| match signal {
        Signal::Add { counter, value, .. } if *counter == instrument => Some(*value),
        _ => None,
    })
}

#[test]
fn otel_observer_name() {
    let obs = test_observer();
    assert_eq!(obs.name(), "otel");
}

#[test]
fn records_all_events_without_panic() {
    let obs = test_observer();
    let count = |event: ObserverEvent| obs.record_event(&event).len();
    assert_eq!(
        count(ObserverEvent::AgentStart {
            provider: "openrouter".into(),
            model: "sonnet".into(),
        }),
        1
    );
    assert_eq!(
        count(ObserverEvent::LlmRequest {
            provider: "openrouter".into(),
            model: "sonnet".into(),
            messages_count: 2,
        }),
        0
    );
    assert_eq!(count(llm_response(true, Some(100), Some(50))), 3);
    assert_eq!(
        count(ObserverEvent::AgentEnd {
            provider: "openrouter".into(),
            model: "sonnet".into(),
            duration: Duration::from_millis(500),
            tokens_used: Some(100),
            cost_usd: Some(UsdAmount { bits: 0.0015f64.to_bits() }),
        }),
        2
    );
    assert_eq!(
        count(ObserverEvent::AgentEnd {
            provider: "openrouter".into(),
            model: "sonnet".into(),
            duration: Duration::ZERO,
            tokens_used: None,
            cost_usd: None,
        }),
        2
    );
    assert_eq!(
        count(ObserverEvent::ToolCallStart {
            tool: "shell".into(),
            arguments: None,
            tool_call_id: None,
        }),
        0
    );
    assert_eq!(
        count(ObserverEvent::ToolCall {
            tool: "shell".into(),
            duration: Duration::from_millis(10),
            success: true,
            tool_call_id: None,
            arguments: None,
            result: None,
        }),
        3
    );
    assert_eq!(
        count(ObserverEvent::ToolCall {
            tool: "file_read".into(),
            duration: Duration::from_millis(5),
            success: false,
            tool_call_id: None,
            arguments: None,
            result: None,
        }),
        3
    );
    assert_eq!(count(ObserverEvent::TurnComplete), 0);
    assert_eq!(
        count(ObserverEvent::ChannelMessage {
            channel: "telegram".into(),
            direction: "inbound".into(),
        }),
        1
    );
    assert_eq!(count(ObserverEvent::HeartbeatTick), 1);
    assert_eq!(
        count(ObserverEvent::Error {
            component: "provider".into(),
            message: "timeout".into(),
        }),
        2
    );
}

#[test]
fn records_all_metrics_without_panic() {
    let obs = test_observer();
    let count = |metric: ObserverMetric| obs.record_metric(&metric).len();
    assert_eq!(count(ObserverMetric::RequestLatency(Duration::from_secs(2))), 1);
    assert_eq!(count(ObserverMetric::TokensUsed(500)), 1);
    assert_eq!(count(ObserverMetric::TokensUsed(0)), 1);
    assert_eq!(count(ObserverMetric::ActiveSessions(3)), 1);
    assert_eq!(count(ObserverMetric::QueueDepth(42)), 1);
}

#[test]
fn otel_records_error_event_without_panic() {
    let obs = test_observer();
    let signals = obs.record_event(&ObserverEvent::Error {
        component: "provider".into(),
        message: "connection refused to model endpoint".into(),
    });
    let shown = span(&signals);
    assert_eq!(shown.name, "error");
    assert!(shown.elapsed.is_none());
    assert_eq!(text(&shown.attributes, "component"), Some("provider"));
    assert_eq!(
        text(&shown.attributes, "error.message"),
        Some("connection refused to model endpoint")
    );
    assert!(matches!(
        &shown.status,
        SpanStatus::Failure(message) if message == "connection refused to model endpoint"
    ));
    assert_eq!(added(&signals, Instrument::Errors), Some(1));
}

#[test]
fn otel_records_llm_failure_without_panic() {
    let obs = test_observer();
    let signals = obs.record_event(&ObserverEvent::LlmResponse {
        provider: "openrouter".into(),
        model: "missing-model".into(),
        duration: Duration::from_millis(0),
        success: false,
        error_message: Some("404 Not Found".into()),
        system_prompt: None,
        input_messages: Vec::new(),
        tool_definitions: Vec::new(),
        input_tokens: None,
        output_tokens: None,
        cache_read_input_tokens: None,
        cache_creation_input_tokens: None,
        output_text: None,
        output_tool_calls: Vec::new(),
    });
    let shown = span(&signals);
    assert!(matches!(&shown.status, SpanStatus::Failure(message) if message.is_empty()));
    assert_eq!(
        keys(&shown.attributes),
        vec![
            "provider",
            "model",
            "success",
            "duration_s",
            "gen_ai.system",
            "gen_ai.operation.name",
            "gen_ai.request.model",
            "gen_ai.response.model",
            "gen_ai.output.messages",
        ]
    );
}

#[test]
fn otel_records_zero_duration_metrics() {
    let obs = test_observer();
    let latency = obs.record_metric(&ObserverMetric::RequestLatency(Duration::ZERO));
    assert!(matches!(
        &latency[..],
        [Signal::Record {
            histogram: Instrument::RequestLatency,
            value: Elapsed::Exact(Duration::ZERO),
            ..
        }]
    ));
    let tokens = obs.record_metric(&ObserverMetric::TokensUsed(0));
    assert_eq!(added(&tokens, Instrument::TokensUsed), Some(0));
    let sessions = obs.record_metric(&ObserverMetric::ActiveSessions(0));
    assert!(matches!(
        &sessions[..],
        [Signal::Level { gauge: Instrument::ActiveSessions, value: 0 }]
    ));
    let depth = obs.record_metric(&ObserverMetric::QueueDepth(0));
    assert!(matches!(
        &depth[..],
        [Signal::Level { gauge: Instrument::QueueDepth, value: 0 }]
    ));
}

#[test]
fn otel_hand_events_do_not_panic() {
    let obs = test_observer();
    assert!(obs
        .record_event(&ObserverEvent::HandStarted { hand_name: "review".into() })
        .is_empty());
    let completed = obs.record_event(&ObserverEvent::HandCompleted {
        hand_name: "review".into(),
        duration_ms: 1500,
        findings_count: 3,
    });
    assert_eq!(span(&completed).name, "hand.run");
    assert_eq!(number(&span(&completed).attributes, "hand.findings"), Some(3));
    assert!(matches!(span(&completed).elapsed, Some(Elapsed::Millis(1500))));
    assert!(matches!(span(&completed).status, SpanStatus::Success));
    assert_eq!(added(&completed, Instrument::HandRuns), Some(1));
    assert_eq!(added(&completed, Instrument::HandFindings), Some(3));
    let failed = obs.record_event(&ObserverEvent::HandFailed {
        hand_name: "review".into(),
        error: "timeout".into(),
        duration_ms: 5000,
    });
    assert_eq!(text(&span(&failed).attributes, "error.message"), Some("timeout"));
    assert!(matches!(&span(&failed).status, SpanStatus::Failure(error) if error == "timeout"));
    assert_eq!(added(&failed, Instrument::HandFindings), None);
}

#[test]
fn otel_hand_metrics_do_not_panic() {
    let obs = test_observer();
    let time = obs.record_metric(&ObserverMetric::HandRunDuration {
        hand_name: "review".into(),
        duration: Duration::from_millis(1500),
    });
    assert!(matches!(&time[..], [Signal::Record { histogram: Instrument::HandDuration, .. }]));
    let findings = obs.record_metric(&ObserverMetric::HandFindingsCount {
        hand_name: "review".into(),
        count: 5,
    });
    assert_eq!(added(&findings, Instrument::HandFindings), Some(5));
    let runs = obs.record_metric(&ObserverMetric::HandSuccessRate {
        hand_name: "review".into(),
        success: true,
    });
    match &runs[..] {
        [Signal::Add { counter: Instrument::HandRuns, value: 1, attributes }] => {
            assert_eq!(text(attributes, "hand"), Some("review"));
            assert_eq!(text(attributes, "success"), Some("true"));
        }
        other => panic!("one run expected, got {other:?}"),
    }
}

#[test]
fn otel_observer_creation_with_valid_endpoint_succeeds() {
    let observer = OtelObserver::new(Some("http://127.0.0.1:12345"), Some("zeroclaw-test"));
    assert_eq!(observer.traces_endpoint, "http://127.0.0.1:12345/v1/traces");
    assert_eq!(observer.metrics_endpoint, "http://127.0.0.1:12345/v1/metrics");
    assert_eq!(observer.service_name, "zeroclaw-test");
}

#[test]
fn usual_endpoint_and_service_name() {
    let observer = OtelObserver::new(None, None);
    assert_eq!(observer.traces_endpoint, "http://localhost:4318/v1/traces");
    assert_eq!(observer.metrics_endpoint, "http://localhost:4318/v1/metrics");
    assert_eq!(observer.service_name, "zeroclaw");
}

#[test]
fn slashes_at_the_end_of_the_endpoint_do_not_matter() {
    let observer = OtelObserver::new(Some("http://host:1//"), None);
    assert_eq!(observer.traces_endpoint, "http://host:1/v1/traces");
}

#[test]
fn exporter_errors_say_what_failed() {
    assert_eq!(
        OtelObserver::exporter_error("span", "bad uri"),
        "Failed to create OTLP span exporter: bad uri"
    );
}

#[test]
fn llm_call_shows_tokens_and_their_total() {
    let mut event = llm_response(true, Some(10), Some(20));
    if let ObserverEvent::LlmResponse {
        cache_read_input_tokens,
        cache_creation_input_tokens,
        ..
    } = &mut event
    {
        *cache_read_input_tokens = Some(300);
        *cache_creation_input_tokens = Some(4000);
    }
    let signals = test_observer().record_event(&event);
    let attributes = &span(&signals).attributes;
    assert_eq!(number(attributes, "gen_ai.usage.input_tokens"), Some(10));
    assert_eq!(number(attributes, "gen_ai.usage.output_tokens"), Some(20));
    assert_eq!(number(attributes, "gen_ai.usage.cache_read_input_tokens"), Some(300));
    assert_eq!(number(attributes, "gen_ai.usage.cache_creation_input_tokens"), Some(4000));
    assert_eq!(number(attributes, "gen_ai.usage.total_input_tokens"), Some(4310));
}

#[test]
fn total_of_tokens_needs_new_ones() {
    let mut event = llm_response(true, None, None);
    if let ObserverEvent::LlmResponse { cache_read_input_tokens, .. } = &mut event {
        *cache_read_input_tokens = Some(300);
    }
    let signals = test_observer().record_event(&event);
    let attributes = &span(&signals).attributes;
    assert_eq!(number(attributes, "gen_ai.usage.total_input_tokens"), None);
    assert_eq!(number(attributes, "gen_ai.usage.cache_read_input_tokens"), Some(300));
}

#[test]
fn counts_beyond_the_signed_range_wrap() {
    let signals = test_observer().record_event(&llm_response(true, Some(u64::MAX), Some(1 << 63)));
    let attributes = &span(&signals).attributes;
    assert_eq!(number(attributes, "gen_ai.usage.input_tokens"), Some(-1));
    assert_eq!(number(attributes, "gen_ai.usage.output_tokens"), Some(i64::MIN));
}

#[test]
fn llm_call_shows_the_whole_conversation() {
    let event = ObserverEvent::LlmResponse {
        provider: "p".into(),
        model: "m".into(),
        duration: Duration::from_secs(1),
        success: true,
        error_message: None,
        system_prompt: Some("be kind".into()),
        input_messages: vec![
            MessageSnapshot { role: "system".into(), content: "be kind".into() },
            MessageSnapshot { role: "user".into(), content: "hi \"you\"".into() },
            MessageSnapshot { role: "assistant".into(), content: "hello".into() },
        ],
        tool_definitions: vec![
            ToolSpecSnapshot {
                name: "t".into(),
                description: "d".into(),
                parameters_json: r#"{"type":"object"}"#.into(),
            },
            ToolSpecSnapshot {
                name: "u".into(),
                description: "e".into(),
                parameters_json: "broken".into(),
            },
        ],
        input_tokens: None,
        output_tokens: None,
        cache_read_input_tokens: None,
        cache_creation_input_tokens: None,
        output_text: Some("done".into()),
        output_tool_calls: vec![ToolCallSnapshot {
            id: "i".into(),
            name: "t".into(),
            arguments_json: "[1]".into(),
        }],
    };
    let signals = test_observer().record_event(&event);
    let shown = span(&signals);
    assert_eq!(shown.kind, SpanKind::Client);
    assert!(matches!(shown.status, SpanStatus::Success));
    assert_eq!(text(&shown.attributes, "gen_ai.system_instructions"), Some("be kind"));
    assert_eq!(
        text(&shown.attributes, "gen_ai.input.messages"),
        Some(
            r#"[{"content":"hi \"you\"","role":"user"},{"content":"hello","role":"assistant"}]"#
        )
    );
    let tools = [
        r#"[{"description":"d","name":"t","parameters":{"type":"object"}},"#,
        r#"{"description":"e","name":"u","parameters":null}]"#,
    ]
    .concat();
    assert_eq!(text(&shown.attributes, "gen_ai.tool.definitions"), Some(tools.as_str()));
    let answer = [
        r#"[{"content":"done","role":"assistant","#,
        r#""tool_calls":[{"arguments":[1],"id":"i","name":"t"}]}]"#,
    ]
    .concat();
    assert_eq!(text(&shown.attributes, "gen_ai.output.messages"), Some(answer.as_str()));
}

#[test]
fn system_message_alone_is_not_among_the_input() {
    let mut event = llm_response(true, None, None);
    if let ObserverEvent::LlmResponse { input_messages, output_text, .. } = &mut event {
        *input_messages = vec![MessageSnapshot { role: "system".into(), content: "s".into() }];
        *output_text = Some(String::new());
    }
    let signals = test_observer().record_event(&event);
    let attributes = &span(&signals).attributes;
    assert_eq!(text(attributes, "gen_ai.input.messages"), None);
    assert_eq!(text(attributes, "gen_ai.output.messages"), Some(r#"[{"role":"assistant"}]"#));
}

#[test]
fn given_texts_are_shown_as_they_are() {
    let texts = LlmTexts {
        input_messages: Some("IN".into()),
        tool_definitions: None,
        output_messages: "OUT".into(),
    };
    let signals = OtelObserver::llm_signals(&llm_response(false, None, None), &texts);
    let attributes = &span(&signals).attributes;
    assert_eq!(text(attributes, "gen_ai.input.messages"), Some("IN"));
    assert_eq!(text(attributes, "gen_ai.tool.definitions"), None);
    assert_eq!(text(attributes, "gen_ai.output.messages"), Some("OUT"));
    assert!(OtelObserver::llm_signals(&ObserverEvent::TurnComplete, &texts).is_empty());
}

#[test]
fn tool_run_shows_arguments_and_result_twice() {
    let signals = test_observer().record_event(&ObserverEvent::ToolCall {
        tool: "shell".into(),
        tool_call_id: Some("c1".into()),
        duration: Duration::from_millis(3),
        success: false,
        arguments: Some("{}".into()),
        result: Some("out".into()),
    });
    let shown = span(&signals);
    assert_eq!(
        keys(&shown.attributes),
        vec![
            "tool.name",
            "tool.success",
            "duration_s",
            "gen_ai.operation.name",
            "gen_ai.tool.name",
            "gen_ai.tool.call.id",
            "gen_ai.tool.arguments",
            "input.value",
            "gen_ai.tool.result",
            "output.value",
        ]
    );
    assert_eq!(text(&shown.attributes, "gen_ai.operation.name"), Some("execute_tool"));
    assert_eq!(text(&shown.attributes, "input.value"), Some("{}"));
    assert_eq!(text(&shown.attributes, "output.value"), Some("out"));
    assert!(matches!(&shown.status, SpanStatus::Failure(message) if message.is_empty()));
}

#[test]
fn end_of_a_session_shows_tokens_and_cost_and_counts_neither() {
    let cost = UsdAmount { bits: 0.25f64.to_bits() };
    let signals = test_observer().record_event(&ObserverEvent::AgentEnd {
        provider: "p".into(),
        model: "m".into(),
        duration: Duration::from_secs(9),
        tokens_used: Some(77),
        cost_usd: Some(cost),
    });
    let shown = span(&signals);
    assert_eq!(shown.name, "agent.invocation");
    assert!(matches!(shown.status, SpanStatus::Unset));
    assert_eq!(number(&shown.attributes, "tokens_used"), Some(77));
    assert!(shown.attributes.iter().any(|attribute| {
        attribute.key == "cost_usd"
            && matches!(attribute.value, AttributeValue::Usd(amount) if amount == cost)
    }));
    assert_eq!(added(&signals, Instrument::TokensUsed), None);
    assert!(matches!(
        signals[1],
        Signal::Record { histogram: Instrument::AgentDuration, .. }
    ));
}

#[test]
fn deployments_and_caches_are_silent() {
    let obs = test_observer();
    for event in [
        ObserverEvent::CacheHit { cache_type: "hot".into(), tokens_saved: 1 },
        ObserverEvent::CacheMiss { cache_type: "response".into() },
        ObserverEvent::DeploymentStarted { deploy_id: "d".into() },
        ObserverEvent::DeploymentCompleted { deploy_id: "d".into(), commit_sha: "c".into() },
        ObserverEvent::DeploymentFailed { deploy_id: "d".into(), reason: "r".into() },
        ObserverEvent::RecoveryCompleted { deploy_id: "d".into() },
    ] {
        assert!(obs.record_event(&event).is_empty());
    }
    assert!(obs
        .record_metric(&ObserverMetric::DeploymentLeadTime(Duration::from_secs(1)))
        .is_empty());
    assert!(obs.record_metric(&ObserverMetric::RecoveryTime(Duration::from_secs(1))).is_empty());
}

#[test]
fn counters_say_what_they_count() {
    let obs = test_observer();
    let signals = obs.record_event(&ObserverEvent::ChannelMessage {
        channel: "telegram".into(),
        direction: "outbound".into(),
    });
    match &signals[..] {
        [Signal::Add { counter: Instrument::ChannelMessages, value: 1, attributes }] => {
            assert_eq!(text(attributes, "channel"), Some("telegram"));
            assert_eq!(text(attributes, "direction"), Some("outbound"));
        }
        other => panic!("one message expected, got {other:?}"),
    }
    let signals = obs.record_event(&llm_response(false, None, None));
    match &signals[0] {
        Signal::Add { counter: Instrument::LlmCalls, value: 1, attributes } => {
            assert_eq!(text(attributes, "success"), Some("false"));
        }
        other => panic!("one call expected, got {other:?}"),
    }
}

#[test]
fn instruments_present_themselves() {
    let all = Instrument::all();
    assert_eq!(all.len(), 16);
    let mut names: Vec<&str> = all.iter().map(|instrument| instrument.present().name).collect();
    names.sort();
    names.dedup();
    assert_eq!(names.len(), 16);
    let latency = Instrument::RequestLatency.present();
    assert_eq!(latency.kind, InstrumentKind::Histogram);
    assert_eq!(latency.name, "zeroclaw.request.latency");
    assert_eq!(latency.description, "Request latency in seconds");
    assert_eq!(latency.unit, Some("s"));
    let sessions = Instrument::ActiveSessions.present();
    assert_eq!(sessions.kind, InstrumentKind::Gauge);
    assert_eq!(sessions.unit, None);
    assert_eq!(Instrument::Errors.present().kind, InstrumentKind::Counter);
}

#[test]
fn shown_parameters_are_those_of_the_tool() {
    let parameters = Json::parse(r#"{"properties":{"x":{"type":"string"}}}"#).unwrap();
    let mut event = llm_response(true, None, None);
    if let ObserverEvent::LlmResponse { tool_definitions, .. } = &mut event {
        tool_definitions.push(ToolSpecSnapshot {
            name: "t".into(),
            description: "d".into(),
            parameters_json: parameters.render(),
        });
    }
    let signals = test_observer().record_event(&event);
    let shown = text(&span(&signals).attributes, "gen_ai.tool.definitions").unwrap();
    let document = Json::parse(shown).unwrap();
    assert_eq!(document.as_array().unwrap()[0].get("parameters"), Some(&parameters));
}

#[test]
fn tokens_beyond_the_range_cannot_be_counted() {
    let mut event = llm_response(true, Some(u64::MAX), None);
    assert!(is_countable(&event));
    if let ObserverEvent::LlmResponse { cache_creation_input_tokens, .. } = &mut event {
        *cache_creation_input_tokens = Some(1);
    }
    assert!(!is_countable(&event));
    if let ObserverEvent::LlmResponse { input_tokens, .. } = &mut event {
        *input_tokens = None;
    }
    assert!(is_countable(&event));
    assert!(is_countable(&ObserverEvent::HeartbeatTick));
}
