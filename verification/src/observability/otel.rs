//! The OpenTelemetry observer: where telemetry goes, and what the collector is told.
use crate::observability::llm_documents::{to_llm_texts, LlmTexts};
use crate::observability::signals::{
    agent_end_signals, bare_status, call_attributes, countable, error_signals, event_signals,
    hand_completed_signals, hand_failed_signals, hand_findings, hand_run, hand_time,
    llm_attributes, llm_signals, metric_signals, or_zero, signed, some_count, some_text, some_usd,
    tool_attributes, tool_signals, total_input_tokens, truth, usage_attributes,
};
use crate::observability::telemetry::{
    flag_attribute, number_attribute, seconds_attribute, text_attribute, Attribute, AttributeValue,
    AttributeView, Elapsed, Instrument, Signal, Span, SpanKind, SpanStatus,
};
use crate::observability::traits::{ObserverEvent, ObserverMetric, UsdAmount};
use crate::text::{trim_end_matches, without_trailing};
use std::time::Duration;
use vstd::prelude::*;

verus! {

/// Where telemetry goes where nobody says otherwise.
pub const DEFAULT_ENDPOINT: &'static str = "http://localhost:4318";

/// The name of the service where nobody says otherwise.
pub const DEFAULT_SERVICE_NAME: &'static str = "zeroclaw";

/// The name under which spans and measurements are taken.
pub const SCOPE: &'static str = "zeroclaw";

/// An observer that tells an OpenTelemetry collector what happens.
#[derive(Debug, Clone)]
pub struct OtelObserver {
    pub traces_endpoint: String,
    pub metrics_endpoint: String,
    pub service_name: String,
}

/// Where a kind of telemetry goes: a path behind the base, which may end in slashes.
pub open spec fn endpoint_at(base: Seq<char>, path: Seq<char>) -> Seq<char> {
    without_trailing(base, '/') + path
}

/// The message for an exporter that cannot be made.
pub open spec fn exporter_error(kind: Seq<char>, error: Seq<char>) -> Seq<char> {
    "Failed to create OTLP "@ + kind + " exporter: "@ + error
}

fn to_endpoint(base: &str, path: &str) -> (endpoint: String)
    ensures
        endpoint@ == endpoint_at(base@, path@),
{
    let mut endpoint = trim_end_matches(base, '/').to_string();
    endpoint.append(path);
    endpoint
}

fn to_signed(count: u64) -> (number: i64)
    ensures
        number == signed(count),
{
    let number = count as i64;
    assert(number == if count < 0x8000_0000_0000_0000 {
        count as int
    } else {
        count - 0x1_0000_0000_0000_0000
    }) by (bit_vector)
        requires
            number == count as i64,
    ;
    number
}

fn truth_text(value: bool) -> (text: &'static str)
    ensures
        text@ == truth(value),
{
    if value {
        "true"
    } else {
        "false"
    }
}

fn to_bare_status(success: bool) -> (status: SpanStatus)
    ensures
        status.deep_view() == bare_status(success),
{
    if success {
        SpanStatus::Success
    } else {
        SpanStatus::Failure(String::new())
    }
}

fn push(attributes: &mut Vec<Attribute>, attribute: Attribute)
    ensures
        final(attributes).deep_view() == old(attributes).deep_view().push(attribute.deep_view()),
{
    let ghost before = attributes.deep_view();
    attributes.push(attribute);
    assert(attributes.deep_view() =~= before.push(attribute.deep_view()));
}

fn push_some_count(attributes: &mut Vec<Attribute>, key: &'static str, count: Option<u64>)
    ensures
        final(attributes).deep_view() == old(attributes).deep_view() + some_count(key@, count),
{
    if let Some(n) = count {
        push(attributes, Attribute::number(key, to_signed(n)));
    }
    assert(attributes.deep_view() =~= old(attributes).deep_view() + some_count(key@, count));
}

fn push_some_text(attributes: &mut Vec<Attribute>, key: &'static str, text: &Option<String>)
    ensures
        final(attributes).deep_view() == old(attributes).deep_view() + some_text(
            key@,
            text.deep_view(),
        ),
{
    if let Some(text) = text {
        push(attributes, Attribute::text(key, text.as_str()));
    }
    assert(attributes.deep_view() =~= old(attributes).deep_view() + some_text(
        key@,
        text.deep_view(),
    ));
}

fn push_some_usd(attributes: &mut Vec<Attribute>, key: &'static str, amount: Option<UsdAmount>)
    ensures
        final(attributes).deep_view() == old(attributes).deep_view() + some_usd(key@, amount),
{
    if let Some(amount) = amount {
        push(attributes, Attribute { key, value: AttributeValue::Usd(amount) });
    }
    assert(attributes.deep_view() =~= old(attributes).deep_view() + some_usd(key@, amount));
}

fn call_attributes_of(provider: &str, model: &str, success: bool) -> (attributes: Vec<Attribute>)
    ensures
        attributes.deep_view() == call_attributes(provider@, model@, success),
{
    let attributes = vec![
        Attribute::text("provider", provider),
        Attribute::text("model", model),
        Attribute::text("success", truth_text(success)),
    ];
    assert(attributes.deep_view() =~= call_attributes(provider@, model@, success));
    attributes
}

fn hand_attributes(hand_name: &str) -> (attributes: Vec<Attribute>)
    ensures
        attributes.deep_view() == seq![text_attribute("hand"@, hand_name@)],
{
    let attributes = vec![Attribute::text("hand", hand_name)];
    assert(attributes.deep_view() =~= seq![text_attribute("hand"@, hand_name@)]);
    attributes
}

fn to_hand_run(hand_name: &str, success: bool) -> (signal: Signal)
    ensures
        signal.deep_view() == hand_run(hand_name@, success),
{
    let mut attributes = hand_attributes(hand_name);
    push(&mut attributes, Attribute::text("success", truth_text(success)));
    assert(attributes.deep_view() =~= seq![
        text_attribute("hand"@, hand_name@),
        text_attribute("success"@, truth(success)),
    ]);
    Signal::Add { counter: Instrument::HandRuns, value: 1, attributes }
}

fn to_hand_time(hand_name: &str, value: Elapsed) -> (signal: Signal)
    ensures
        signal.deep_view() == hand_time(hand_name@, value),
{
    Signal::Record {
        histogram: Instrument::HandDuration,
        value,
        attributes: hand_attributes(hand_name),
    }
}

fn to_hand_findings(hand_name: &str, value: u64) -> (signal: Signal)
    ensures
        signal.deep_view() == hand_findings(hand_name@, value),
{
    Signal::Add {
        counter: Instrument::HandFindings,
        value,
        attributes: hand_attributes(hand_name),
    }
}

fn count_or_zero(count: Option<u64>) -> (n: u64)
    ensures
        n == or_zero(count),
{
    match count {
        Some(n) => n,
        None => 0,
    }
}

/// Whether the tokens of a prompt can be counted.
pub fn is_countable(event: &ObserverEvent) -> (result: bool)
    ensures
        result == countable(*event),
{
    match event {
        ObserverEvent::LlmResponse {
            input_tokens,
            cache_read_input_tokens,
            cache_creation_input_tokens,
            ..
        } => match *input_tokens {
            Some(n) => match n.checked_add(count_or_zero(*cache_read_input_tokens)) {
                Some(sum) => sum.checked_add(count_or_zero(*cache_creation_input_tokens)).is_some(),
                None => false,
            },
            None => true,
        },
        _ => true,
    }
}

fn push_usage(
    attributes: &mut Vec<Attribute>,
    input_tokens: Option<u64>,
    output_tokens: Option<u64>,
    cache_read_input_tokens: Option<u64>,
    cache_creation_input_tokens: Option<u64>,
)
    requires
        input_tokens is Some ==> total_input_tokens(
            input_tokens,
            cache_read_input_tokens,
            cache_creation_input_tokens,
        ) <= u64::MAX,
    ensures
        final(attributes).deep_view() == old(attributes).deep_view() + usage_attributes(
            input_tokens,
            output_tokens,
            cache_read_input_tokens,
            cache_creation_input_tokens,
        ),
{
    push_some_count(attributes, "gen_ai.usage.input_tokens", input_tokens);
    push_some_count(attributes, "gen_ai.usage.output_tokens", output_tokens);
    push_some_count(
        attributes,
        "gen_ai.usage.cache_read_input_tokens",
        cache_read_input_tokens,
    );
    push_some_count(
        attributes,
        "gen_ai.usage.cache_creation_input_tokens",
        cache_creation_input_tokens,
    );
    let total: Option<u64> = match input_tokens {
        Some(n) => Some(
            n + count_or_zero(cache_read_input_tokens) + count_or_zero(cache_creation_input_tokens),
        ),
        None => None,
    };
    push_some_count(attributes, "gen_ai.usage.total_input_tokens", total);
    assert(attributes.deep_view() =~= old(attributes).deep_view() + usage_attributes(
        input_tokens,
        output_tokens,
        cache_read_input_tokens,
        cache_creation_input_tokens,
    ));
}

fn to_llm_attributes(event: &ObserverEvent, texts: &LlmTexts) -> (attributes: Vec<Attribute>)
    requires
        countable(*event),
    ensures
        attributes.deep_view() == llm_attributes(*event, texts.deep_view()),
{
    match event {
        ObserverEvent::LlmResponse {
            provider,
            model,
            duration,
            success,
            system_prompt,
            input_tokens,
            output_tokens,
            cache_read_input_tokens,
            cache_creation_input_tokens,
            ..
        } => {
            let mut attributes = vec![
                Attribute::text("provider", provider.as_str()),
                Attribute::text("model", model.as_str()),
                Attribute::flag("success", *success),
                Attribute::seconds("duration_s", Elapsed::Exact(*duration)),
                Attribute::text("gen_ai.system", provider.as_str()),
                Attribute::text("gen_ai.operation.name", "chat"),
                Attribute::text("gen_ai.request.model", model.as_str()),
                Attribute::text("gen_ai.response.model", model.as_str()),
            ];
            push_usage(
                &mut attributes,
                *input_tokens,
                *output_tokens,
                *cache_read_input_tokens,
                *cache_creation_input_tokens,
            );
            push_some_text(&mut attributes, "gen_ai.system_instructions", system_prompt);
            push_some_text(&mut attributes, "gen_ai.input.messages", &texts.input_messages);
            push_some_text(&mut attributes, "gen_ai.tool.definitions", &texts.tool_definitions);
            push(
                &mut attributes,
                Attribute::text("gen_ai.output.messages", texts.output_messages.as_str()),
            );
            assert(attributes.deep_view() =~= llm_attributes(*event, texts.deep_view()));
            attributes
        },
        _ => Vec::new(),
    }
}

impl OtelObserver {
    /// An observer for a collector and a service, or for the usual ones.
    pub fn new(endpoint: Option<&str>, service_name: Option<&str>) -> (observer: OtelObserver)
        ensures
            ({
                let base = match endpoint {
                    Some(endpoint) => endpoint@,
                    None => DEFAULT_ENDPOINT@,
                };
                &&& observer.traces_endpoint@ == endpoint_at(base, "/v1/traces"@)
                &&& observer.metrics_endpoint@ == endpoint_at(base, "/v1/metrics"@)
            }),
            observer.service_name@ == match service_name {
                Some(name) => name@,
                None => DEFAULT_SERVICE_NAME@,
            },
    {
        let base = match endpoint {
            Some(endpoint) => endpoint,
            None => DEFAULT_ENDPOINT,
        };
        let service_name = match service_name {
            Some(name) => name,
            None => DEFAULT_SERVICE_NAME,
        };
        OtelObserver {
            traces_endpoint: to_endpoint(base, "/v1/traces"),
            metrics_endpoint: to_endpoint(base, "/v1/metrics"),
            service_name: service_name.to_string(),
        }
    }

    /// The message for an exporter that cannot be made; `kind` says of what it is.
    pub fn exporter_error(kind: &str, error: &str) -> (message: String)
        ensures
            message@ == exporter_error(kind@, error@),
    {
        let mut message = "Failed to create OTLP ".to_string();
        message.append(kind);
        message.append(" exporter: ");
        message.append(error);
        message
    }

    /// The name of the backend.
    pub fn name(&self) -> (name: &str)
        ensures
            name@ == "otel"@,
    {
        "otel"
    }

    /// What the collector is told of a call of the model, given its documents as
    /// texts; nothing of another event.
    pub fn llm_signals(event: &ObserverEvent, texts: &LlmTexts) -> (signals: Vec<Signal>)
        requires
            countable(*event),
        ensures
            signals.deep_view() == llm_signals(*event, texts.deep_view()),
    {
        match event {
            ObserverEvent::LlmResponse { provider, model, duration, success, .. } => {
                let signals = vec![
                    Signal::Add {
                        counter: Instrument::LlmCalls,
                        value: 1,
                        attributes: call_attributes_of(
                            provider.as_str(),
                            model.as_str(),
                            *success,
                        ),
                    },
                    Signal::Record {
                        histogram: Instrument::LlmDuration,
                        value: Elapsed::Exact(*duration),
                        attributes: call_attributes_of(
                            provider.as_str(),
                            model.as_str(),
                            *success,
                        ),
                    },
                    Signal::Emit(
                        Span {
                            name: "llm.call",
                            kind: SpanKind::Client,
                            elapsed: Some(Elapsed::Exact(*duration)),
                            attributes: to_llm_attributes(event, texts),
                            status: to_bare_status(*success),
                        },
                    ),
                ];
                assert(signals.deep_view() =~= llm_signals(*event, texts.deep_view()));
                signals
            },
            _ => Vec::new(),
        }
    }

    fn agent_end_signals(
        provider: &str,
        model: &str,
        duration: Duration,
        tokens_used: Option<u64>,
        cost_usd: Option<UsdAmount>,
    ) -> (signals: Vec<Signal>)
        ensures
            signals.deep_view() == agent_end_signals(
                provider@,
                model@,
                duration,
                tokens_used,
                cost_usd,
            ),
    {
        let mut span_attributes = vec![
            Attribute::text("provider", provider),
            Attribute::text("model", model),
            Attribute::seconds("duration_s", Elapsed::Exact(duration)),
        ];
        push_some_count(&mut span_attributes, "tokens_used", tokens_used);
        push_some_usd(&mut span_attributes, "cost_usd", cost_usd);
        let attributes = vec![
            Attribute::text("provider", provider),
            Attribute::text("model", model),
        ];
        proof {
            assert(span_attributes.deep_view() =~= seq![
                text_attribute("provider"@, provider@),
                text_attribute("model"@, model@),
                seconds_attribute("duration_s"@, Elapsed::Exact(duration)),
            ] + some_count("tokens_used"@, tokens_used) + some_usd("cost_usd"@, cost_usd));
            assert(attributes.deep_view() =~= seq![
                text_attribute("provider"@, provider@),
                text_attribute("model"@, model@),
            ]);
        }
        let signals = vec![
            Signal::Emit(
                Span {
                    name: "agent.invocation",
                    kind: SpanKind::Internal,
                    elapsed: Some(Elapsed::Exact(duration)),
                    attributes: span_attributes,
                    status: SpanStatus::Unset,
                },
            ),
            Signal::Record {
                histogram: Instrument::AgentDuration,
                value: Elapsed::Exact(duration),
                attributes,
            },
        ];
        assert(signals.deep_view() =~= agent_end_signals(
            provider@,
            model@,
            duration,
            tokens_used,
            cost_usd,
        ));
        signals
    }

    fn tool_signals(
        tool: &str,
        tool_call_id: &Option<String>,
        duration: Duration,
        success: bool,
        arguments: &Option<String>,
        result: &Option<String>,
    ) -> (signals: Vec<Signal>)
        ensures
            signals.deep_view() == tool_signals(
                tool@,
                tool_call_id.deep_view(),
                duration,
                success,
                arguments.deep_view(),
                result.deep_view(),
            ),
    {
        let mut span_attributes = vec![
            Attribute::text("tool.name", tool),
            Attribute::flag("tool.success", success),
            Attribute::seconds("duration_s", Elapsed::Exact(duration)),
            Attribute::text("gen_ai.operation.name", "execute_tool"),
            Attribute::text("gen_ai.tool.name", tool),
        ];
        push_some_text(&mut span_attributes, "gen_ai.tool.call.id", tool_call_id);
        push_some_text(&mut span_attributes, "gen_ai.tool.arguments", arguments);
        push_some_text(&mut span_attributes, "input.value", arguments);
        push_some_text(&mut span_attributes, "gen_ai.tool.result", result);
        push_some_text(&mut span_attributes, "output.value", result);
        let run_attributes = vec![
            Attribute::text("tool", tool),
            Attribute::text("success", truth_text(success)),
        ];
        let time_attributes = vec![Attribute::text("tool", tool)];
        proof {
            assert(span_attributes.deep_view() =~= tool_attributes(
                tool@,
                tool_call_id.deep_view(),
                duration,
                success,
                arguments.deep_view(),
                result.deep_view(),
            ));
            assert(run_attributes.deep_view() =~= seq![
                text_attribute("tool"@, tool@),
                text_attribute("success"@, truth(success)),
            ]);
            assert(time_attributes.deep_view() =~= seq![text_attribute("tool"@, tool@)]);
        }
        let signals = vec![
            Signal::Emit(
                Span {
                    name: "tool.call",
                    kind: SpanKind::Internal,
                    elapsed: Some(Elapsed::Exact(duration)),
                    attributes: span_attributes,
                    status: to_bare_status(success),
                },
            ),
            Signal::Add {
                counter: Instrument::ToolCalls,
                value: 1,
                attributes: run_attributes,
            },
            Signal::Record {
                histogram: Instrument::ToolDuration,
                value: Elapsed::Exact(duration),
                attributes: time_attributes,
            },
        ];
        assert(signals.deep_view() =~= tool_signals(
            tool@,
            tool_call_id.deep_view(),
            duration,
            success,
            arguments.deep_view(),
            result.deep_view(),
        ));
        signals
    }

    fn error_signals(component: &str, message: &str) -> (signals: Vec<Signal>)
        ensures
            signals.deep_view() == error_signals(component@, message@),
    {
        let span_attributes = vec![
            Attribute::text("component", component),
            Attribute::text("error.message", message),
        ];
        let attributes = vec![Attribute::text("component", component)];
        proof {
            assert(span_attributes.deep_view() =~= seq![
                text_attribute("component"@, component@),
                text_attribute("error.message"@, message@),
            ]);
            assert(attributes.deep_view() =~= seq![text_attribute("component"@, component@)]);
        }
        let signals = vec![
            Signal::Emit(
                Span {
                    name: "error",
                    kind: SpanKind::Internal,
                    elapsed: None,
                    attributes: span_attributes,
                    status: SpanStatus::Failure(message.to_string()),
                },
            ),
            Signal::Add { counter: Instrument::Errors, value: 1, attributes },
        ];
        assert(signals.deep_view() =~= error_signals(component@, message@));
        signals
    }

    fn hand_completed_signals(hand_name: &str, duration_ms: u64, findings: u64) -> (signals: Vec<
        Signal,
    >)
        ensures
            signals.deep_view() == hand_completed_signals(hand_name@, duration_ms, findings),
    {
        let attributes = vec![
            Attribute::text("hand.name", hand_name),
            Attribute::flag("hand.success", true),
            Attribute::number("hand.findings", to_signed(findings)),
            Attribute::seconds("duration_s", Elapsed::Millis(duration_ms)),
        ];
        assert(attributes.deep_view() =~= seq![
            text_attribute("hand.name"@, hand_name@),
            flag_attribute("hand.success"@, true),
            number_attribute("hand.findings"@, signed(findings)),
            seconds_attribute("duration_s"@, Elapsed::Millis(duration_ms)),
        ]);
        let signals = vec![
            Signal::Emit(
                Span {
                    name: "hand.run",
                    kind: SpanKind::Internal,
                    elapsed: Some(Elapsed::Millis(duration_ms)),
                    attributes,
                    status: SpanStatus::Success,
                },
            ),
            to_hand_run(hand_name, true),
            to_hand_time(hand_name, Elapsed::Millis(duration_ms)),
            to_hand_findings(hand_name, findings),
        ];
        assert(signals.deep_view() =~= hand_completed_signals(hand_name@, duration_ms, findings));
        signals
    }

    fn hand_failed_signals(hand_name: &str, error: &str, duration_ms: u64) -> (signals: Vec<Signal>)
        ensures
            signals.deep_view() == hand_failed_signals(hand_name@, error@, duration_ms),
    {
        let attributes = vec![
            Attribute::text("hand.name", hand_name),
            Attribute::flag("hand.success", false),
            Attribute::text("error.message", error),
            Attribute::seconds("duration_s", Elapsed::Millis(duration_ms)),
        ];
        assert(attributes.deep_view() =~= seq![
            text_attribute("hand.name"@, hand_name@),
            flag_attribute("hand.success"@, false),
            text_attribute("error.message"@, error@),
            seconds_attribute("duration_s"@, Elapsed::Millis(duration_ms)),
        ]);
        let signals = vec![
            Signal::Emit(
                Span {
                    name: "hand.run",
                    kind: SpanKind::Internal,
                    elapsed: Some(Elapsed::Millis(duration_ms)),
                    attributes,
                    status: SpanStatus::Failure(error.to_string()),
                },
            ),
            to_hand_run(hand_name, false),
            to_hand_time(hand_name, Elapsed::Millis(duration_ms)),
        ];
        assert(signals.deep_view() =~= hand_failed_signals(hand_name@, error@, duration_ms));
        signals
    }

    /// What the collector is told of an event, in order.
    pub fn record_event(&self, event: &ObserverEvent) -> (signals: Vec<Signal>)
        requires
            countable(*event),
        ensures
            signals.deep_view() == event_signals(*event),
    {
        let signals: Vec<Signal> = match event {
            ObserverEvent::AgentStart { provider, model } => {
                let attributes = vec![
                    Attribute::text("provider", provider.as_str()),
                    Attribute::text("model", model.as_str()),
                ];
                assert(attributes.deep_view() =~= seq![
                    text_attribute("provider"@, provider@),
                    text_attribute("model"@, model@),
                ]);
                vec![Signal::Add { counter: Instrument::AgentStarts, value: 1, attributes }]
            },
            ObserverEvent::LlmResponse {
                input_messages,
                tool_definitions,
                output_text,
                output_tool_calls,
                ..
            } => {
                let texts = to_llm_texts(
                    input_messages,
                    tool_definitions,
                    output_text,
                    output_tool_calls,
                );
                Self::llm_signals(event, &texts)
            },
            ObserverEvent::AgentEnd {
                provider,
                model,
                duration,
                tokens_used,
                cost_usd,
            } => Self::agent_end_signals(
                provider.as_str(),
                model.as_str(),
                *duration,
                *tokens_used,
                *cost_usd,
            ),
            ObserverEvent::ToolCall {
                tool,
                tool_call_id,
                duration,
                success,
                arguments,
                result,
            } => Self::tool_signals(
                tool.as_str(),
                tool_call_id,
                *duration,
                *success,
                arguments,
                result,
            ),
            ObserverEvent::ChannelMessage { channel, direction } => {
                let attributes = vec![
                    Attribute::text("channel", channel.as_str()),
                    Attribute::text("direction", direction.as_str()),
                ];
                assert(attributes.deep_view() =~= seq![
                    text_attribute("channel"@, channel@),
                    text_attribute("direction"@, direction@),
                ]);
                vec![Signal::Add { counter: Instrument::ChannelMessages, value: 1, attributes }]
            },
            ObserverEvent::HeartbeatTick => {
                let attributes: Vec<Attribute> = Vec::new();
                assert(attributes.deep_view() =~= Seq::<AttributeView>::empty());
                vec![Signal::Add { counter: Instrument::HeartbeatTicks, value: 1, attributes }]
            },
            ObserverEvent::Error { component, message } => Self::error_signals(
                component.as_str(),
                message.as_str(),
            ),
            ObserverEvent::HandCompleted {
                hand_name,
                duration_ms,
                findings_count,
            } => Self::hand_completed_signals(
                hand_name.as_str(),
                *duration_ms,
                *findings_count as u64,
            ),
            ObserverEvent::HandFailed { hand_name, error, duration_ms } => {
                Self::hand_failed_signals(hand_name.as_str(), error.as_str(), *duration_ms)
            },
            ObserverEvent::LlmRequest { .. } => Vec::new(),
            ObserverEvent::ToolCallStart { .. } => Vec::new(),
            ObserverEvent::TurnComplete => Vec::new(),
            ObserverEvent::CacheHit { .. } => Vec::new(),
            ObserverEvent::CacheMiss { .. } => Vec::new(),
            ObserverEvent::HandStarted { .. } => Vec::new(),
            ObserverEvent::DeploymentStarted { .. } => Vec::new(),
            ObserverEvent::DeploymentCompleted { .. } => Vec::new(),
            ObserverEvent::DeploymentFailed { .. } => Vec::new(),
            ObserverEvent::RecoveryCompleted { .. } => Vec::new(),
        };
        assert(signals.deep_view() =~= event_signals(*event));
        signals
    }

    /// What the collector is told of a measurement.
    pub fn record_metric(&self, metric: &ObserverMetric) -> (signals: Vec<Signal>)
        ensures
            signals.deep_view() == metric_signals(*metric),
    {
        let none: Vec<Attribute> = Vec::new();
        assert(none.deep_view() =~= Seq::<AttributeView>::empty());
        let signals: Vec<Signal> = match metric {
            ObserverMetric::RequestLatency(duration) => vec![
                Signal::Record {
                    histogram: Instrument::RequestLatency,
                    value: Elapsed::Exact(*duration),
                    attributes: none,
                },
            ],
            ObserverMetric::TokensUsed(tokens) => vec![
                Signal::Add { counter: Instrument::TokensUsed, value: *tokens, attributes: none },
            ],
            ObserverMetric::ActiveSessions(sessions) => vec![
                Signal::Level { gauge: Instrument::ActiveSessions, value: *sessions },
            ],
            ObserverMetric::QueueDepth(depth) => vec![
                Signal::Level { gauge: Instrument::QueueDepth, value: *depth },
            ],
            ObserverMetric::HandRunDuration { hand_name, duration } => vec![
                to_hand_time(hand_name.as_str(), Elapsed::Exact(*duration)),
            ],
            ObserverMetric::HandFindingsCount { hand_name, count } => vec![
                to_hand_findings(hand_name.as_str(), *count),
            ],
            ObserverMetric::HandSuccessRate { hand_name, success } => vec![
                to_hand_run(hand_name.as_str(), *success),
            ],
            ObserverMetric::DeploymentLeadTime(_) => Vec::new(),
            ObserverMetric::RecoveryTime(_) => Vec::new(),
        };
        assert(signals.deep_view() =~= metric_signals(*metric));
        signals
    }
}

/// Any run of slashes at the end of the base does not matter.
pub proof fn law_trailing_slashes_do_not_matter(
    base: Seq<char>,
    slashes: Seq<char>,
    path: Seq<char>,
)
    requires
        forall|i: int| 0 <= i < slashes.len() ==> #[trigger] slashes[i] == '/',
    ensures
        endpoint_at(base + slashes, path) == endpoint_at(base, path),
    decreases slashes.len(),
{
    let whole = base + slashes;
    if slashes.len() > 0 {
        assert(whole.drop_last() =~= base + slashes.drop_last());
        assert(whole.last() == slashes[slashes.len() - 1]);
        law_trailing_slashes_do_not_matter(base, slashes.drop_last(), path);
    } else {
        assert(whole =~= base);
    }
}

/// What stands in front of the path does not end in a slash.
pub proof fn law_no_slash_before_the_path(base: Seq<char>)
    ensures
        without_trailing(base, '/').len() > 0 ==> without_trailing(base, '/').last() != '/',
    decreases base.len(),
{
    if base.len() > 0 {
        law_no_slash_before_the_path(base.drop_last());
    }
}

/// A base that does not end in a slash is kept as it is, and the path follows it.
pub proof fn law_path_follows_the_base(base: Seq<char>, path: Seq<char>)
    requires
        base.len() > 0 ==> base.last() != '/',
    ensures
        endpoint_at(base, path).len() == base.len() + path.len(),
        endpoint_at(base, path).take(base.len() as int) == base,
        endpoint_at(base, path).skip(base.len() as int) == path,
{
    assert(endpoint_at(base, path).take(base.len() as int) =~= base);
    assert(endpoint_at(base, path).skip(base.len() as int) =~= path);
}

/// The message for an exporter that cannot be made says of which kind it is and, last,
/// what went wrong.
pub proof fn law_exporter_error_in_order(kind: Seq<char>, error: Seq<char>)
    ensures
        ({
            let message = exporter_error(kind, error);
            let named = 22 + kind.len() as int;
            &&& message.len() == named + 11 + error.len()
            &&& message.take(22) == "Failed to create OTLP "@
            &&& message.subrange(22, named) == kind
            &&& message.subrange(named, named + 11) == " exporter: "@
            &&& message.skip(named + 11) == error
        }),
{
    reveal_strlit("Failed to create OTLP ");
    reveal_strlit(" exporter: ");
    let message = exporter_error(kind, error);
    let named = 22 + kind.len() as int;
    assert(message.take(22) =~= "Failed to create OTLP "@);
    assert(message.subrange(22, named) =~= kind);
    assert(message.subrange(named, named + 11) =~= " exporter: "@);
    assert(message.skip(named + 11) =~= error);
}

} // verus!
