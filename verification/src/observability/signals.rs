//! What a backend is told of the agent runtime: spans with the attributes that
//! LLM-aware viewers look for, and measurements.
use crate::observability::llm_documents::{llm_texts, LlmTextsView};
use crate::observability::telemetry::{
    flag_attribute, number_attribute, seconds_attribute, text_attribute, AttributeView, Elapsed,
    Instrument, InstrumentKind, SignalView, SpanKind, SpanView, StatusView, ValueView,
};
use crate::observability::traits::{ObserverEvent, ObserverMetric, UsdAmount};
use std::time::Duration;
use vstd::prelude::*;

verus! {

/// A count as the backend takes it: a signed number of the same bits.
pub open spec fn signed(count: u64) -> int {
    if count < 0x8000_0000_0000_0000 {
        count as int
    } else {
        count - 0x1_0000_0000_0000_0000
    }
}

/// An attribute for a count, where there is one.
pub open spec fn some_count(key: Seq<char>, count: Option<u64>) -> Seq<AttributeView> {
    match count {
        Some(n) => seq![number_attribute(key, signed(n))],
        None => Seq::empty(),
    }
}

/// An attribute for a text, where there is one.
pub open spec fn some_text(key: Seq<char>, text: Option<Seq<char>>) -> Seq<AttributeView> {
    match text {
        Some(text) => seq![text_attribute(key, text)],
        None => Seq::empty(),
    }
}

/// An attribute for an amount of money, where there is one.
pub open spec fn some_usd(key: Seq<char>, amount: Option<UsdAmount>) -> Seq<AttributeView> {
    match amount {
        Some(amount) => seq![AttributeView { key, value: ValueView::Usd(amount) }],
        None => Seq::empty(),
    }
}

/// A truth value as a text.
pub open spec fn truth(value: bool) -> Seq<char> {
    if value {
        "true"@
    } else {
        "false"@
    }
}

/// How a span ends that says no more than whether what it tells of succeeded.
pub open spec fn bare_status(success: bool) -> StatusView {
    if success {
        StatusView::Success
    } else {
        StatusView::Failure(Seq::empty())
    }
}

/// A count, or nought where there is none.
pub open spec fn or_zero(count: Option<u64>) -> u64 {
    match count {
        Some(n) => n,
        None => 0,
    }
}

/// How many tokens a prompt had: new ones, those that were read from the cache, and
/// those that were written to it.
pub open spec fn total_input_tokens(
    input_tokens: Option<u64>,
    cache_read_input_tokens: Option<u64>,
    cache_creation_input_tokens: Option<u64>,
) -> int {
    or_zero(input_tokens) + or_zero(cache_read_input_tokens) + or_zero(cache_creation_input_tokens)
}

/// Whether the tokens of a prompt can be counted.
pub open spec fn countable(event: ObserverEvent) -> bool {
    match event {
        ObserverEvent::LlmResponse {
            input_tokens,
            cache_read_input_tokens,
            cache_creation_input_tokens,
            ..
        } => input_tokens is Some ==> total_input_tokens(
            input_tokens,
            cache_read_input_tokens,
            cache_creation_input_tokens,
        ) <= u64::MAX,
        _ => true,
    }
}

/// What a call of the model says of its tokens. The total is there where the new
/// ones are known.
pub open spec fn usage_attributes(
    input_tokens: Option<u64>,
    output_tokens: Option<u64>,
    cache_read_input_tokens: Option<u64>,
    cache_creation_input_tokens: Option<u64>,
) -> Seq<AttributeView> {
    some_count("gen_ai.usage.input_tokens"@, input_tokens) + some_count(
        "gen_ai.usage.output_tokens"@,
        output_tokens,
    ) + some_count("gen_ai.usage.cache_read_input_tokens"@, cache_read_input_tokens) + some_count(
        "gen_ai.usage.cache_creation_input_tokens"@,
        cache_creation_input_tokens,
    ) + some_count(
        "gen_ai.usage.total_input_tokens"@,
        match input_tokens {
            Some(_) => Some(
                total_input_tokens(
                    input_tokens,
                    cache_read_input_tokens,
                    cache_creation_input_tokens,
                ) as u64,
            ),
            None => None,
        },
    )
}

/// The attributes of a measurement of a model's call.
pub open spec fn call_attributes(
    provider: Seq<char>,
    model: Seq<char>,
    success: bool,
) -> Seq<AttributeView> {
    seq![
        text_attribute("provider"@, provider),
        text_attribute("model"@, model),
        text_attribute("success"@, truth(success)),
    ]
}

/// The attributes of a span for a call of the model: the names of this project, and
/// those of OpenTelemetry's conventions for generative models.
pub open spec fn llm_attributes(event: ObserverEvent, texts: LlmTextsView) -> Seq<AttributeView> {
    match event {
        ObserverEvent::LlmResponse {
            provider,
            model,
            duration,
            success,
            system_prompt,
            input_tokens,
            output_tokens,
            cache_read_input_tokens,
            cache_creation_input_tokens,
            ..
        } => seq![
            text_attribute("provider"@, provider@),
            text_attribute("model"@, model@),
            flag_attribute("success"@, success),
            seconds_attribute("duration_s"@, Elapsed::Exact(duration)),
            text_attribute("gen_ai.system"@, provider@),
            text_attribute("gen_ai.operation.name"@, "chat"@),
            text_attribute("gen_ai.request.model"@, model@),
            text_attribute("gen_ai.response.model"@, model@),
        ] + usage_attributes(
            input_tokens,
            output_tokens,
            cache_read_input_tokens,
            cache_creation_input_tokens,
        ) + some_text("gen_ai.system_instructions"@, system_prompt.deep_view()) + some_text(
            "gen_ai.input.messages"@,
            texts.input_messages,
        ) + some_text("gen_ai.tool.definitions"@, texts.tool_definitions) + seq![
            text_attribute("gen_ai.output.messages"@, texts.output_messages),
        ],
        _ => Seq::empty(),
    }
}

/// What is told of a call of the model, given its documents as texts; nothing of
/// another event.
pub open spec fn llm_signals(event: ObserverEvent, texts: LlmTextsView) -> Seq<SignalView> {
    match event {
        ObserverEvent::LlmResponse { provider, model, duration, success, .. } => seq![
            SignalView::Add {
                counter: Instrument::LlmCalls,
                value: 1,
                attributes: call_attributes(provider@, model@, success),
            },
            SignalView::Record {
                histogram: Instrument::LlmDuration,
                value: Elapsed::Exact(duration),
                attributes: call_attributes(provider@, model@, success),
            },
            SignalView::Emit(
                SpanView {
                    name: "llm.call"@,
                    kind: SpanKind::Client,
                    elapsed: Some(Elapsed::Exact(duration)),
                    attributes: llm_attributes(event, texts),
                    status: bare_status(success),
                },
            ),
        ],
        _ => Seq::empty(),
    }
}

/// What is told of the end of a session. Its tokens are not counted here: they are
/// measured one call at a time.
pub open spec fn agent_end_signals(
    provider: Seq<char>,
    model: Seq<char>,
    duration: Duration,
    tokens_used: Option<u64>,
    cost_usd: Option<UsdAmount>,
) -> Seq<SignalView> {
    seq![
        SignalView::Emit(
            SpanView {
                name: "agent.invocation"@,
                kind: SpanKind::Internal,
                elapsed: Some(Elapsed::Exact(duration)),
                attributes: seq![
                    text_attribute("provider"@, provider),
                    text_attribute("model"@, model),
                    seconds_attribute("duration_s"@, Elapsed::Exact(duration)),
                ] + some_count("tokens_used"@, tokens_used) + some_usd("cost_usd"@, cost_usd),
                status: StatusView::Unset,
            },
        ),
        SignalView::Record {
            histogram: Instrument::AgentDuration,
            value: Elapsed::Exact(duration),
            attributes: seq![
                text_attribute("provider"@, provider),
                text_attribute("model"@, model),
            ],
        },
    ]
}

/// The attributes of a span for a tool's run. Arguments and result are shown twice:
/// under the names of the conventions, and where viewers look for input and output.
pub open spec fn tool_attributes(
    tool: Seq<char>,
    tool_call_id: Option<Seq<char>>,
    duration: Duration,
    success: bool,
    arguments: Option<Seq<char>>,
    result: Option<Seq<char>>,
) -> Seq<AttributeView> {
    seq![
        text_attribute("tool.name"@, tool),
        flag_attribute("tool.success"@, success),
        seconds_attribute("duration_s"@, Elapsed::Exact(duration)),
        text_attribute("gen_ai.operation.name"@, "execute_tool"@),
        text_attribute("gen_ai.tool.name"@, tool),
    ] + some_text("gen_ai.tool.call.id"@, tool_call_id) + some_text(
        "gen_ai.tool.arguments"@,
        arguments,
    ) + some_text("input.value"@, arguments) + some_text("gen_ai.tool.result"@, result) + some_text(
        "output.value"@,
        result,
    )
}

/// What is told of a tool's run.
pub open spec fn tool_signals(
    tool: Seq<char>,
    tool_call_id: Option<Seq<char>>,
    duration: Duration,
    success: bool,
    arguments: Option<Seq<char>>,
    result: Option<Seq<char>>,
) -> Seq<SignalView> {
    seq![
        SignalView::Emit(
            SpanView {
                name: "tool.call"@,
                kind: SpanKind::Internal,
                elapsed: Some(Elapsed::Exact(duration)),
                attributes: tool_attributes(
                    tool,
                    tool_call_id,
                    duration,
                    success,
                    arguments,
                    result,
                ),
                status: bare_status(success),
            },
        ),
        SignalView::Add {
            counter: Instrument::ToolCalls,
            value: 1,
            attributes: seq![
                text_attribute("tool"@, tool),
                text_attribute("success"@, truth(success)),
            ],
        },
        SignalView::Record {
            histogram: Instrument::ToolDuration,
            value: Elapsed::Exact(duration),
            attributes: seq![text_attribute("tool"@, tool)],
        },
    ]
}

/// What is told of an error.
pub open spec fn error_signals(component: Seq<char>, message: Seq<char>) -> Seq<SignalView> {
    seq![
        SignalView::Emit(
            SpanView {
                name: "error"@,
                kind: SpanKind::Internal,
                elapsed: None,
                attributes: seq![
                    text_attribute("component"@, component),
                    text_attribute("error.message"@, message),
                ],
                status: StatusView::Failure(message),
            },
        ),
        SignalView::Add {
            counter: Instrument::Errors,
            value: 1,
            attributes: seq![text_attribute("component"@, component)],
        },
    ]
}

/// The run of a hand, counted by how it ended.
pub open spec fn hand_run(hand_name: Seq<char>, success: bool) -> SignalView {
    SignalView::Add {
        counter: Instrument::HandRuns,
        value: 1,
        attributes: seq![
            text_attribute("hand"@, hand_name),
            text_attribute("success"@, truth(success)),
        ],
    }
}

/// How long a run of a hand took.
pub open spec fn hand_time(hand_name: Seq<char>, value: Elapsed) -> SignalView {
    SignalView::Record {
        histogram: Instrument::HandDuration,
        value,
        attributes: seq![text_attribute("hand"@, hand_name)],
    }
}

/// The findings of a hand, added up.
pub open spec fn hand_findings(hand_name: Seq<char>, value: u64) -> SignalView {
    SignalView::Add {
        counter: Instrument::HandFindings,
        value,
        attributes: seq![text_attribute("hand"@, hand_name)],
    }
}

/// What is told of a hand that ran to its end.
pub open spec fn hand_completed_signals(
    hand_name: Seq<char>,
    duration_ms: u64,
    findings: u64,
) -> Seq<SignalView> {
    seq![
        SignalView::Emit(
            SpanView {
                name: "hand.run"@,
                kind: SpanKind::Internal,
                elapsed: Some(Elapsed::Millis(duration_ms)),
                attributes: seq![
                    text_attribute("hand.name"@, hand_name),
                    flag_attribute("hand.success"@, true),
                    number_attribute("hand.findings"@, signed(findings)),
                    seconds_attribute("duration_s"@, Elapsed::Millis(duration_ms)),
                ],
                status: StatusView::Success,
            },
        ),
        hand_run(hand_name, true),
        hand_time(hand_name, Elapsed::Millis(duration_ms)),
        hand_findings(hand_name, findings),
    ]
}

/// What is told of a hand that failed.
pub open spec fn hand_failed_signals(
    hand_name: Seq<char>,
    error: Seq<char>,
    duration_ms: u64,
) -> Seq<SignalView> {
    seq![
        SignalView::Emit(
            SpanView {
                name: "hand.run"@,
                kind: SpanKind::Internal,
                elapsed: Some(Elapsed::Millis(duration_ms)),
                attributes: seq![
                    text_attribute("hand.name"@, hand_name),
                    flag_attribute("hand.success"@, false),
                    text_attribute("error.message"@, error),
                    seconds_attribute("duration_s"@, Elapsed::Millis(duration_ms)),
                ],
                status: StatusView::Failure(error),
            },
        ),
        hand_run(hand_name, false),
        hand_time(hand_name, Elapsed::Millis(duration_ms)),
    ]
}

/// What is told of an event.
pub open spec fn event_signals(event: ObserverEvent) -> Seq<SignalView> {
    match event {
        ObserverEvent::AgentStart { provider, model } => seq![
            SignalView::Add {
                counter: Instrument::AgentStarts,
                value: 1,
                attributes: seq![
                    text_attribute("provider"@, provider@),
                    text_attribute("model"@, model@),
                ],
            },
        ],
        ObserverEvent::LlmResponse {
            input_messages,
            tool_definitions,
            output_text,
            output_tool_calls,
            ..
        } => llm_signals(
            event,
            llm_texts(
                input_messages@,
                tool_definitions@,
                output_text.deep_view(),
                output_tool_calls@,
            ),
        ),
        ObserverEvent::AgentEnd {
            provider,
            model,
            duration,
            tokens_used,
            cost_usd,
        } => agent_end_signals(provider@, model@, duration, tokens_used, cost_usd),
        ObserverEvent::ToolCall {
            tool,
            tool_call_id,
            duration,
            success,
            arguments,
            result,
        } => tool_signals(
            tool@,
            tool_call_id.deep_view(),
            duration,
            success,
            arguments.deep_view(),
            result.deep_view(),
        ),
        ObserverEvent::ChannelMessage { channel, direction } => seq![
            SignalView::Add {
                counter: Instrument::ChannelMessages,
                value: 1,
                attributes: seq![
                    text_attribute("channel"@, channel@),
                    text_attribute("direction"@, direction@),
                ],
            },
        ],
        ObserverEvent::HeartbeatTick => seq![
            SignalView::Add {
                counter: Instrument::HeartbeatTicks,
                value: 1,
                attributes: Seq::empty(),
            },
        ],
        ObserverEvent::Error { component, message } => error_signals(component@, message@),
        ObserverEvent::HandCompleted {
            hand_name,
            duration_ms,
            findings_count,
        } => hand_completed_signals(hand_name@, duration_ms, findings_count as u64),
        ObserverEvent::HandFailed { hand_name, error, duration_ms } => hand_failed_signals(
            hand_name@,
            error@,
            duration_ms,
        ),
        ObserverEvent::LlmRequest { .. } => Seq::empty(),
        ObserverEvent::ToolCallStart { .. } => Seq::empty(),
        ObserverEvent::TurnComplete => Seq::empty(),
        ObserverEvent::CacheHit { .. } => Seq::empty(),
        ObserverEvent::CacheMiss { .. } => Seq::empty(),
        ObserverEvent::HandStarted { .. } => Seq::empty(),
        ObserverEvent::DeploymentStarted { .. } => Seq::empty(),
        ObserverEvent::DeploymentCompleted { .. } => Seq::empty(),
        ObserverEvent::DeploymentFailed { .. } => Seq::empty(),
        ObserverEvent::RecoveryCompleted { .. } => Seq::empty(),
    }
}

/// What is told of a measurement.
pub open spec fn metric_signals(metric: ObserverMetric) -> Seq<SignalView> {
    match metric {
        ObserverMetric::RequestLatency(duration) => seq![
            SignalView::Record {
                histogram: Instrument::RequestLatency,
                value: Elapsed::Exact(duration),
                attributes: Seq::empty(),
            },
        ],
        ObserverMetric::TokensUsed(tokens) => seq![
            SignalView::Add {
                counter: Instrument::TokensUsed,
                value: tokens,
                attributes: Seq::empty(),
            },
        ],
        ObserverMetric::ActiveSessions(sessions) => seq![
            SignalView::Level { gauge: Instrument::ActiveSessions, value: sessions },
        ],
        ObserverMetric::QueueDepth(depth) => seq![
            SignalView::Level { gauge: Instrument::QueueDepth, value: depth },
        ],
        ObserverMetric::HandRunDuration { hand_name, duration } => seq![
            hand_time(hand_name@, Elapsed::Exact(duration)),
        ],
        ObserverMetric::HandFindingsCount { hand_name, count } => seq![
            hand_findings(hand_name@, count),
        ],
        ObserverMetric::HandSuccessRate { hand_name, success } => seq![
            hand_run(hand_name@, success),
        ],
        ObserverMetric::DeploymentLeadTime(_) => Seq::empty(),
        ObserverMetric::RecoveryTime(_) => Seq::empty(),
    }
}

// Laws.

/// Whether an event is of no interest to backends: what it announces is told when
/// it is over, or not at all.
pub open spec fn silent(event: ObserverEvent) -> bool {
    ||| event is LlmRequest
    ||| event is ToolCallStart
    ||| event is TurnComplete
    ||| event is CacheHit
    ||| event is CacheMiss
    ||| event is HandStarted
    ||| event is DeploymentStarted
    ||| event is DeploymentCompleted
    ||| event is DeploymentFailed
    ||| event is RecoveryCompleted
}

/// Backends are told something of an event if and only if it is not silent.
pub proof fn law_silent_events(event: ObserverEvent)
    ensures
        event_signals(event).len() == 0 <==> silent(event),
{
}

/// Whether a signal fits the instrument that it is for.
pub open spec fn fits(signal: SignalView) -> bool {
    match signal {
        SignalView::Add { counter, .. } => counter.presented().kind == InstrumentKind::Counter,
        SignalView::Record { histogram, .. } => histogram.presented().kind
            == InstrumentKind::Histogram,
        SignalView::Level { gauge, .. } => gauge.presented().kind == InstrumentKind::Gauge,
        SignalView::Emit(_) => true,
    }
}

/// Every signal fits its instrument: counters are added to, histograms record, and
/// gauges are set.
pub proof fn law_signals_fit(event: ObserverEvent, metric: ObserverMetric)
    ensures
        forall|i: int|
            0 <= i < event_signals(event).len() ==> fits(#[trigger] event_signals(event)[i]),
        forall|i: int|
            0 <= i < metric_signals(metric).len() ==> fits(#[trigger] metric_signals(metric)[i]),
{
}

/// Whether a signal counts tokens.
pub open spec fn counts_tokens(signal: SignalView) -> bool {
    signal matches SignalView::Add { counter: Instrument::TokensUsed, .. }
}

/// Tokens are counted once: where they are measured, and by no event.
pub proof fn law_tokens_counted_once(event: ObserverEvent, metric: ObserverMetric)
    ensures
        forall|i: int|
            0 <= i < event_signals(event).len() ==> !counts_tokens(
                #[trigger] event_signals(event)[i],
            ),
        metric matches ObserverMetric::TokensUsed(tokens) ==> metric_signals(metric) == seq![
            SignalView::Add {
                counter: Instrument::TokensUsed,
                value: tokens,
                attributes: Seq::empty(),
            },
        ],
        !(metric is TokensUsed) ==> forall|i: int|
            0 <= i < metric_signals(metric).len() ==> !counts_tokens(
                #[trigger] metric_signals(metric)[i],
            ),
{
}

/// Whether an event tells of something that failed.
pub open spec fn failed(event: ObserverEvent) -> bool {
    match event {
        ObserverEvent::LlmResponse { success, .. } => !success,
        ObserverEvent::ToolCall { success, .. } => !success,
        ObserverEvent::Error { .. } => true,
        ObserverEvent::HandFailed { .. } => true,
        _ => false,
    }
}

/// Whether a signal is a span of something that failed.
pub open spec fn shows_failure(signal: SignalView) -> bool {
    signal matches SignalView::Emit(span) && span.status is Failure
}

/// A span of an event has failed if and only if what the event tells of has.
pub proof fn law_failure_is_shown(event: ObserverEvent)
    ensures
        forall|i: int|
            0 <= i < event_signals(event).len() && event_signals(event)[i] is Emit ==> (
            shows_failure(#[trigger] event_signals(event)[i]) <==> failed(event)),
{
}

/// A span shows the total of the prompt's tokens if and only if it shows the new
/// ones, and the total is the sum of the three, as far as a signed number goes.
pub proof fn law_total_of_input_tokens(
    input_tokens: Option<u64>,
    output_tokens: Option<u64>,
    cache_read_input_tokens: Option<u64>,
    cache_creation_input_tokens: Option<u64>,
)
    requires
        total_input_tokens(input_tokens, cache_read_input_tokens, cache_creation_input_tokens)
            <= i64::MAX,
    ensures
        ({
            let shown = usage_attributes(
                input_tokens,
                output_tokens,
                cache_read_input_tokens,
                cache_creation_input_tokens,
            );
            let total = number_attribute(
                "gen_ai.usage.total_input_tokens"@,
                total_input_tokens(
                    input_tokens,
                    cache_read_input_tokens,
                    cache_creation_input_tokens,
                ),
            );
            if input_tokens is Some {
                shown.len() > 0 && shown.last() == total
            } else {
                forall|i: int|
                    0 <= i < shown.len() ==> (#[trigger] shown[i]).key
                        != "gen_ai.usage.total_input_tokens"@
            }
        }),
{
    reveal_strlit("gen_ai.usage.output_tokens");
    reveal_strlit("gen_ai.usage.cache_read_input_tokens");
    reveal_strlit("gen_ai.usage.cache_creation_input_tokens");
    reveal_strlit("gen_ai.usage.total_input_tokens");
    assert("gen_ai.usage.output_tokens"@.len() == 26);
    assert("gen_ai.usage.cache_read_input_tokens"@.len() == 36);
    assert("gen_ai.usage.cache_creation_input_tokens"@.len() == 40);
    assert("gen_ai.usage.total_input_tokens"@.len() == 31);
}

/// What a call of the model answered is shown in every case, in the last attribute
/// of its span.
pub proof fn law_answer_is_shown(event: ObserverEvent, texts: LlmTextsView)
    requires
        event is LlmResponse,
    ensures
        llm_attributes(event, texts).last() == text_attribute(
            "gen_ai.output.messages"@,
            texts.output_messages,
        ),
        llm_signals(event, texts).last() is Emit,
        llm_signals(event, texts).last()->Emit_0.attributes == llm_attributes(event, texts),
{
}

// What is told, by key.

/// Whether attributes tell a value under a key.
pub open spec fn tells(attributes: Seq<AttributeView>, key: Seq<char>, value: ValueView) -> bool {
    attributes.contains(AttributeView { key, value })
}

/// The attributes of a signal; a gauge has none.
pub open spec fn signal_attributes(signal: SignalView) -> Seq<AttributeView> {
    match signal {
        SignalView::Add { attributes, .. } => attributes,
        SignalView::Record { attributes, .. } => attributes,
        SignalView::Level { .. } => Seq::empty(),
        SignalView::Emit(span) => span.attributes,
    }
}

/// Whether a signal adds to the counter with a name.
pub open spec fn adds(signal: SignalView, name: Seq<char>, amount: u64) -> bool {
    signal matches SignalView::Add { counter, value, .. } && counter.presented().name == name
        && value == amount
}

/// Whether a signal records a length of time in the histogram with a name.
pub open spec fn records(signal: SignalView, name: Seq<char>, elapsed: Elapsed) -> bool {
    signal matches SignalView::Record { histogram, value, .. } && histogram.presented().name == name
        && value == elapsed
}

/// Whether a signal is a span with a name, of a kind, and of a length of time.
pub open spec fn spans(
    signal: SignalView,
    name: Seq<char>,
    kind: SpanKind,
    elapsed: Option<Elapsed>,
) -> bool {
    signal matches SignalView::Emit(span) && span.name == name && span.kind == kind && span.elapsed
        == elapsed
}

/// How what an event tells of has ended, where it has and the event says how.
pub open spec fn outcome_of(event: ObserverEvent) -> Option<bool> {
    match event {
        ObserverEvent::LlmResponse { success, .. } => Some(success),
        ObserverEvent::ToolCall { success, .. } => Some(success),
        ObserverEvent::HandCompleted { .. } => Some(true),
        ObserverEvent::HandFailed { .. } => Some(false),
        _ => None,
    }
}

/// Whether a key is one under which attributes tell of success.
pub open spec fn tells_success(key: Seq<char>) -> bool {
    key == "success"@ || key == "tool.success"@ || key == "hand.success"@
}

/// Whether a value stands for a truth value, as a text or as a flag.
pub open spec fn stands_for(value: ValueView, truth: bool) -> bool {
    match value {
        ValueView::Flag(flag) => flag == truth,
        ValueView::Text(text) => text == if truth {
            "true"@
        } else {
            "false"@
        },
        _ => false,
    }
}

proof fn lemma_keys_of_success()
    ensures
        !tells_success("provider"@),
        !tells_success("model"@),
        !tells_success("duration_s"@),
        !tells_success("gen_ai.system"@),
        !tells_success("gen_ai.operation.name"@),
        !tells_success("gen_ai.request.model"@),
        !tells_success("gen_ai.response.model"@),
        !tells_success("gen_ai.usage.input_tokens"@),
        !tells_success("gen_ai.usage.output_tokens"@),
        !tells_success("gen_ai.usage.cache_read_input_tokens"@),
        !tells_success("gen_ai.usage.cache_creation_input_tokens"@),
        !tells_success("gen_ai.usage.total_input_tokens"@),
        !tells_success("gen_ai.system_instructions"@),
        !tells_success("gen_ai.input.messages"@),
        !tells_success("gen_ai.tool.definitions"@),
        !tells_success("gen_ai.output.messages"@),
        !tells_success("tokens_used"@),
        !tells_success("cost_usd"@),
        !tells_success("tool.name"@),
        !tells_success("gen_ai.tool.name"@),
        !tells_success("gen_ai.tool.call.id"@),
        !tells_success("gen_ai.tool.arguments"@),
        !tells_success("input.value"@),
        !tells_success("gen_ai.tool.result"@),
        !tells_success("output.value"@),
        !tells_success("tool"@),
        !tells_success("component"@),
        !tells_success("error.message"@),
        !tells_success("hand"@),
        !tells_success("hand.name"@),
        !tells_success("hand.findings"@),
        !tells_success("channel"@),
        !tells_success("direction"@),
        "true"@ != "false"@,
{
    reveal_strlit("true");
    reveal_strlit("false");
    assert("true"@.len() == 4 && "false"@.len() == 5);
    reveal_strlit("success");
    reveal_strlit("tool.success");
    reveal_strlit("hand.success");
    assert("success"@.len() == 7 && "tool.success"@.len() == 12 && "hand.success"@.len() == 12);
    assert("success"@[0] == 's' && "tool.success"@[0] == 't' && "hand.success"@[0] == 'h');
    reveal_strlit("provider");
    assert("provider"@.len() == 8 && "provider"@[0] == 'p');
    reveal_strlit("model");
    assert("model"@.len() == 5 && "model"@[0] == 'm');
    reveal_strlit("duration_s");
    assert("duration_s"@.len() == 10 && "duration_s"@[0] == 'd');
    reveal_strlit("gen_ai.system");
    assert("gen_ai.system"@.len() == 13 && "gen_ai.system"@[0] == 'g');
    reveal_strlit("gen_ai.operation.name");
    assert("gen_ai.operation.name"@.len() == 21 && "gen_ai.operation.name"@[0] == 'g');
    reveal_strlit("gen_ai.request.model");
    assert("gen_ai.request.model"@.len() == 20 && "gen_ai.request.model"@[0] == 'g');
    reveal_strlit("gen_ai.response.model");
    assert("gen_ai.response.model"@.len() == 21 && "gen_ai.response.model"@[0] == 'g');
    reveal_strlit("gen_ai.usage.input_tokens");
    assert("gen_ai.usage.input_tokens"@.len() == 25 && "gen_ai.usage.input_tokens"@[0] == 'g');
    reveal_strlit("gen_ai.usage.output_tokens");
    assert("gen_ai.usage.output_tokens"@.len() == 26 && "gen_ai.usage.output_tokens"@[0] == 'g');
    reveal_strlit("gen_ai.usage.cache_read_input_tokens");
    assert("gen_ai.usage.cache_read_input_tokens"@.len() == 36);
    assert("gen_ai.usage.cache_read_input_tokens"@[0] == 'g');
    reveal_strlit("gen_ai.usage.cache_creation_input_tokens");
    assert("gen_ai.usage.cache_creation_input_tokens"@.len() == 40);
    assert("gen_ai.usage.cache_creation_input_tokens"@[0] == 'g');
    reveal_strlit("gen_ai.usage.total_input_tokens");
    assert("gen_ai.usage.total_input_tokens"@.len() == 31);
    assert("gen_ai.usage.total_input_tokens"@[0] == 'g');
    reveal_strlit("gen_ai.system_instructions");
    assert("gen_ai.system_instructions"@.len() == 26 && "gen_ai.system_instructions"@[0] == 'g');
    reveal_strlit("gen_ai.input.messages");
    assert("gen_ai.input.messages"@.len() == 21 && "gen_ai.input.messages"@[0] == 'g');
    reveal_strlit("gen_ai.tool.definitions");
    assert("gen_ai.tool.definitions"@.len() == 23 && "gen_ai.tool.definitions"@[0] == 'g');
    reveal_strlit("gen_ai.output.messages");
    assert("gen_ai.output.messages"@.len() == 22 && "gen_ai.output.messages"@[0] == 'g');
    reveal_strlit("tokens_used");
    assert("tokens_used"@.len() == 11 && "tokens_used"@[0] == 't');
    reveal_strlit("cost_usd");
    assert("cost_usd"@.len() == 8 && "cost_usd"@[0] == 'c');
    reveal_strlit("tool.name");
    assert("tool.name"@.len() == 9 && "tool.name"@[0] == 't');
    reveal_strlit("gen_ai.tool.name");
    assert("gen_ai.tool.name"@.len() == 16 && "gen_ai.tool.name"@[0] == 'g');
    reveal_strlit("gen_ai.tool.call.id");
    assert("gen_ai.tool.call.id"@.len() == 19 && "gen_ai.tool.call.id"@[0] == 'g');
    reveal_strlit("gen_ai.tool.arguments");
    assert("gen_ai.tool.arguments"@.len() == 21 && "gen_ai.tool.arguments"@[0] == 'g');
    reveal_strlit("input.value");
    assert("input.value"@.len() == 11 && "input.value"@[0] == 'i');
    reveal_strlit("gen_ai.tool.result");
    assert("gen_ai.tool.result"@.len() == 18 && "gen_ai.tool.result"@[0] == 'g');
    reveal_strlit("output.value");
    assert("output.value"@.len() == 12 && "output.value"@[0] == 'o');
    reveal_strlit("tool");
    assert("tool"@.len() == 4 && "tool"@[0] == 't');
    reveal_strlit("component");
    assert("component"@.len() == 9 && "component"@[0] == 'c');
    reveal_strlit("error.message");
    assert("error.message"@.len() == 13 && "error.message"@[0] == 'e');
    reveal_strlit("hand");
    assert("hand"@.len() == 4 && "hand"@[0] == 'h');
    reveal_strlit("hand.name");
    assert("hand.name"@.len() == 9 && "hand.name"@[0] == 'h');
    reveal_strlit("hand.findings");
    assert("hand.findings"@.len() == 13 && "hand.findings"@[0] == 'h');
    reveal_strlit("channel");
    assert("channel"@.len() == 7 && "channel"@[0] == 'c');
    reveal_strlit("direction");
    assert("direction"@.len() == 9 && "direction"@[0] == 'd');
}

proof fn lemma_key_of_some_text(key: Seq<char>, text: Option<Seq<char>>)
    ensures
        forall|attribute: AttributeView| #[trigger]
            some_text(key, text).contains(attribute) ==> attribute.key == key,
{
}

proof fn lemma_key_of_some_count(key: Seq<char>, count: Option<u64>)
    ensures
        forall|attribute: AttributeView| #[trigger]
            some_count(key, count).contains(attribute) ==> attribute.key == key,
{
}

proof fn lemma_usage_tells_no_success(
    input_tokens: Option<u64>,
    output_tokens: Option<u64>,
    cache_read_input_tokens: Option<u64>,
    cache_creation_input_tokens: Option<u64>,
    attribute: AttributeView,
)
    requires
        usage_attributes(
            input_tokens,
            output_tokens,
            cache_read_input_tokens,
            cache_creation_input_tokens,
        ).contains(attribute),
    ensures
        !tells_success(attribute.key),
{
    broadcast use vstd::seq_lib::lemma_seq_concat_contains_all_elements;

    lemma_keys_of_success();
    let total = match input_tokens {
        Some(_) => Some(
            total_input_tokens(
                input_tokens,
                cache_read_input_tokens,
                cache_creation_input_tokens,
            ) as u64,
        ),
        None => None,
    };
    lemma_key_of_some_count("gen_ai.usage.input_tokens"@, input_tokens);
    lemma_key_of_some_count("gen_ai.usage.output_tokens"@, output_tokens);
    lemma_key_of_some_count("gen_ai.usage.cache_read_input_tokens"@, cache_read_input_tokens);
    lemma_key_of_some_count(
        "gen_ai.usage.cache_creation_input_tokens"@,
        cache_creation_input_tokens,
    );
    lemma_key_of_some_count("gen_ai.usage.total_input_tokens"@, total);
}

proof fn lemma_span_of_call_tells_success(
    event: ObserverEvent,
    texts: LlmTextsView,
    attribute: AttributeView,
)
    requires
        event is LlmResponse,
        llm_attributes(event, texts).contains(attribute),
        tells_success(attribute.key),
    ensures
        stands_for(attribute.value, event->LlmResponse_success),
{
    broadcast use vstd::seq_lib::lemma_seq_concat_contains_all_elements;

    lemma_keys_of_success();
    if let ObserverEvent::LlmResponse {
        provider,
        model,
        duration,
        success,
        system_prompt,
        input_tokens,
        output_tokens,
        cache_read_input_tokens,
        cache_creation_input_tokens,
        ..
    } = event {
        let front = seq![
            text_attribute("provider"@, provider@),
            text_attribute("model"@, model@),
            flag_attribute("success"@, success),
            seconds_attribute("duration_s"@, Elapsed::Exact(duration)),
            text_attribute("gen_ai.system"@, provider@),
            text_attribute("gen_ai.operation.name"@, "chat"@),
            text_attribute("gen_ai.request.model"@, model@),
            text_attribute("gen_ai.response.model"@, model@),
        ];
        let usage = usage_attributes(
            input_tokens,
            output_tokens,
            cache_read_input_tokens,
            cache_creation_input_tokens,
        );
        if usage.contains(attribute) {
            lemma_usage_tells_no_success(
                input_tokens,
                output_tokens,
                cache_read_input_tokens,
                cache_creation_input_tokens,
                attribute,
            );
        }
        lemma_key_of_some_text("gen_ai.system_instructions"@, system_prompt.deep_view());
        lemma_key_of_some_text("gen_ai.input.messages"@, texts.input_messages);
        lemma_key_of_some_text("gen_ai.tool.definitions"@, texts.tool_definitions);
        assert(front.contains(attribute));
        let j = front.index_of(attribute);
        assert(front[j] == attribute);
    }
}

proof fn lemma_span_of_tool_tells_success(
    tool: Seq<char>,
    tool_call_id: Option<Seq<char>>,
    duration: Duration,
    success: bool,
    arguments: Option<Seq<char>>,
    result: Option<Seq<char>>,
    attribute: AttributeView,
)
    requires
        tool_attributes(tool, tool_call_id, duration, success, arguments, result).contains(
            attribute,
        ),
        tells_success(attribute.key),
    ensures
        stands_for(attribute.value, success),
{
    broadcast use vstd::seq_lib::lemma_seq_concat_contains_all_elements;

    lemma_keys_of_success();
    let front = seq![
        text_attribute("tool.name"@, tool),
        flag_attribute("tool.success"@, success),
        seconds_attribute("duration_s"@, Elapsed::Exact(duration)),
        text_attribute("gen_ai.operation.name"@, "execute_tool"@),
        text_attribute("gen_ai.tool.name"@, tool),
    ];
    lemma_key_of_some_text("gen_ai.tool.call.id"@, tool_call_id);
    lemma_key_of_some_text("gen_ai.tool.arguments"@, arguments);
    lemma_key_of_some_text("input.value"@, arguments);
    lemma_key_of_some_text("gen_ai.tool.result"@, result);
    lemma_key_of_some_text("output.value"@, result);
    assert(front.contains(attribute));
    let j = front.index_of(attribute);
    assert(front[j] == attribute);
}

/// Whatever signal of an event tells of success, it tells of the success or the failure
/// that the event tells of: the text `true` or a true flag where it is a success, and
/// the text `false` or a false flag where it is not.
pub proof fn law_success_is_told(event: ObserverEvent, at: int, attribute: AttributeView)
    requires
        0 <= at < event_signals(event).len(),
        signal_attributes(event_signals(event)[at]).contains(attribute),
        tells_success(attribute.key),
    ensures
        outcome_of(event) is Some,
        stands_for(attribute.value, outcome_of(event)->0),
{
    let attributes = signal_attributes(event_signals(event)[at]);
    match event {
        ObserverEvent::LlmResponse {
            input_messages,
            tool_definitions,
            output_text,
            output_tool_calls,
            ..
        } => {
            let texts = llm_texts(
                input_messages@,
                tool_definitions@,
                output_text.deep_view(),
                output_tool_calls@,
            );
            if at == 2 {
                lemma_span_of_call_tells_success(event, texts, attribute);
            } else {
                lemma_keys_of_success();
                let j = attributes.index_of(attribute);
                assert(attributes[j] == attribute);
            }
        },
        ObserverEvent::ToolCall {
            tool,
            tool_call_id,
            duration,
            success,
            arguments,
            result,
        } => {
            if at == 0 {
                lemma_span_of_tool_tells_success(
                    tool@,
                    tool_call_id.deep_view(),
                    duration,
                    success,
                    arguments.deep_view(),
                    result.deep_view(),
                    attribute,
                );
            } else {
                lemma_keys_of_success();
                let j = attributes.index_of(attribute);
                assert(attributes[j] == attribute);
            }
        },
        ObserverEvent::AgentEnd { provider, model, duration, tokens_used, cost_usd } => {
            lemma_keys_of_success();
            let j = attributes.index_of(attribute);
            assert(attributes[j] == attribute);
            assert(j < 3 || attributes[j].key == "tokens_used"@ || attributes[j].key
                == "cost_usd"@);
        },
        _ => {
            lemma_keys_of_success();
            let j = attributes.index_of(attribute);
            assert(attributes[j] == attribute);
        },
    }
}

/// A measurement of how a hand's run ended tells of the success or the failure that it
/// is of.
pub proof fn law_measured_success_is_told(
    metric: ObserverMetric,
    at: int,
    attribute: AttributeView,
)
    requires
        0 <= at < metric_signals(metric).len(),
        signal_attributes(metric_signals(metric)[at]).contains(attribute),
        tells_success(attribute.key),
    ensures
        metric matches ObserverMetric::HandSuccessRate { success, .. } && stands_for(
            attribute.value,
            success,
        ),
{
    lemma_keys_of_success();
    let attributes = signal_attributes(metric_signals(metric)[at]);
    let j = choose|j: int| 0 <= j < attributes.len() && attributes[j] == attribute;
    assert(attributes[j].key == attribute.key);
}

/// A signed number has the same bits as the count: it differs from it by nothing, or by
/// two to the sixty-fourth where the count is too large.
pub proof fn law_signed_keeps_the_bits(count: u64)
    ensures
        i64::MIN <= signed(count) <= i64::MAX,
        (signed(count) - count) % 0x1_0000_0000_0000_0000 == 0,
        count <= i64::MAX ==> signed(count) == count,
{
}

/// The start of a session is counted once, by provider and model.
pub proof fn law_start_is_told(event: ObserverEvent, provider: String, model: String)
    requires
        event == (ObserverEvent::AgentStart { provider, model }),
    ensures
        ({
            let signals = event_signals(event);
            let told = signal_attributes(signals[0]);
            &&& signals.len() == 1
            &&& adds(signals[0], "zeroclaw.agent.starts"@, 1)
            &&& told.len() == 2
            &&& tells(told, "provider"@, ValueView::Text(provider@))
            &&& tells(told, "model"@, ValueView::Text(model@))
        }),
{
    let told = signal_attributes(event_signals(event)[0]);
    assert(told[0].key == "provider"@ && told[1].key == "model"@);
}

/// A message through a channel is counted once, by channel and direction.
pub proof fn law_channel_message_is_told(event: ObserverEvent, channel: String, direction: String)
    requires
        event == (ObserverEvent::ChannelMessage { channel, direction }),
    ensures
        ({
            let signals = event_signals(event);
            let told = signal_attributes(signals[0]);
            &&& signals.len() == 1
            &&& adds(signals[0], "zeroclaw.channel.messages"@, 1)
            &&& told.len() == 2
            &&& tells(told, "channel"@, ValueView::Text(channel@))
            &&& tells(told, "direction"@, ValueView::Text(direction@))
        }),
{
    let told = signal_attributes(event_signals(event)[0]);
    assert(told[0].key == "channel"@ && told[1].key == "direction"@);
}

/// A heartbeat is counted once, and nothing else is said of it.
pub proof fn law_heartbeat_is_told(event: ObserverEvent)
    requires
        event is HeartbeatTick,
    ensures
        ({
            let signals = event_signals(event);
            &&& signals.len() == 1
            &&& adds(signals[0], "zeroclaw.heartbeat.ticks"@, 1)
            &&& signal_attributes(signals[0]).len() == 0
        }),
{
}

/// An error is shown by a span that starts and ends at once and fails with the message,
/// and is counted once, by component.
pub proof fn law_error_is_told(event: ObserverEvent, component: String, message: String)
    requires
        event == (ObserverEvent::Error { component, message }),
    ensures
        ({
            let signals = event_signals(event);
            let told = signal_attributes(signals[0]);
            let counted = signal_attributes(signals[1]);
            &&& signals.len() == 2
            &&& spans(signals[0], "error"@, SpanKind::Internal, None)
            &&& signals[0]->Emit_0.status == StatusView::Failure(message@)
            &&& told.len() == 2
            &&& tells(told, "component"@, ValueView::Text(component@))
            &&& tells(told, "error.message"@, ValueView::Text(message@))
            &&& adds(signals[1], "zeroclaw.errors"@, 1)
            &&& counted.len() == 1
            &&& tells(counted, "component"@, ValueView::Text(component@))
        }),
{
    let signals = event_signals(event);
    let told = signal_attributes(signals[0]);
    assert(told[0].key == "component"@ && told[1].key == "error.message"@);
    assert(signal_attributes(signals[1])[0].key == "component"@);
}

/// The end of a session is shown by a span of its length, with its tokens and its cost
/// where they are known, and its length is recorded; how it ended is left open.
pub proof fn law_end_is_told(
    event: ObserverEvent,
    provider: String,
    model: String,
    duration: Duration,
    tokens_used: Option<u64>,
    cost_usd: Option<UsdAmount>,
)
    requires
        event == (ObserverEvent::AgentEnd { provider, model, duration, tokens_used, cost_usd }),
    ensures
        ({
            let signals = event_signals(event);
            let told = signal_attributes(signals[0]);
            let timed = signal_attributes(signals[1]);
            let tokens = if tokens_used is Some { 1int } else { 0 };
            let cost = if cost_usd is Some { 1int } else { 0 };
            &&& signals.len() == 2
            &&& spans(
                signals[0],
                "agent.invocation"@,
                SpanKind::Internal,
                Some(Elapsed::Exact(duration)),
            )
            &&& signals[0]->Emit_0.status is Unset
            &&& told.len() == 3 + tokens + cost
            &&& tells(told, "provider"@, ValueView::Text(provider@))
            &&& tells(told, "model"@, ValueView::Text(model@))
            &&& tells(told, "duration_s"@, ValueView::Seconds(Elapsed::Exact(duration)))
            &&& tokens_used matches Some(n) ==> tells(
                told,
                "tokens_used"@,
                ValueView::Number(signed(n)),
            )
            &&& cost_usd matches Some(usd) ==> tells(told, "cost_usd"@, ValueView::Usd(usd))
            &&& records(signals[1], "zeroclaw.agent.duration"@, Elapsed::Exact(duration))
            &&& timed.len() == 2
            &&& tells(timed, "provider"@, ValueView::Text(provider@))
            &&& tells(timed, "model"@, ValueView::Text(model@))
        }),
{
    let signals = event_signals(event);
    let told = signal_attributes(signals[0]);
    assert(told[0].key == "provider"@ && told[1].key == "model"@ && told[2].key == "duration_s"@);
    assert(signal_attributes(signals[1])[0].key == "provider"@);
    assert(signal_attributes(signals[1])[1].key == "model"@);
    assert(some_count("tokens_used"@, tokens_used).len() > 0 ==> told[3] == some_count(
        "tokens_used"@,
        tokens_used,
    )[0]);
    assert(some_usd("cost_usd"@, cost_usd).len() > 0 ==> told.last() == some_usd(
        "cost_usd"@,
        cost_usd,
    )[0]);
}

/// A tool's run is shown by a span of its length that says what the tool was called with
/// and what it gave back, each under both its keys, where they are known. The run is
/// counted once, by tool and outcome, and its length is recorded by tool.
pub proof fn law_tool_run_is_told(
    event: ObserverEvent,
    tool: String,
    tool_call_id: Option<String>,
    duration: Duration,
    success: bool,
    arguments: Option<String>,
    result: Option<String>,
)
    requires
        event == (ObserverEvent::ToolCall {
            tool,
            tool_call_id,
            duration,
            success,
            arguments,
            result,
        }),
    ensures
        ({
            let signals = event_signals(event);
            let told = signal_attributes(signals[0]);
            let counted = signal_attributes(signals[1]);
            let timed = signal_attributes(signals[2]);
            let id = if tool_call_id is Some { 1int } else { 0 };
            let given = if arguments is Some { 2int } else { 0 };
            let back = if result is Some { 2int } else { 0 };
            &&& signals.len() == 3
            &&& spans(
                signals[0],
                "tool.call"@,
                SpanKind::Internal,
                Some(Elapsed::Exact(duration)),
            )
            &&& success ==> signals[0]->Emit_0.status is Success
            &&& !success ==> signals[0]->Emit_0.status is Failure
                && signals[0]->Emit_0.status->Failure_0.len() == 0
            &&& told.len() == 5 + id + given + back
            &&& tells(told, "tool.name"@, ValueView::Text(tool@))
            &&& tells(told, "tool.success"@, ValueView::Flag(success))
            &&& tells(told, "duration_s"@, ValueView::Seconds(Elapsed::Exact(duration)))
            &&& tells(told, "gen_ai.operation.name"@, ValueView::Text("execute_tool"@))
            &&& tells(told, "gen_ai.tool.name"@, ValueView::Text(tool@))
            &&& tool_call_id matches Some(text) ==> tells(
                told,
                "gen_ai.tool.call.id"@,
                ValueView::Text(text@),
            )
            &&& arguments matches Some(text) ==> tells(
                told,
                "gen_ai.tool.arguments"@,
                ValueView::Text(text@),
            ) && tells(
                told,
                "input.value"@,
                ValueView::Text(text@),
            )
            &&& result matches Some(text) ==> tells(
                told,
                "gen_ai.tool.result"@,
                ValueView::Text(text@),
            ) && tells(
                told,
                "output.value"@,
                ValueView::Text(text@),
            )
            &&& adds(signals[1], "zeroclaw.tool.calls"@, 1)
            &&& counted.len() == 2
            &&& tells(counted, "tool"@, ValueView::Text(tool@))
            &&& tells(
                counted,
                "success"@,
                ValueView::Text(if success { "true"@ } else { "false"@ }),
            )
            &&& records(signals[2], "zeroclaw.tool.duration"@, Elapsed::Exact(duration))
            &&& timed.len() == 1
            &&& tells(timed, "tool"@, ValueView::Text(tool@))
        }),
{
    broadcast use vstd::seq_lib::lemma_seq_concat_contains_all_elements;

    let signals = event_signals(event);
    let told = signal_attributes(signals[0]);
    assert(told[0].key == "tool.name"@ && told[1].key == "tool.success"@ && told[2].key
        == "duration_s"@);
    assert(told[3].key == "gen_ai.operation.name"@ && told[4].key == "gen_ai.tool.name"@);
    let counted = signal_attributes(signals[1]);
    assert(counted[0].key == "tool"@ && counted[1].key == "success"@);
    assert(signal_attributes(signals[2])[0].key == "tool"@);
    lemma_some_text_is_told("gen_ai.tool.call.id"@, tool_call_id.deep_view());
    lemma_some_text_is_told("gen_ai.tool.arguments"@, arguments.deep_view());
    lemma_some_text_is_told("input.value"@, arguments.deep_view());
    lemma_some_text_is_told("gen_ai.tool.result"@, result.deep_view());
    lemma_some_text_is_told("output.value"@, result.deep_view());
}

proof fn lemma_some_text_is_told(key: Seq<char>, text: Option<Seq<char>>)
    ensures
        text matches Some(text) ==> some_text(key, Some(text)).contains(
            AttributeView { key, value: ValueView::Text(text) },
        ),
{
    if text is Some {
        assert(some_text(key, text)[0].key == key);
    }
}

proof fn lemma_some_count_is_told(key: Seq<char>, count: Option<u64>)
    ensures
        count matches Some(n) ==> some_count(key, Some(n)).contains(
            AttributeView { key, value: ValueView::Number(signed(n)) },
        ),
{
    if count is Some {
        assert(some_count(key, count)[0].key == key);
    }
}

/// A hand's run to its end is shown by a span that succeeds and says how much it found. It
/// is counted once as a success, its length is recorded and its findings are added up, all
/// by hand.
pub proof fn law_hand_run_is_told(
    event: ObserverEvent,
    hand_name: String,
    duration_ms: u64,
    findings_count: usize,
)
    requires
        event == (ObserverEvent::HandCompleted { hand_name, duration_ms, findings_count }),
    ensures
        ({
            let signals = event_signals(event);
            let told = signal_attributes(signals[0]);
            let counted = signal_attributes(signals[1]);
            let timed = signal_attributes(signals[2]);
            let found = signal_attributes(signals[3]);
            &&& signals.len() == 4
            &&& spans(
                signals[0],
                "hand.run"@,
                SpanKind::Internal,
                Some(Elapsed::Millis(duration_ms)),
            )
            &&& signals[0]->Emit_0.status is Success
            &&& told.len() == 4
            &&& tells(told, "hand.name"@, ValueView::Text(hand_name@))
            &&& tells(told, "hand.success"@, ValueView::Flag(true))
            &&& tells(told, "hand.findings"@, ValueView::Number(signed(findings_count as u64)))
            &&& tells(told, "duration_s"@, ValueView::Seconds(Elapsed::Millis(duration_ms)))
            &&& adds(signals[1], "zeroclaw.hand.runs"@, 1)
            &&& counted.len() == 2
            &&& tells(counted, "hand"@, ValueView::Text(hand_name@))
            &&& tells(counted, "success"@, ValueView::Text("true"@))
            &&& records(signals[2], "zeroclaw.hand.duration"@, Elapsed::Millis(duration_ms))
            &&& timed.len() == 1
            &&& tells(timed, "hand"@, ValueView::Text(hand_name@))
            &&& adds(signals[3], "zeroclaw.hand.findings"@, findings_count as u64)
            &&& found.len() == 1
            &&& tells(found, "hand"@, ValueView::Text(hand_name@))
        }),
{
    let signals = event_signals(event);
    let told = signal_attributes(signals[0]);
    assert(told[0].key == "hand.name"@ && told[1].key == "hand.success"@);
    assert(told[2].key == "hand.findings"@ && told[3].key == "duration_s"@);
    assert(signal_attributes(signals[1])[0].key == "hand"@);
    assert(signal_attributes(signals[1])[1].key == "success"@);
    assert(signal_attributes(signals[2])[0].key == "hand"@);
    assert(signal_attributes(signals[3])[0].key == "hand"@);
}

/// A hand's failure is shown by a span that fails with the error. It is counted once as a
/// failure and its length is recorded, both by hand.
pub proof fn law_hand_failure_is_told(
    event: ObserverEvent,
    hand_name: String,
    error: String,
    duration_ms: u64,
)
    requires
        event == (ObserverEvent::HandFailed { hand_name, error, duration_ms }),
    ensures
        ({
            let signals = event_signals(event);
            let told = signal_attributes(signals[0]);
            let counted = signal_attributes(signals[1]);
            let timed = signal_attributes(signals[2]);
            &&& signals.len() == 3
            &&& spans(
                signals[0],
                "hand.run"@,
                SpanKind::Internal,
                Some(Elapsed::Millis(duration_ms)),
            )
            &&& signals[0]->Emit_0.status == StatusView::Failure(error@)
            &&& told.len() == 4
            &&& tells(told, "hand.name"@, ValueView::Text(hand_name@))
            &&& tells(told, "hand.success"@, ValueView::Flag(false))
            &&& tells(told, "error.message"@, ValueView::Text(error@))
            &&& tells(told, "duration_s"@, ValueView::Seconds(Elapsed::Millis(duration_ms)))
            &&& adds(signals[1], "zeroclaw.hand.runs"@, 1)
            &&& counted.len() == 2
            &&& tells(counted, "hand"@, ValueView::Text(hand_name@))
            &&& tells(counted, "success"@, ValueView::Text("false"@))
            &&& records(signals[2], "zeroclaw.hand.duration"@, Elapsed::Millis(duration_ms))
            &&& timed.len() == 1
            &&& tells(timed, "hand"@, ValueView::Text(hand_name@))
        }),
{
    let signals = event_signals(event);
    let told = signal_attributes(signals[0]);
    assert(told[0].key == "hand.name"@ && told[1].key == "hand.success"@);
    assert(told[2].key == "error.message"@ && told[3].key == "duration_s"@);
    assert(signal_attributes(signals[1])[0].key == "hand"@);
    assert(signal_attributes(signals[1])[1].key == "success"@);
    assert(signal_attributes(signals[2])[0].key == "hand"@);
}

/// Whether measurements of a model's call tell of its provider, its model and its
/// outcome, and of nothing else.
pub open spec fn tells_of_call(
    attributes: Seq<AttributeView>,
    provider: Seq<char>,
    model: Seq<char>,
    success: bool,
) -> bool {
    &&& attributes.len() == 3
    &&& tells(attributes, "provider"@, ValueView::Text(provider))
    &&& tells(attributes, "model"@, ValueView::Text(model))
    &&& tells(attributes, "success"@, ValueView::Text(if success { "true"@ } else { "false"@ }))
}

/// A call of the model is counted once, its length is recorded, and a span of its length
/// shows it; all three say how it ended.
pub proof fn law_model_call_is_told(event: ObserverEvent, texts: LlmTextsView)
    requires
        event is LlmResponse,
    ensures
        match event {
            ObserverEvent::LlmResponse { provider, model, duration, success, .. } => {
                let signals = llm_signals(event, texts);
                &&& signals.len() == 3
                &&& adds(signals[0], "zeroclaw.llm.calls"@, 1)
                &&& tells_of_call(signal_attributes(signals[0]), provider@, model@, success)
                &&& records(signals[1], "zeroclaw.llm.duration"@, Elapsed::Exact(duration))
                &&& tells_of_call(signal_attributes(signals[1]), provider@, model@, success)
                &&& spans(
                    signals[2],
                    "llm.call"@,
                    SpanKind::Client,
                    Some(Elapsed::Exact(duration)),
                )
                &&& success ==> signals[2]->Emit_0.status is Success
                &&& !success ==> signals[2]->Emit_0.status is Failure
                    && signals[2]->Emit_0.status->Failure_0.len() == 0
            },
            _ => true,
        },
{
    let signals = llm_signals(event, texts);
    let counted = signal_attributes(signals[0]);
    let timed = signal_attributes(signals[1]);
    assert(counted[0].key == "provider"@ && counted[1].key == "model"@ && counted[2].key
        == "success"@);
    assert(timed[0].key == "provider"@ && timed[1].key == "model"@ && timed[2].key == "success"@);
}

/// One for an attribute that is there.
pub open spec fn one_if<T>(there: Option<T>) -> int {
    if there is Some {
        1
    } else {
        0
    }
}

/// The span of a model's call says everything that is known of it, under these keys and no
/// others. The total of the prompt is the sum of its new tokens, those that were read from
/// the cache and those that were written to it.
#[verifier::rlimit(50)]
pub proof fn law_model_call_is_shown_whole(event: ObserverEvent, texts: LlmTextsView)
    requires
        event is LlmResponse,
        countable(event),
    ensures
        match event {
            ObserverEvent::LlmResponse {
                provider,
                model,
                duration,
                success,
                system_prompt,
                input_tokens,
                output_tokens,
                cache_read_input_tokens,
                cache_creation_input_tokens,
                ..
            } => {
                let told = signal_attributes(llm_signals(event, texts)[2]);
                let read = match cache_read_input_tokens { Some(n) => n as int, None => 0 };
                let written = match cache_creation_input_tokens { Some(n) => n as int, None => 0 };
                &&& told.len() == 9 + 2 * one_if(input_tokens) + one_if(output_tokens)
                    + one_if(cache_read_input_tokens) + one_if(cache_creation_input_tokens)
                    + one_if(system_prompt) + one_if(texts.input_messages)
                    + one_if(texts.tool_definitions)
                &&& tells(told, "provider"@, ValueView::Text(provider@))
                &&& tells(told, "model"@, ValueView::Text(model@))
                &&& tells(told, "success"@, ValueView::Flag(success))
                &&& tells(told, "duration_s"@, ValueView::Seconds(Elapsed::Exact(duration)))
                &&& tells(told, "gen_ai.system"@, ValueView::Text(provider@))
                &&& tells(told, "gen_ai.operation.name"@, ValueView::Text("chat"@))
                &&& tells(told, "gen_ai.request.model"@, ValueView::Text(model@))
                &&& tells(told, "gen_ai.response.model"@, ValueView::Text(model@))
                &&& input_tokens matches Some(n) ==> tells(
                    told,
                    "gen_ai.usage.input_tokens"@,
                    ValueView::Number(signed(n)),
                )
                &&& output_tokens matches Some(n) ==> tells(
                    told,
                    "gen_ai.usage.output_tokens"@,
                    ValueView::Number(signed(n)),
                )
                &&& cache_read_input_tokens matches Some(n) ==> tells(
                    told,
                    "gen_ai.usage.cache_read_input_tokens"@,
                    ValueView::Number(signed(n)),
                )
                &&& cache_creation_input_tokens matches Some(n) ==> tells(
                    told,
                    "gen_ai.usage.cache_creation_input_tokens"@,
                    ValueView::Number(signed(n)),
                )
                &&& input_tokens matches Some(n) ==> n + read + written <= u64::MAX && tells(
                    told,
                    "gen_ai.usage.total_input_tokens"@,
                    ValueView::Number(signed((n + read + written) as u64)),
                )
                &&& system_prompt matches Some(text) ==> tells(
                    told,
                    "gen_ai.system_instructions"@,
                    ValueView::Text(text@),
                )
                &&& texts.input_messages matches Some(text) ==> tells(
                    told,
                    "gen_ai.input.messages"@,
                    ValueView::Text(text),
                )
                &&& texts.tool_definitions matches Some(text) ==> tells(
                    told,
                    "gen_ai.tool.definitions"@,
                    ValueView::Text(text),
                )
                &&& tells(told, "gen_ai.output.messages"@, ValueView::Text(texts.output_messages))
            },
            _ => true,
        },
{
    broadcast use vstd::seq_lib::lemma_seq_concat_contains_all_elements;

    let told = signal_attributes(llm_signals(event, texts)[2]);
    assert(told[0].key == "provider"@ && told[1].key == "model"@ && told[2].key == "success"@);
    assert(told[3].key == "duration_s"@ && told[4].key == "gen_ai.system"@);
    assert(told[5].key == "gen_ai.operation.name"@ && told[6].key == "gen_ai.request.model"@);
    assert(told[7].key == "gen_ai.response.model"@);
    assert(told.last().key == "gen_ai.output.messages"@);
    if let ObserverEvent::LlmResponse {
        system_prompt,
        input_tokens,
        output_tokens,
        cache_read_input_tokens,
        cache_creation_input_tokens,
        ..
    } = event {
        lemma_some_count_is_told("gen_ai.usage.input_tokens"@, input_tokens);
        lemma_some_count_is_told("gen_ai.usage.output_tokens"@, output_tokens);
        lemma_some_count_is_told(
            "gen_ai.usage.cache_read_input_tokens"@,
            cache_read_input_tokens,
        );
        lemma_some_count_is_told(
            "gen_ai.usage.cache_creation_input_tokens"@,
            cache_creation_input_tokens,
        );
        let total = total_input_tokens(
            input_tokens,
            cache_read_input_tokens,
            cache_creation_input_tokens,
        ) as u64;
        lemma_some_count_is_told("gen_ai.usage.total_input_tokens"@, Some(total));
        lemma_some_text_is_told("gen_ai.system_instructions"@, system_prompt.deep_view());
        lemma_some_text_is_told("gen_ai.input.messages"@, texts.input_messages);
        lemma_some_text_is_told("gen_ai.tool.definitions"@, texts.tool_definitions);
    }
}

/// What is told of a call of the model is told with the texts of its own messages,
/// tools and answer.
pub proof fn law_model_call_has_its_texts(event: ObserverEvent)
    ensures
        match event {
            ObserverEvent::LlmResponse {
                input_messages,
                tool_definitions,
                output_text,
                output_tool_calls,
                ..
            } => {
                let said = match output_text {
                    Some(text) => Some(text@),
                    None => None,
                };
                event_signals(event) == llm_signals(
                    event,
                    llm_texts(input_messages@, tool_definitions@, said, output_tool_calls@),
                )
            },
            _ => true,
        },
{
}

/// The tokens of a prompt can be counted if and only if the sum of the three counts fits
/// in a count, or the new ones are not known.
pub proof fn law_countable_prompts(event: ObserverEvent)
    ensures
        match event {
            ObserverEvent::LlmResponse {
                input_tokens: Some(n),
                cache_read_input_tokens,
                cache_creation_input_tokens,
                ..
            } => {
                let read = match cache_read_input_tokens {
                    Some(n) => n as int,
                    None => 0,
                };
                let written = match cache_creation_input_tokens {
                    Some(n) => n as int,
                    None => 0,
                };
                countable(event) <==> n + read + written < 0x1_0000_0000_0000_0000
            },
            _ => countable(event),
        },
{
}

/// A measurement is told by one signal, with its value: a length of time is recorded, a
/// count added, and a level set. Those of a hand say which hand, and one of how a run
/// ended how it did. Nothing is told of deployments.
pub proof fn law_measurements_are_told(metric: ObserverMetric)
    ensures
        ({
            let signals = metric_signals(metric);
            let told = signal_attributes(signals[0]);
            match metric {
                ObserverMetric::RequestLatency(duration) => signals.len() == 1 && records(
                    signals[0],
                    "zeroclaw.request.latency"@,
                    Elapsed::Exact(duration),
                ) && told.len() == 0,
                ObserverMetric::TokensUsed(tokens) => signals.len() == 1 && adds(
                    signals[0],
                    "zeroclaw.tokens.used"@,
                    tokens,
                ) && told.len() == 0,
                ObserverMetric::ActiveSessions(sessions) => signals.len() == 1 && (
                signals[0] matches SignalView::Level { gauge, value } && gauge.presented().name
                    == "zeroclaw.sessions.active"@ && value == sessions),
                ObserverMetric::QueueDepth(depth) => signals.len() == 1 && (
                signals[0] matches SignalView::Level { gauge, value } && gauge.presented().name
                    == "zeroclaw.queue.depth"@ && value == depth),
                ObserverMetric::HandRunDuration { hand_name, duration } => signals.len() == 1
                    && records(signals[0], "zeroclaw.hand.duration"@, Elapsed::Exact(duration))
                    && told.len() == 1 && tells(told, "hand"@, ValueView::Text(hand_name@)),
                ObserverMetric::HandFindingsCount { hand_name, count } => signals.len() == 1
                    && adds(signals[0], "zeroclaw.hand.findings"@, count) && told.len() == 1
                    && tells(told, "hand"@, ValueView::Text(hand_name@)),
                ObserverMetric::HandSuccessRate { hand_name, success } => signals.len() == 1
                    && adds(signals[0], "zeroclaw.hand.runs"@, 1) && told.len() == 2 && tells(
                    told,
                    "hand"@,
                    ValueView::Text(hand_name@),
                ) && tells(
                    told,
                    "success"@,
                    ValueView::Text(if success { "true"@ } else { "false"@ }),
                ),
                ObserverMetric::DeploymentLeadTime(_) => signals.len() == 0,
                ObserverMetric::RecoveryTime(_) => signals.len() == 0,
            }
        }),
{
    let told = signal_attributes(metric_signals(metric)[0]);
    if metric is HandRunDuration || metric is HandFindingsCount || metric is HandSuccessRate {
        assert(told[0].key == "hand"@);
    }
    if metric is HandSuccessRate {
        assert(told[1].key == "success"@);
    }
}

} // verus!
