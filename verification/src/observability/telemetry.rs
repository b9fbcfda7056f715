//! Telemetry as plain data: instruments, measurements and spans.
use crate::observability::traits::UsdAmount;
use std::time::Duration;
use vstd::prelude::*;

verus! {

/// What measurements are taken with.
#[derive(Debug, Clone, Copy, PartialEq, Eq, Hash, Structural)]
pub enum Instrument {
    AgentStarts,
    AgentDuration,
    LlmCalls,
    LlmDuration,
    ToolCalls,
    ToolDuration,
    ChannelMessages,
    HeartbeatTicks,
    Errors,
    RequestLatency,
    TokensUsed,
    ActiveSessions,
    QueueDepth,
    HandRuns,
    HandDuration,
    HandFindings,
}

/// What an instrument does with a measurement: add it up, spread it over buckets,
/// or keep the latest.
#[derive(Debug, Clone, Copy, PartialEq, Eq, Structural)]
pub enum InstrumentKind {
    Counter,
    Histogram,
    Gauge,
}

/// How an instrument presents itself.
#[derive(Debug, Clone, Copy)]
pub struct InstrumentSpec {
    pub kind: InstrumentKind,
    pub name: &'static str,
    pub description: &'static str,
    pub unit: Option<&'static str>,
}

pub struct InstrumentSpecView {
    pub kind: InstrumentKind,
    pub name: Seq<char>,
    pub description: Seq<char>,
    pub unit: Option<Seq<char>>,
}

impl DeepView for InstrumentSpec {
    type V = InstrumentSpecView;

    open spec fn deep_view(&self) -> InstrumentSpecView {
        InstrumentSpecView {
            kind: self.kind,
            name: self.name@,
            description: self.description@,
            unit: self.unit.deep_view(),
        }
    }
}

/// A length of time. Backends take it in seconds.
#[derive(Debug, Clone, Copy)]
pub enum Elapsed {
    Exact(Duration),
    Millis(u64),
}

/// The value of an attribute.
#[derive(Debug, Clone)]
pub enum AttributeValue {
    Text(String),
    Flag(bool),
    Number(i64),
    Seconds(Elapsed),
    Usd(UsdAmount),
}

pub enum ValueView {
    Text(Seq<char>),
    Flag(bool),
    Number(int),
    Seconds(Elapsed),
    Usd(UsdAmount),
}

impl DeepView for AttributeValue {
    type V = ValueView;

    open spec fn deep_view(&self) -> ValueView {
        match self {
            AttributeValue::Text(text) => ValueView::Text(text@),
            AttributeValue::Flag(flag) => ValueView::Flag(*flag),
            AttributeValue::Number(n) => ValueView::Number(*n as int),
            AttributeValue::Seconds(elapsed) => ValueView::Seconds(*elapsed),
            AttributeValue::Usd(amount) => ValueView::Usd(*amount),
        }
    }
}

/// Something that is said of a measurement or a span.
#[derive(Debug, Clone)]
pub struct Attribute {
    pub key: &'static str,
    pub value: AttributeValue,
}

pub struct AttributeView {
    pub key: Seq<char>,
    pub value: ValueView,
}

impl DeepView for Attribute {
    type V = AttributeView;

    open spec fn deep_view(&self) -> AttributeView {
        AttributeView { key: self.key@, value: self.value.deep_view() }
    }
}

/// An attribute that is a text.
pub open spec fn text_attribute(key: Seq<char>, value: Seq<char>) -> AttributeView {
    AttributeView { key, value: ValueView::Text(value) }
}

/// An attribute that is true or false.
pub open spec fn flag_attribute(key: Seq<char>, value: bool) -> AttributeView {
    AttributeView { key, value: ValueView::Flag(value) }
}

/// An attribute that is a number.
pub open spec fn number_attribute(key: Seq<char>, value: int) -> AttributeView {
    AttributeView { key, value: ValueView::Number(value) }
}

/// An attribute that is a length of time.
pub open spec fn seconds_attribute(key: Seq<char>, value: Elapsed) -> AttributeView {
    AttributeView { key, value: ValueView::Seconds(value) }
}

impl Attribute {
    /// An attribute that is a text.
    pub fn text(key: &'static str, value: &str) -> (attribute: Attribute)
        ensures
            attribute.deep_view() == text_attribute(key@, value@),
    {
        Attribute { key, value: AttributeValue::Text(value.to_string()) }
    }

    /// An attribute that is true or false.
    pub fn flag(key: &'static str, value: bool) -> (attribute: Attribute)
        ensures
            attribute.deep_view() == flag_attribute(key@, value),
    {
        Attribute { key, value: AttributeValue::Flag(value) }
    }

    /// An attribute that is a number.
    pub fn number(key: &'static str, value: i64) -> (attribute: Attribute)
        ensures
            attribute.deep_view() == number_attribute(key@, value as int),
    {
        Attribute { key, value: AttributeValue::Number(value) }
    }

    /// An attribute that is a length of time.
    pub fn seconds(key: &'static str, value: Elapsed) -> (attribute: Attribute)
        ensures
            attribute.deep_view() == seconds_attribute(key@, value),
    {
        Attribute { key, value: AttributeValue::Seconds(value) }
    }
}

/// What a span says of the other side: that there is one, or that there is none.
#[derive(Debug, Clone, Copy, PartialEq, Eq, Structural)]
pub enum SpanKind {
    Client,
    Internal,
}

/// How what a span tells of has ended.
#[derive(Debug, Clone)]
pub enum SpanStatus {
    Unset,
    Success,
    Failure(String),
}

pub enum StatusView {
    Unset,
    Success,
    Failure(Seq<char>),
}

impl DeepView for SpanStatus {
    type V = StatusView;

    open spec fn deep_view(&self) -> StatusView {
        match self {
            SpanStatus::Unset => StatusView::Unset,
            SpanStatus::Success => StatusView::Success,
            SpanStatus::Failure(message) => StatusView::Failure(message@),
        }
    }
}

/// A span that is over: it ends now.
#[derive(Debug, Clone)]
pub struct Span {
    pub name: &'static str,
    pub kind: SpanKind,
    /// How long ago it started; none where it starts and ends at once.
    pub elapsed: Option<Elapsed>,
    pub attributes: Vec<Attribute>,
    pub status: SpanStatus,
}

pub struct SpanView {
    pub name: Seq<char>,
    pub kind: SpanKind,
    pub elapsed: Option<Elapsed>,
    pub attributes: Seq<AttributeView>,
    pub status: StatusView,
}

impl DeepView for Span {
    type V = SpanView;

    open spec fn deep_view(&self) -> SpanView {
        SpanView {
            name: self.name@,
            kind: self.kind,
            elapsed: self.elapsed,
            attributes: self.attributes.deep_view(),
            status: self.status.deep_view(),
        }
    }
}

/// One thing to tell a backend.
#[derive(Debug, Clone)]
pub enum Signal {
    /// Add to a counter.
    Add { counter: Instrument, value: u64, attributes: Vec<Attribute> },
    /// Record a length of time in a histogram.
    Record { histogram: Instrument, value: Elapsed, attributes: Vec<Attribute> },
    /// Set a gauge.
    Level { gauge: Instrument, value: u64 },
    /// Show a span.
    Emit(Span),
}

pub enum SignalView {
    Add { counter: Instrument, value: u64, attributes: Seq<AttributeView> },
    Record { histogram: Instrument, value: Elapsed, attributes: Seq<AttributeView> },
    Level { gauge: Instrument, value: u64 },
    Emit(SpanView),
}

impl DeepView for Signal {
    type V = SignalView;

    open spec fn deep_view(&self) -> SignalView {
        match self {
            Signal::Add { counter, value, attributes } => SignalView::Add {
                counter: *counter,
                value: *value,
                attributes: attributes.deep_view(),
            },
            Signal::Record { histogram, value, attributes } => SignalView::Record {
                histogram: *histogram,
                value: *value,
                attributes: attributes.deep_view(),
            },
            Signal::Level { gauge, value } => SignalView::Level { gauge: *gauge, value: *value },
            Signal::Emit(span) => SignalView::Emit(span.deep_view()),
        }
    }
}

/// How a counter presents itself.
pub open spec fn counter(name: Seq<char>, description: Seq<char>) -> InstrumentSpecView {
    InstrumentSpecView { kind: InstrumentKind::Counter, name, description, unit: None }
}

/// How a gauge presents itself.
pub open spec fn gauge(name: Seq<char>, description: Seq<char>) -> InstrumentSpecView {
    InstrumentSpecView { kind: InstrumentKind::Gauge, name, description, unit: None }
}

/// How a histogram of seconds presents itself.
pub open spec fn histogram(name: Seq<char>, description: Seq<char>) -> InstrumentSpecView {
    InstrumentSpecView { kind: InstrumentKind::Histogram, name, description, unit: Some("s"@) }
}

impl Instrument {
    /// How an instrument presents itself. Histograms are of seconds.
    pub open spec fn presented(self) -> InstrumentSpecView {
        match self {
            Instrument::AgentStarts => counter(
                "zeroclaw.agent.starts"@,
                "Total agent invocations"@,
            ),
            Instrument::AgentDuration => histogram(
                "zeroclaw.agent.duration"@,
                "Agent invocation duration in seconds"@,
            ),
            Instrument::LlmCalls => counter("zeroclaw.llm.calls"@, "Total LLM provider calls"@),
            Instrument::LlmDuration => histogram(
                "zeroclaw.llm.duration"@,
                "LLM provider call duration in seconds"@,
            ),
            Instrument::ToolCalls => counter("zeroclaw.tool.calls"@, "Total tool calls"@),
            Instrument::ToolDuration => histogram(
                "zeroclaw.tool.duration"@,
                "Tool execution duration in seconds"@,
            ),
            Instrument::ChannelMessages => counter(
                "zeroclaw.channel.messages"@,
                "Total channel messages"@,
            ),
            Instrument::HeartbeatTicks => counter(
                "zeroclaw.heartbeat.ticks"@,
                "Total heartbeat ticks"@,
            ),
            Instrument::Errors => counter("zeroclaw.errors"@, "Total errors by component"@),
            Instrument::RequestLatency => histogram(
                "zeroclaw.request.latency"@,
                "Request latency in seconds"@,
            ),
            Instrument::TokensUsed => counter(
                "zeroclaw.tokens.used"@,
                "Total tokens consumed (monotonic)"@,
            ),
            Instrument::ActiveSessions => gauge(
                "zeroclaw.sessions.active"@,
                "Current number of active sessions"@,
            ),
            Instrument::QueueDepth => gauge(
                "zeroclaw.queue.depth"@,
                "Current message queue depth"@,
            ),
            Instrument::HandRuns => counter("zeroclaw.hand.runs"@, "Total hand runs"@),
            Instrument::HandDuration => histogram(
                "zeroclaw.hand.duration"@,
                "Hand run duration in seconds"@,
            ),
            Instrument::HandFindings => counter(
                "zeroclaw.hand.findings"@,
                "Total findings produced by hand runs"@,
            ),
        }
    }

    /// How the instrument presents itself.
    pub fn present(self) -> (spec: InstrumentSpec)
        ensures
            spec.deep_view() == self.presented(),
    {
        let (kind, name, description) = match self {
            Instrument::AgentStarts => (
                InstrumentKind::Counter,
                "zeroclaw.agent.starts",
                "Total agent invocations",
            ),
            Instrument::AgentDuration => (
                InstrumentKind::Histogram,
                "zeroclaw.agent.duration",
                "Agent invocation duration in seconds",
            ),
            Instrument::LlmCalls => (
                InstrumentKind::Counter,
                "zeroclaw.llm.calls",
                "Total LLM provider calls",
            ),
            Instrument::LlmDuration => (
                InstrumentKind::Histogram,
                "zeroclaw.llm.duration",
                "LLM provider call duration in seconds",
            ),
            Instrument::ToolCalls => (
                InstrumentKind::Counter,
                "zeroclaw.tool.calls",
                "Total tool calls",
            ),
            Instrument::ToolDuration => (
                InstrumentKind::Histogram,
                "zeroclaw.tool.duration",
                "Tool execution duration in seconds",
            ),
            Instrument::ChannelMessages => (
                InstrumentKind::Counter,
                "zeroclaw.channel.messages",
                "Total channel messages",
            ),
            Instrument::HeartbeatTicks => (
                InstrumentKind::Counter,
                "zeroclaw.heartbeat.ticks",
                "Total heartbeat ticks",
            ),
            Instrument::Errors => (
                InstrumentKind::Counter,
                "zeroclaw.errors",
                "Total errors by component",
            ),
            Instrument::RequestLatency => (
                InstrumentKind::Histogram,
                "zeroclaw.request.latency",
                "Request latency in seconds",
            ),
            Instrument::TokensUsed => (
                InstrumentKind::Counter,
                "zeroclaw.tokens.used",
                "Total tokens consumed (monotonic)",
            ),
            Instrument::ActiveSessions => (
                InstrumentKind::Gauge,
                "zeroclaw.sessions.active",
                "Current number of active sessions",
            ),
            Instrument::QueueDepth => (
                InstrumentKind::Gauge,
                "zeroclaw.queue.depth",
                "Current message queue depth",
            ),
            Instrument::HandRuns => (
                InstrumentKind::Counter,
                "zeroclaw.hand.runs",
                "Total hand runs",
            ),
            Instrument::HandDuration => (
                InstrumentKind::Histogram,
                "zeroclaw.hand.duration",
                "Hand run duration in seconds",
            ),
            Instrument::HandFindings => (
                InstrumentKind::Counter,
                "zeroclaw.hand.findings",
                "Total findings produced by hand runs",
            ),
        };
        let unit = match kind {
            InstrumentKind::Histogram => Some("s"),
            _ => None,
        };
        InstrumentSpec { kind, name, description, unit }
    }

    /// All instruments, each once.
    pub fn all() -> (list: Vec<Instrument>)
        ensures
            forall|instrument: Instrument| list@.contains(instrument),
            list@.no_duplicates(),
    {
        let list = vec![
            Instrument::AgentStarts,
            Instrument::AgentDuration,
            Instrument::LlmCalls,
            Instrument::LlmDuration,
            Instrument::ToolCalls,
            Instrument::ToolDuration,
            Instrument::ChannelMessages,
            Instrument::HeartbeatTicks,
            Instrument::Errors,
            Instrument::RequestLatency,
            Instrument::TokensUsed,
            Instrument::ActiveSessions,
            Instrument::QueueDepth,
            Instrument::HandRuns,
            Instrument::HandDuration,
            Instrument::HandFindings,
        ];
        assert forall|instrument: Instrument| list@.contains(instrument) by {
            match instrument {
                Instrument::AgentStarts => assert(list@[0] == instrument),
                Instrument::AgentDuration => assert(list@[1] == instrument),
                Instrument::LlmCalls => assert(list@[2] == instrument),
                Instrument::LlmDuration => assert(list@[3] == instrument),
                Instrument::ToolCalls => assert(list@[4] == instrument),
                Instrument::ToolDuration => assert(list@[5] == instrument),
                Instrument::ChannelMessages => assert(list@[6] == instrument),
                Instrument::HeartbeatTicks => assert(list@[7] == instrument),
                Instrument::Errors => assert(list@[8] == instrument),
                Instrument::RequestLatency => assert(list@[9] == instrument),
                Instrument::TokensUsed => assert(list@[10] == instrument),
                Instrument::ActiveSessions => assert(list@[11] == instrument),
                Instrument::QueueDepth => assert(list@[12] == instrument),
                Instrument::HandRuns => assert(list@[13] == instrument),
                Instrument::HandDuration => assert(list@[14] == instrument),
                Instrument::HandFindings => assert(list@[15] == instrument),
            }
        }
        list
    }
}

/// No two instruments have one name.
pub proof fn law_instrument_names_differ(a: Instrument, b: Instrument)
    requires
        a != b,
    ensures
        a.presented().name != b.presented().name,
{
    reveal_strlit("zeroclaw.agent.starts");
    reveal_strlit("zeroclaw.agent.duration");
    reveal_strlit("zeroclaw.llm.calls");
    reveal_strlit("zeroclaw.llm.duration");
    reveal_strlit("zeroclaw.tool.calls");
    reveal_strlit("zeroclaw.tool.duration");
    reveal_strlit("zeroclaw.channel.messages");
    reveal_strlit("zeroclaw.heartbeat.ticks");
    reveal_strlit("zeroclaw.errors");
    reveal_strlit("zeroclaw.request.latency");
    reveal_strlit("zeroclaw.tokens.used");
    reveal_strlit("zeroclaw.sessions.active");
    reveal_strlit("zeroclaw.queue.depth");
    reveal_strlit("zeroclaw.hand.runs");
    reveal_strlit("zeroclaw.hand.duration");
    reveal_strlit("zeroclaw.hand.findings");
    let first = a.presented().name;
    let second = b.presented().name;
    assert(first.len() != second.len() || first[9] != second[9] || first[14] != second[14]);
}

/// Whether an instrument presents itself as one of a kind, under a name and with a
/// description. Its unit is the second where it is a histogram, and it has none
/// otherwise.
pub open spec fn presents(
    spec: InstrumentSpecView,
    kind: InstrumentKind,
    name: Seq<char>,
    description: Seq<char>,
) -> bool {
    &&& spec.kind == kind
    &&& spec.name == name
    &&& spec.description == description
    &&& spec.unit is Some <==> kind is Histogram
    &&& spec.unit matches Some(unit) ==> unit == "s"@
}

/// How collectors know the instruments.
pub proof fn law_instruments_are_known(instrument: Instrument)
    ensures
        ({
            let spec = instrument.presented();
            match instrument {
            Instrument::AgentStarts => presents(
                spec,
                InstrumentKind::Counter,
                "zeroclaw.agent.starts"@,
                "Total agent invocations"@,
            ),
            Instrument::AgentDuration => presents(
                spec,
                InstrumentKind::Histogram,
                "zeroclaw.agent.duration"@,
                "Agent invocation duration in seconds"@,
            ),
            Instrument::LlmCalls => presents(
                spec,
                InstrumentKind::Counter,
                "zeroclaw.llm.calls"@,
                "Total LLM provider calls"@,
            ),
            Instrument::LlmDuration => presents(
                spec,
                InstrumentKind::Histogram,
                "zeroclaw.llm.duration"@,
                "LLM provider call duration in seconds"@,
            ),
            Instrument::ToolCalls => presents(
                spec,
                InstrumentKind::Counter,
                "zeroclaw.tool.calls"@,
                "Total tool calls"@,
            ),
            Instrument::ToolDuration => presents(
                spec,
                InstrumentKind::Histogram,
                "zeroclaw.tool.duration"@,
                "Tool execution duration in seconds"@,
            ),
            Instrument::ChannelMessages => presents(
                spec,
                InstrumentKind::Counter,
                "zeroclaw.channel.messages"@,
                "Total channel messages"@,
            ),
            Instrument::HeartbeatTicks => presents(
                spec,
                InstrumentKind::Counter,
                "zeroclaw.heartbeat.ticks"@,
                "Total heartbeat ticks"@,
            ),
            Instrument::Errors => presents(
                spec,
                InstrumentKind::Counter,
                "zeroclaw.errors"@,
                "Total errors by component"@,
            ),
            Instrument::RequestLatency => presents(
                spec,
                InstrumentKind::Histogram,
                "zeroclaw.request.latency"@,
                "Request latency in seconds"@,
            ),
            Instrument::TokensUsed => presents(
                spec,
                InstrumentKind::Counter,
                "zeroclaw.tokens.used"@,
                "Total tokens consumed (monotonic)"@,
            ),
            Instrument::ActiveSessions => presents(
                spec,
                InstrumentKind::Gauge,
                "zeroclaw.sessions.active"@,
                "Current number of active sessions"@,
            ),
            Instrument::QueueDepth => presents(
                spec,
                InstrumentKind::Gauge,
                "zeroclaw.queue.depth"@,
                "Current message queue depth"@,
            ),
            Instrument::HandRuns => presents(
                spec,
                InstrumentKind::Counter,
                "zeroclaw.hand.runs"@,
                "Total hand runs"@,
            ),
            Instrument::HandDuration => presents(
                spec,
                InstrumentKind::Histogram,
                "zeroclaw.hand.duration"@,
                "Hand run duration in seconds"@,
            ),
            Instrument::HandFindings => presents(
                spec,
                InstrumentKind::Counter,
                "zeroclaw.hand.findings"@,
                "Total findings produced by hand runs"@,
            ),
            }
        }),
{
}

/// Telemetry is seen as it is.
pub proof fn law_telemetry_is_seen_whole(
    spec: InstrumentSpec,
    attribute: Attribute,
    status: SpanStatus,
    span: Span,
    signal: Signal,
)
    ensures
        spec.deep_view().kind == spec.kind,
        spec.deep_view().name == spec.name@,
        spec.deep_view().description == spec.description@,
        spec.deep_view().unit is Some <==> spec.unit is Some,
        spec.unit matches Some(unit) ==> spec.deep_view().unit == Some(unit@),
        attribute.deep_view().key == attribute.key@,
        attribute.value matches AttributeValue::Text(text) ==> attribute.deep_view().value
            == ValueView::Text(text@),
        attribute.value matches AttributeValue::Flag(flag) ==> attribute.deep_view().value
            == ValueView::Flag(flag),
        attribute.value matches AttributeValue::Number(n) ==> attribute.deep_view().value
            == ValueView::Number(n as int),
        attribute.value matches AttributeValue::Seconds(elapsed) ==> attribute.deep_view().value
            == ValueView::Seconds(elapsed),
        attribute.value matches AttributeValue::Usd(amount) ==> attribute.deep_view().value
            == ValueView::Usd(amount),
        status is Unset <==> status.deep_view() is Unset,
        status is Success <==> status.deep_view() is Success,
        status matches SpanStatus::Failure(message) ==> status.deep_view() == StatusView::Failure(
            message@,
        ),
        span.deep_view().name == span.name@,
        span.deep_view().kind == span.kind,
        span.deep_view().elapsed == span.elapsed,
        span.deep_view().status == span.status.deep_view(),
        span.deep_view().attributes.len() == span.attributes@.len(),
        forall|i: int|
            0 <= i < span.attributes@.len() ==> #[trigger] span.deep_view().attributes[i]
                == span.attributes@[i].deep_view(),
        signal matches Signal::Add { counter, value, attributes } ==> {
            &&& signal.deep_view() matches SignalView::Add {
                counter: c,
                value: v,
                attributes: shown,
            }
            &&& c == counter && v == value && shown.len() == attributes@.len()
            &&& forall|i: int|
                0 <= i < attributes@.len() ==> #[trigger] shown[i] == attributes@[i].deep_view()
        },
        signal matches Signal::Record { histogram, value, attributes } ==> {
            &&& signal.deep_view() matches SignalView::Record {
                histogram: h,
                value: v,
                attributes: shown,
            }
            &&& h == histogram && v == value && shown.len() == attributes@.len()
            &&& forall|i: int|
                0 <= i < attributes@.len() ==> #[trigger] shown[i] == attributes@[i].deep_view()
        },
        signal matches Signal::Level { gauge, value } ==> signal.deep_view() == (
        SignalView::Level { gauge, value }),
        signal matches Signal::Emit(span) ==> signal.deep_view() == SignalView::Emit(
            span.deep_view(),
        ),
{
}

} // verus!
