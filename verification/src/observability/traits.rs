//! What observers of the agent runtime are told.
use crate::json::{parsed_text, readable, rendered_text, JsonView, MAX_DEPTH};
use crate::providers::traits::{ChatMessage, ToolCall};
use crate::tools::ToolSpec;
use std::time::Duration;
use vstd::prelude::*;
use vstd::std_specs::convert::{FromSpec, FromSpecImpl};

verus! {

/// `std::time::Duration::clone`, through which events and measurements that hold a
/// duration are cloned. Claimed: the clone is the same duration.
pub assume_specification[ <Duration as Clone>::clone ](duration: &Duration) -> (copy: Duration)
    ensures
        copy == *duration,
;

/// A copy of one message of a conversation, so that events can carry it without
/// the provider's own type.
#[derive(Debug, Clone)]
pub struct MessageSnapshot {
    pub role: String,
    pub content: String,
}

/// A copy of the definition of a tool.
#[derive(Debug, Clone)]
pub struct ToolSpecSnapshot {
    pub name: String,
    pub description: String,
    /// The JSON schema of the tool's parameters, as a text. Observers that need
    /// its structure can parse it.
    pub parameters_json: String,
}

/// A copy of a tool call that the model asked for.
#[derive(Debug, Clone)]
pub struct ToolCallSnapshot {
    pub id: String,
    pub name: String,
    /// The arguments, as the text of a JSON document.
    pub arguments_json: String,
}

/// An amount of money in US dollars: the bits of a double-precision number, which
/// are passed on as they are.
#[derive(Debug, Clone, Copy, PartialEq, Eq, Structural)]
pub struct UsdAmount {
    pub bits: u64,
}

/// What happens in the agent runtime, one event at a time.
///
/// The events of model calls carry the whole of what was sent and of what came
/// back, so that one span can show both sides of a call.
#[derive(Debug, Clone)]
pub enum ObserverEvent {
    /// The agent has started a session.
    AgentStart { provider: String, model: String },
    /// A request is about to be sent to a model. What it says comes with
    /// `LlmResponse`.
    LlmRequest { provider: String, model: String, messages_count: usize },
    /// A model has answered, or has failed to.
    LlmResponse {
        provider: String,
        model: String,
        duration: Duration,
        success: bool,
        error_message: Option<String>,
        /// The system prompt; none where the conversation has no system message.
        system_prompt: Option<String>,
        /// The messages that were sent, in order, the system message included.
        /// Empty where the caller has no list of them.
        input_messages: Vec<MessageSnapshot>,
        /// The tools that the call offered.
        tool_definitions: Vec<ToolSpecSnapshot>,
        input_tokens: Option<u64>,
        output_tokens: Option<u64>,
        /// Tokens that were read from the provider's prompt cache. They are not
        /// among the `input_tokens`: all three together are the whole prompt.
        cache_read_input_tokens: Option<u64>,
        /// Tokens that this call wrote to the provider's prompt cache.
        cache_creation_input_tokens: Option<u64>,
        /// What the model said. It may be empty where it only called tools; none
        /// on failure.
        output_text: Option<String>,
        /// The tools that the model called.
        output_tool_calls: Vec<ToolCallSnapshot>,
    },
    /// The session has ended. Tokens and cost are there where the provider reports
    /// them.
    AgentEnd {
        provider: String,
        model: String,
        duration: Duration,
        tokens_used: Option<u64>,
        cost_usd: Option<UsdAmount>,
    },
    /// A tool is about to run.
    ToolCallStart {
        tool: String,
        /// The identifier that the model gave the call; none where it gives none.
        tool_call_id: Option<String>,
        /// The arguments, as the text of a JSON document, in full.
        arguments: Option<String>,
    },
    /// A tool has run, with or without success.
    ToolCall {
        tool: String,
        tool_call_id: Option<String>,
        duration: Duration,
        success: bool,
        /// The arguments once more, so that one span can show both sides of a call.
        arguments: Option<String>,
        /// What the tool gave back, with its credentials already taken out.
        result: Option<String>,
    },
    /// The agent has given its answer to the user's message.
    TurnComplete,
    /// A message has gone through a channel.
    ChannelMessage {
        /// The channel, as `telegram` or `discord`.
        channel: String,
        /// `inbound` or `outbound`.
        direction: String,
    },
    /// The runtime is alive.
    HeartbeatTick,
    /// The response cache has spared a call of the model.
    CacheHit {
        /// `hot` (in memory) or `warm` (on disk).
        cache_type: String,
        /// About how many tokens were spared.
        tokens_saved: u64,
    },
    /// The response cache did not know the prompt.
    CacheMiss {
        /// The layer of the cache that was asked.
        cache_type: String,
    },
    /// A component has failed.
    Error {
        /// Where the error came from, as `provider` or `gateway`.
        component: String,
        /// What went wrong. It must hold no secrets or tokens.
        message: String,
    },
    /// A hand has started.
    HandStarted { hand_name: String },
    /// A hand has run to its end.
    HandCompleted { hand_name: String, duration_ms: u64, findings_count: usize },
    /// A hand has failed.
    HandFailed { hand_name: String, error: String, duration_ms: u64 },
    /// A deployment has started.
    DeploymentStarted {
        /// What identifies the deployment, as a commit or a release tag.
        deploy_id: String,
    },
    /// A deployment has succeeded.
    DeploymentCompleted {
        deploy_id: String,
        /// The commit that was deployed.
        commit_sha: String,
    },
    /// A deployment has failed.
    DeploymentFailed {
        deploy_id: String,
        /// Why it failed.
        reason: String,
    },
    /// A failed deployment has been recovered from.
    RecoveryCompleted { deploy_id: String },
}

/// A number that the agent runtime measures.
#[derive(Debug, Clone)]
pub enum ObserverMetric {
    /// How long one request to a model or a tool took.
    RequestLatency(Duration),
    /// How many tokens a call of the model took.
    TokensUsed(u64),
    /// How many sessions are active now.
    ActiveSessions(u64),
    /// How many messages wait now.
    QueueDepth(u64),
    /// How long one run of a hand took.
    HandRunDuration { hand_name: String, duration: Duration },
    /// How many findings a run of a hand gave.
    HandFindingsCount { hand_name: String, count: u64 },
    /// How a run of a hand ended.
    HandSuccessRate { hand_name: String, success: bool },
    /// How long it took from commit to deployment.
    DeploymentLeadTime(Duration),
    /// How long it took to recover from a failed deployment.
    RecoveryTime(Duration),
}

impl<'a> From<&'a ChatMessage> for MessageSnapshot {
    fn from(msg: &'a ChatMessage) -> (snapshot: MessageSnapshot) {
        MessageSnapshot { role: msg.role.clone(), content: msg.content.clone() }
    }
}

impl<'a> FromSpecImpl<&'a ChatMessage> for MessageSnapshot {
    open spec fn obeys_from_spec() -> bool {
        true
    }

    open spec fn from_spec(msg: &'a ChatMessage) -> MessageSnapshot {
        MessageSnapshot { role: msg.role, content: msg.content }
    }
}

impl<'a> From<&'a ToolSpec> for ToolSpecSnapshot {
    fn from(spec: &'a ToolSpec) -> (snapshot: ToolSpecSnapshot)
        ensures
            snapshot.name == spec.name,
            snapshot.description == spec.description,
            snapshot.parameters_json@ == rendered_text(spec.parameters@),
            readable(spec.parameters@, MAX_DEPTH) ==> (parsed_text(snapshot.parameters_json@)
                == Ok::<JsonView, Seq<char>>(spec.parameters@)),
    {
        ToolSpecSnapshot {
            name: spec.name.clone(),
            description: spec.description.clone(),
            parameters_json: spec.parameters.render(),
        }
    }
}

impl<'a> FromSpecImpl<&'a ToolSpec> for ToolSpecSnapshot {
    /// The text of the parameters is known by what it says alone; the clauses of
    /// `from` say the rest.
    open spec fn obeys_from_spec() -> bool {
        false
    }

    open spec fn from_spec(spec: &'a ToolSpec) -> ToolSpecSnapshot {
        arbitrary()
    }
}

impl<'a> From<&'a ToolCall> for ToolCallSnapshot {
    fn from(call: &'a ToolCall) -> (snapshot: ToolCallSnapshot) {
        ToolCallSnapshot {
            id: call.id.clone(),
            name: call.name.clone(),
            arguments_json: call.arguments.clone(),
        }
    }
}

impl<'a> FromSpecImpl<&'a ToolCall> for ToolCallSnapshot {
    open spec fn obeys_from_spec() -> bool {
        true
    }

    open spec fn from_spec(call: &'a ToolCall) -> ToolCallSnapshot {
        ToolCallSnapshot { id: call.id, name: call.name, arguments_json: call.arguments }
    }
}

/// Someone who is told what happens in the agent runtime.
///
/// Implement this to connect a backend. The runtime shares its observers between
/// tasks and calls [`Observer::record_event`] and [`Observer::record_metric`] as
/// things happen.
pub trait Observer: Send + Sync + 'static {
    /// Takes an event. The caller waits: what takes long is better buffered.
    fn record_event(&self, event: &ObserverEvent);

    /// Takes a measurement. The caller waits here too.
    fn record_metric(&self, metric: &ObserverMetric);

    /// Hands on what is buffered. The runtime calls this when it shuts down; where
    /// nothing is buffered there is nothing to do.
    fn flush(&self) {
    }

    /// The name of the backend, for logs.
    fn name(&self) -> &str;
}

/// A copy of a message or of a tool call keeps what it is a copy of, word for word.
pub proof fn law_copies_keep_the_words(message: &ChatMessage, call: &ToolCall)
    ensures
        <MessageSnapshot as FromSpec<&ChatMessage>>::from_spec(message).role@ == message.role@,
        <MessageSnapshot as FromSpec<&ChatMessage>>::from_spec(message).content@
            == message.content@,
        <ToolCallSnapshot as FromSpec<&ToolCall>>::from_spec(call).id@ == call.id@,
        <ToolCallSnapshot as FromSpec<&ToolCall>>::from_spec(call).name@ == call.name@,
        <ToolCallSnapshot as FromSpec<&ToolCall>>::from_spec(call).arguments_json@
            == call.arguments@,
{
}

} // verus!
