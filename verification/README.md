# zeroclaw

The parts of the ZeroClaw agent that decide what a model is asked, what its answer
means, and what observers are told of it. The library under `src/` is verified with
Verus; `app/` performs the HTTP calls, parses the responses with serde, and runs the
telemetry exporters.

- `agent::user_message`: the time and the memory context around a user's message.
- `providers::openrouter`: the OpenRouter provider. It prepares calls, converts
  conversations and tools, and says what a response or an error means. A system
  message carries one mark for the prompt cache, behind the part that stays the same
  from turn to turn.
- `providers::wire`, `providers::traits`, `providers::redact`: what goes over the
  wire, what every provider takes and gives, and how API keys are kept out of error
  messages.
- `observability`: events and measurements of the agent runtime, and the spans and
  measurements that an OpenTelemetry collector is told of them.
- `json`, `outline`, `codec`, `text`, `multimodal`, `tools`: JSON documents, JSON
  texts with their members in order, reading values from documents, text, image
  markers, and tools.

Functions state what they do over views: texts are sequences of characters, objects
are maps. What holds of several functions together is stated by the proof functions
whose names start with `law_`.

JSON texts, random identifiers and the local time come from `serde_json`, `uuid` and
`chrono`. What is believed of them stands at the functions that call them, in
`json.rs`, `providers/openrouter/replies.rs` and `agent/user_message.rs`. What is
believed of `std::time::Duration::clone` stands in `observability/traits.rs`.
