//! The bodies of responses: reading them, and what is said of those that cannot be
//! read.
use crate::providers::openrouter::OpenRouterProvider;
use crate::providers::redact::{
    holds_key, law_redacted_holds_no_key, law_snippet_holds_no_key, lemma_apart_hold_no_key,
    lemma_no_hyphen_no_key, redacted, sanitize_api_error, sanitized_snippet, snippet,
};
use vstd::prelude::*;

verus! {

/// The message for a response body that cannot be understood.
pub open spec fn unexpected_payload(
    provider_name: Seq<char>,
    kind: Seq<char>,
    error: Seq<char>,
    body: Seq<char>,
) -> Seq<char> {
    provider_name + " API returned an unexpected "@ + kind + " payload: "@ + error + "; body="@
        + snippet(body)
}

/// The message for a response body that could not be read.
pub open spec fn transport_error(provider_name: Seq<char>, error: Seq<char>) -> Seq<char> {
    provider_name + " transport error while reading response body: "@ + redacted(error)
}

/// What a response body stands for, given the outcome of parsing it.
pub open spec fn response_value<V>(
    provider_name: Seq<char>,
    body: Seq<char>,
    kind: Seq<char>,
    parsed: Result<V, Seq<char>>,
) -> Result<V, Seq<char>> {
    match parsed {
        Ok(value) => Ok(value),
        Err(error) => Err(unexpected_payload(provider_name, kind, error, body)),
    }
}

/// What an outcome means: the value by its deep view, the error by its text.
pub open spec fn outcome<T: DeepView>(result: Result<T, String>) -> Result<T::V, Seq<char>> {
    match result {
        Ok(value) => Ok(value.deep_view()),
        Err(message) => Err(message@),
    }
}

impl OpenRouterProvider {
    /// A response body as an error message quotes it.
    pub fn compact_sanitized_body_snippet(body: &str) -> (quoted: String)
        ensures
            quoted@ == snippet(body@),
    {
        sanitized_snippet(body)
    }

    /// The body of a response, or the message for a body that could not be read;
    /// `text` is the outcome of reading it.
    pub fn read_response_body(provider_name: &str, text: Result<String, String>) -> (body: Result<
        String,
        String,
    >)
        ensures
            outcome(body) == match text {
                Ok(text) => Ok(text@),
                Err(error) => Err(transport_error(provider_name@, error@)),
            },
    {
        match text {
            Ok(body) => Ok(body),
            Err(error) => {
                let mut message = provider_name.to_string();
                message.append(" transport error while reading response body: ");
                message.append(sanitize_api_error(error.as_str()).as_str());
                Err(message)
            },
        }
    }

    /// What a response body stands for, or the message for a body that cannot be
    /// understood; `parsed` is the outcome of parsing it.
    pub fn parse_response_body<T: DeepView>(
        provider_name: &str,
        body: &str,
        kind: &str,
        parsed: Result<T, String>,
    ) -> (value: Result<T, String>)
        ensures
            outcome(value) == response_value(provider_name@, body@, kind@, outcome(parsed)),
            parsed matches Ok(parsed) ==> value == Ok::<T, String>(parsed),
    {
        match parsed {
            Ok(value) => Ok(value),
            Err(error) => {
                let mut message = provider_name.to_string();
                message.append(" API returned an unexpected ");
                message.append(kind);
                message.append(" payload: ");
                message.append(error.as_str());
                message.append("; body=");
                message.append(Self::compact_sanitized_body_snippet(body).as_str());
                Err(message)
            },
        }
    }

    /// Whether a response with a status has a body to read; any other response is
    /// an error of the API.
    pub fn accepts(status: u16) -> (accepted: bool)
        ensures
            accepted == (200 <= status < 300),
    {
        200 <= status && status < 300
    }
}

/// A message for a response body that cannot be understood shows none of the API
/// keys of the body.
pub proof fn law_unexpected_payload_holds_no_key(
    provider_name: Seq<char>,
    kind: Seq<char>,
    error: Seq<char>,
    body: Seq<char>,
)
    requires
        !holds_key(provider_name),
        !holds_key(kind),
        !holds_key(error),
    ensures
        !holds_key(unexpected_payload(provider_name, kind, error, body)),
{
    let api = " API returned an unexpected "@;
    let payload = " payload: "@;
    let quote = "; body="@;
    reveal_strlit(" API returned an unexpected ");
    reveal_strlit(" payload: ");
    reveal_strlit("; body=");
    lemma_no_hyphen_no_key(api);
    lemma_no_hyphen_no_key(payload);
    lemma_no_hyphen_no_key(quote);
    law_snippet_holds_no_key(body);
    lemma_apart_hold_no_key(provider_name, api);
    lemma_apart_hold_no_key(provider_name + api, kind);
    lemma_apart_hold_no_key(provider_name + api + kind, payload);
    lemma_apart_hold_no_key(provider_name + api + kind + payload, error);
    lemma_apart_hold_no_key(provider_name + api + kind + payload + error, quote);
    lemma_apart_hold_no_key(
        provider_name + api + kind + payload + error + quote,
        snippet(body),
    );
}

/// A message for a response body that could not be read shows none of the API keys
/// of the error.
pub proof fn law_transport_error_holds_no_key(provider_name: Seq<char>, error: Seq<char>)
    requires
        !holds_key(provider_name),
    ensures
        !holds_key(transport_error(provider_name, error)),
{
    let reading = " transport error while reading response body: "@;
    reveal_strlit(" transport error while reading response body: ");
    lemma_no_hyphen_no_key(reading);
    law_redacted_holds_no_key(error);
    lemma_apart_hold_no_key(provider_name, reading);
    lemma_apart_hold_no_key(provider_name + reading, redacted(error));
}

/// A message for a response body that cannot be understood names the provider first,
/// then says what the body was to be and what is wrong with it, and quotes the body
/// last.
pub proof fn law_unexpected_payload_in_order(
    provider_name: Seq<char>,
    kind: Seq<char>,
    error: Seq<char>,
    body: Seq<char>,
)
    ensures
        ({
            let message = unexpected_payload(provider_name, kind, error, body);
            let named = provider_name.len() as int + 28;
            let said = named + kind.len() + 10;
            let quoted = said + error.len() + 7;
            &&& message.len() == quoted + snippet(body).len()
            &&& message.take(provider_name.len() as int) == provider_name
            &&& message.subrange(provider_name.len() as int, named)
                == " API returned an unexpected "@
            &&& message.subrange(named, named + kind.len()) == kind
            &&& message.subrange(named + kind.len(), said) == " payload: "@
            &&& message.subrange(said, said + error.len()) == error
            &&& message.subrange(said + error.len(), quoted) == "; body="@
            &&& message.skip(quoted) == snippet(body)
        }),
{
    reveal_strlit(" API returned an unexpected ");
    reveal_strlit(" payload: ");
    reveal_strlit("; body=");
    let message = unexpected_payload(provider_name, kind, error, body);
    let named = provider_name.len() as int + 28;
    let said = named + kind.len() + 10;
    let quoted = said + error.len() + 7;
    assert(message.take(provider_name.len() as int) =~= provider_name);
    assert(message.subrange(provider_name.len() as int, named)
        =~= " API returned an unexpected "@);
    assert(message.subrange(named, named + kind.len()) =~= kind);
    assert(message.subrange(named + kind.len(), said) =~= " payload: "@);
    assert(message.subrange(said, said + error.len()) =~= error);
    assert(message.subrange(said + error.len(), quoted) =~= "; body="@);
    assert(message.skip(quoted) =~= snippet(body));
}

/// A message for a response body that could not be read names the provider first and
/// says last what went wrong, without keys.
pub proof fn law_transport_error_in_order(provider_name: Seq<char>, error: Seq<char>)
    ensures
        ({
            let message = transport_error(provider_name, error);
            let said = provider_name.len() as int + 46;
            &&& message.len() == said + redacted(error).len()
            &&& message.take(provider_name.len() as int) == provider_name
            &&& message.subrange(provider_name.len() as int, said)
                == " transport error while reading response body: "@
            &&& message.skip(said) == redacted(error)
        }),
{
    reveal_strlit(" transport error while reading response body: ");
    let message = transport_error(provider_name, error);
    let said = provider_name.len() as int + 46;
    assert(message.take(provider_name.len() as int) =~= provider_name);
    assert(message.subrange(provider_name.len() as int, said)
        =~= " transport error while reading response body: "@);
    assert(message.skip(said) =~= redacted(error));
}

/// A response body that was parsed stands for what was parsed, whatever it is; one
/// that was not is answered by a message.
pub proof fn law_parsed_body_is_the_value<V>(
    provider_name: Seq<char>,
    body: Seq<char>,
    kind: Seq<char>,
    value: V,
    error: Seq<char>,
)
    ensures
        response_value(provider_name, body, kind, Ok::<V, Seq<char>>(value)) == Ok::<V, Seq<char>>(
            value,
        ),
        response_value(provider_name, body, kind, Err::<V, Seq<char>>(error)) == Err::<
            V,
            Seq<char>,
        >(unexpected_payload(provider_name, kind, error, body)),
{
}

/// An outcome is seen as it is.
pub proof fn law_outcomes_are_seen_whole<T: DeepView>(result: Result<T, String>)
    ensures
        result matches Ok(value) ==> outcome(result) == Ok::<T::V, Seq<char>>(value.deep_view()),
        result matches Err(message) ==> outcome(result) == Err::<T::V, Seq<char>>(message@),
{
}

} // verus!
