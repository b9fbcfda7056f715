//! The OpenRouter provider: what it asks of the API and what it makes of the
//! answers.
pub mod calls;
pub mod content;
pub mod messages;
pub mod payload;
pub mod replies;
pub mod tool_specs;

use crate::providers::traits::ProviderCapabilities;
use vstd::prelude::*;

verus! {

/// The provider's settings.
pub struct OpenRouterProvider {
    pub credential: Option<String>,
    pub timeout_secs: u64,
    pub max_tokens: Option<u32>,
}

/// How long a request may take where nobody says otherwise.
pub const DEFAULT_OPENROUTER_TIMEOUT_SECS: u64 = 120;

/// How long it may take to connect.
pub const OPENROUTER_CONNECT_TIMEOUT_SECS: u64 = 10;

/// What an HTTP client is made with.
#[derive(Debug, Clone, Copy)]
pub struct ClientSettings {
    /// The service, by the name that proxies are set for.
    pub service: &'static str,
    pub timeout_secs: u64,
    pub connect_timeout_secs: u64,
}

impl OpenRouterProvider {
    /// A provider with a key, where there is one. A timeout of zero counts as none.
    pub fn new(credential: Option<&str>, timeout_secs: Option<u64>) -> (provider: Self)
        ensures
            provider.credential.deep_view() == credential.deep_view(),
            provider.timeout_secs == if timeout_secs is Some && timeout_secs->0 > 0 {
                timeout_secs->0
            } else {
                DEFAULT_OPENROUTER_TIMEOUT_SECS
            },
            provider.max_tokens is None,
    {
        OpenRouterProvider {
            credential: match credential {
                Some(key) => Some(key.to_string()),
                None => None,
            },
            timeout_secs: match timeout_secs {
                Some(secs) => if secs > 0 {
                    secs
                } else {
                    DEFAULT_OPENROUTER_TIMEOUT_SECS
                },
                None => DEFAULT_OPENROUTER_TIMEOUT_SECS,
            },
            max_tokens: None,
        }
    }

    /// The provider with another timeout for its requests.
    pub fn with_timeout_secs(self, secs: u64) -> (provider: Self)
        ensures
            provider == (OpenRouterProvider { timeout_secs: secs, ..self }),
    {
        OpenRouterProvider { timeout_secs: secs, ..self }
    }

    /// The provider with another limit on the tokens of an answer.
    pub fn with_max_tokens(self, max_tokens: Option<u32>) -> (provider: Self)
        ensures
            provider == (OpenRouterProvider { max_tokens, ..self }),
    {
        OpenRouterProvider { max_tokens, ..self }
    }

    /// What the provider's HTTP client is made with.
    pub fn http_client(&self) -> (settings: ClientSettings)
        ensures
            settings.service@ == "provider.openrouter"@,
            settings.timeout_secs == self.timeout_secs,
            settings.connect_timeout_secs == OPENROUTER_CONNECT_TIMEOUT_SECS,
    {
        ClientSettings {
            service: "provider.openrouter",
            timeout_secs: self.timeout_secs,
            connect_timeout_secs: OPENROUTER_CONNECT_TIMEOUT_SECS,
        }
    }

    /// What the provider can do.
    pub fn capabilities(&self) -> (capabilities: ProviderCapabilities)
        ensures
            capabilities == (ProviderCapabilities {
                native_tool_calling: true,
                vision: true,
                prompt_caching: false,
            }),
    {
        ProviderCapabilities { native_tool_calling: true, vision: true, prompt_caching: false }
    }

    /// Whether requests can offer tools.
    pub fn supports_native_tools(&self) -> (supported: bool)
        ensures
            supported,
    {
        true
    }
}

} // verus!
