//! Translation settings and the values derived from them.

use vstd::prelude::*;
use crate::provider::{lower_of, provider_def, provider_for_name, ProviderDef, ProviderId};

verus! {

/// Timeout for translation requests when none is configured, in milliseconds.
pub const DEFAULT_TIMEOUT_MS: u64 = 30000;

/// Translation configuration.
#[derive(Debug, Clone)]
pub struct TranslationConfig {
    /// Whether translation is enabled.
    pub enabled: bool,
    /// Target language code (e.g. "zh-CN").
    pub target_language: String,
    /// Provider identifier (e.g. "deepseek", "openai").
    pub provider: String,
    /// API key for the provider.
    pub api_key: Option<String>,
    /// Model name (overrides the provider default).
    pub model: Option<String>,
    /// Custom base URL (for proxies or self-hosted services).
    pub base_url: Option<String>,
    /// Timeout in milliseconds.
    pub timeout_ms: Option<u64>,
}

/// The value of an optional setting when it is present and not empty.
pub open spec fn non_empty(o: Option<String>) -> Option<Seq<char>> {
    match o {
        Some(s) => if s@.len() > 0 {
            Some(s@)
        } else {
            None
        },
        None => None,
    }
}

/// The provider that a configured provider name selects; unknown names select the default.
pub open spec fn selected_provider(name: Seq<char>) -> ProviderId {
    match provider_for_name(lower_of(name)) {
        Some(p) => p,
        None => ProviderId::DeepSeek,
    }
}

/// The target language used when none is configured.
pub fn default_target_language() -> (r: String)
    ensures
        r@ == "zh-CN"@,
{
    String::from_str("zh-CN")
}

/// The provider used when none is configured.
pub fn default_provider() -> (r: String)
    ensures
        r@ == "deepseek"@,
{
    String::from_str(ProviderId::default().as_str())
}

impl Default for TranslationConfig {
    fn default() -> (r: Self)
        ensures
            !r.enabled,
            r.target_language@ == "zh-CN"@,
            r.provider@ == "deepseek"@,
            r.api_key is None,
            r.model is None,
            r.base_url is None,
            r.timeout_ms is None,
    {
        TranslationConfig {
            enabled: false,
            target_language: default_target_language(),
            provider: default_provider(),
            api_key: None,
            model: None,
            base_url: None,
            timeout_ms: None,
        }
    }
}

/// `o` when it holds a non-empty string, else `fallback`.
fn non_empty_or<'a>(o: &'a Option<String>, fallback: &'a str) -> (r: &'a str)
    ensures
        r@ == match non_empty(*o) {
            Some(v) => v,
            None => fallback@,
        },
{
    match o {
        Some(s) => if s.as_str().is_empty() {
            fallback
        } else {
            s.as_str()
        },
        None => fallback,
    }
}

impl TranslationConfig {
    /// Check if translation is enabled.
    pub fn should_translate(&self) -> (r: bool)
        ensures
            r == self.enabled,
    {
        self.enabled
    }

    /// Get the effective provider ID.
    pub fn effective_provider(&self) -> (r: ProviderId)
        ensures
            r == selected_provider(self.provider@),
    {
        match ProviderId::from_str(self.provider.as_str()) {
            Some(p) => p,
            None => ProviderId::default(),
        }
    }

    /// Get the effective API key: the configured one, unless it is empty.
    pub fn effective_api_key(&self) -> (r: Option<&str>)
        ensures
            match r {
                Some(k) => non_empty(self.api_key) == Some(k@),
                None => non_empty(self.api_key) is None,
            },
    {
        match &self.api_key {
            Some(k) => if k.as_str().is_empty() {
                None
            } else {
                Some(k.as_str())
            },
            None => None,
        }
    }

    /// Get the effective base URL: the configured one, unless it is empty.
    pub fn effective_base_url<'a>(&'a self, provider: &'a ProviderDef) -> (r: &'a str)
        ensures
            r@ == match non_empty(self.base_url) {
                Some(u) => u,
                None => provider.default_base_url@,
            },
    {
        non_empty_or(&self.base_url, provider.default_base_url)
    }

    /// Get the effective model name: the configured one, unless it is empty.
    pub fn effective_model<'a>(&'a self, provider: &'a ProviderDef) -> (r: &'a str)
        ensures
            r@ == match non_empty(self.model) {
                Some(m) => m,
                None => provider.default_model@,
            },
    {
        non_empty_or(&self.model, provider.default_model)
    }

    /// Get the effective timeout in milliseconds.
    pub fn effective_timeout_ms(&self) -> (r: u64)
        ensures
            r == match self.timeout_ms {
                Some(t) => t,
                None => DEFAULT_TIMEOUT_MS,
            },
    {
        match self.timeout_ms {
            Some(t) => t,
            None => DEFAULT_TIMEOUT_MS,
        }
    }

    /// Check if an API key is configured.
    pub fn has_api_key(&self) -> (r: bool)
        ensures
            r == (non_empty(self.api_key) is Some),
    {
        self.effective_api_key().is_some()
    }

    /// Check if the configuration is valid for translation: a key is present
    /// unless the selected provider needs none.
    pub fn is_valid(&self) -> (r: bool)
        ensures
            r == (!provider_def(selected_provider(self.provider@)).requires_api_key
                || non_empty(self.api_key) is Some),
    {
        let provider = self.effective_provider();
        let def = provider.definition();
        !def.requires_api_key || self.has_api_key()
    }
}

} // verus!
