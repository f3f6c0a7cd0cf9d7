//! The translation client's settings, prompt and errors.
//!
//! Sending requests and decoding the providers' JSON replies is asynchronous
//! I/O and stays with the host; this module decides what is sent where.

use vstd::prelude::*;
use crate::config::{non_empty, selected_provider, TranslationConfig, DEFAULT_TIMEOUT_MS};
use crate::provider::{provider_def, ProviderDef};
use crate::text::{chars_of, concat, decimal, decimal_string, string_from_range};

verus! {

#[verifier::external_type_specification]
#[verifier::external_body]
pub struct ExClient(reqwest::Client);

#[verifier::external_type_specification]
#[verifier::external_body]
pub struct ExReqwestError(reqwest::Error);

/// Relies on `reqwest::Error::is_timeout`: whether the error comes from a timeout.
pub assume_specification[ reqwest::Error::is_timeout ](e: &reqwest::Error) -> bool;

/// Relies on `reqwest::ClientBuilder`: builds an HTTP client whose requests
/// time out after `timeout_ms` milliseconds; building may fail.
#[verifier::external_body]
fn build_http_client(timeout_ms: u64) -> (r: Result<reqwest::Client, reqwest::Error>) {
    reqwest::Client::builder().timeout(std::time::Duration::from_millis(timeout_ms)).build()
}

/// Relies on `Duration::from_millis`: the duration of `ms` milliseconds.
#[verifier::external_body]
fn millis(ms: u64) -> (r: std::time::Duration) {
    std::time::Duration::from_millis(ms)
}

/// Relies on the `Display` impl of `reqwest::Error`: the error's message.
#[verifier::external_body]
fn network_error_text(e: &reqwest::Error) -> (r: String) {
    e.to_string()
}

/// Translation error.
#[derive(Debug)]
pub enum TranslationError {
    /// API key not found or not configured.
    ApiKeyNotFound(String),
    /// Network error during the API call.
    Network(reqwest::Error),
    /// The API returned an error response.
    Api { status: u16, message: String },
    /// Failed to parse the API response.
    Parse(String),
    /// The translation request timed out.
    Timeout,
    /// Provider not supported.
    UnsupportedProvider(String),
    /// Invalid configuration.
    InvalidConfig(String),
}

impl TranslationError {
    /// The message shown for this error.
    pub fn message(&self) -> (r: String)
        ensures
            match self {
                TranslationError::ApiKeyNotFound(p) => r@ == "API key not configured for "@ + p@,
                TranslationError::Network(_) => r@.len() >= 15 && r@.take(15) == "Network error: "@,
                TranslationError::Api { status, message } => r@ == "API error ("@ + decimal(*status as nat)
                    + "): "@ + message@,
                TranslationError::Parse(m) => r@ == "Parse error: "@ + m@,
                TranslationError::Timeout => r@ == "Translation timeout"@,
                TranslationError::UnsupportedProvider(p) => r@ == "Unsupported provider: "@ + p@,
                TranslationError::InvalidConfig(m) => r@ == "Invalid configuration: "@ + m@,
            },
    {
        match self {
            TranslationError::ApiKeyNotFound(provider) => concat("API key not configured for ", provider.as_str()),
            TranslationError::Network(e) => {
                let text = network_error_text(e);
                let r = concat("Network error: ", text.as_str());
                proof {
                    reveal_strlit("Network error: ");
                }
                assert(r@.take(15) =~= "Network error: "@);
                r
            },
            TranslationError::Api { status, message } => {
                let digits = decimal_string(*status as u64);
                let head = concat("API error (", digits.as_str());
                let head = concat(head.as_str(), "): ");
                concat(head.as_str(), message.as_str())
            },
            TranslationError::Parse(msg) => concat("Parse error: ", msg.as_str()),
            TranslationError::Timeout => String::from_str("Translation timeout"),
            TranslationError::UnsupportedProvider(provider) => concat("Unsupported provider: ", provider.as_str()),
            TranslationError::InvalidConfig(msg) => concat("Invalid configuration: ", msg.as_str()),
        }
    }
}

impl From<reqwest::Error> for TranslationError {
    /// A timeout becomes [`TranslationError::Timeout`]; any other error is a network error.
    fn from(e: reqwest::Error) -> (r: Self)
        ensures
            r is Timeout || r is Network,
    {
        if e.is_timeout() {
            TranslationError::Timeout
        } else {
            TranslationError::Network(e)
        }
    }
}

impl vstd::std_specs::convert::FromSpecImpl<reqwest::Error> for TranslationError {
    /// Which variant comes out is decided by reqwest at run time.
    open spec fn obeys_from_spec() -> bool {
        false
    }

    open spec fn from_spec(v: reqwest::Error) -> Self {
        TranslationError::Network(v)
    }
}

/// The prompt that asks for a translation of `text` into `target_lang`.
pub open spec fn translation_prompt(text: Seq<char>, target_lang: Seq<char>) -> Seq<char> {
    "Translate the following text to "@ + target_lang
        + ". Keep the original formatting (markdown, code blocks, etc.). Output only the translation, nothing else.\n\n"@
        + text
}

/// Build the translation prompt.
pub fn build_translation_prompt(text: &str, target_lang: &str) -> (r: String)
    ensures
        r@ == translation_prompt(text@, target_lang@),
{
    let head = concat("Translate the following text to ", target_lang);
    let head = concat(
        head.as_str(),
        ". Keep the original formatting (markdown, code blocks, etc.). Output only the translation, nothing else.\n\n",
    );
    concat(head.as_str(), text)
}

/// `s` without trailing slashes.
pub open spec fn without_trailing_slashes(s: Seq<char>) -> Seq<char>
    decreases s.len(),
{
    if s.len() > 0 && s.last() == '/' {
        without_trailing_slashes(s.drop_last())
    } else {
        s
    }
}

/// The URL of `path` under `base_url`, with the base's trailing slashes removed.
pub fn endpoint_url(base_url: &str, path: &str) -> (r: String)
    ensures
        r@ == without_trailing_slashes(base_url@) + path@,
{
    let v = chars_of(base_url);
    let mut end: usize = v.len();
    assert(v@.take(v@.len() as int) =~= v@);
    while end > 0 && v[end - 1] == '/'
        invariant
            end <= v@.len(),
            without_trailing_slashes(v@) == without_trailing_slashes(v@.take(end as int)),
        decreases end,
    {
        assert(v@.take(end as int).drop_last() =~= v@.take(end - 1));
        end = end - 1;
    }
    assert(v@.subrange(0, end as int) =~= v@.take(end as int));
    let base = string_from_range(&v, 0, end);
    concat(base.as_str(), path)
}

/// Translation client: the resolved settings of one provider and an HTTP client.
pub struct TranslationClient {
    client: reqwest::Client,
    provider: ProviderDef,
    api_key: Option<String>,
    base_url: String,
    model: String,
    timeout_ms: u64,
}

impl TranslationClient {
    pub closed spec fn provider_spec(&self) -> ProviderDef {
        self.provider
    }

    pub closed spec fn api_key_spec(&self) -> Option<Seq<char>> {
        match self.api_key {
            Some(k) => Some(k@),
            None => None,
        }
    }

    pub closed spec fn base_url_spec(&self) -> Seq<char> {
        self.base_url@
    }

    pub closed spec fn model_spec(&self) -> Seq<char> {
        self.model@
    }

    pub closed spec fn timeout_ms_spec(&self) -> u64 {
        self.timeout_ms
    }

    /// Create a client from configuration. Fails with `ApiKeyNotFound` exactly
    /// when the selected provider needs a key and none is configured; otherwise
    /// fails only if the HTTP client cannot be built.
    pub fn from_config(config: &TranslationConfig) -> (r: Result<Self, TranslationError>)
        ensures
            ({
                let def = provider_def(selected_provider(config.provider@));
                let missing_key = def.requires_api_key && non_empty(config.api_key) is None;
                match r {
                    Ok(c) => {
                        &&& !missing_key
                        &&& c.provider_spec() == def
                        &&& c.api_key_spec() == non_empty(config.api_key)
                        &&& c.base_url_spec() == match non_empty(config.base_url) {
                            Some(u) => u,
                            None => def.default_base_url@,
                        }
                        &&& c.model_spec() == match non_empty(config.model) {
                            Some(m) => m,
                            None => def.default_model@,
                        }
                        &&& c.timeout_ms_spec() == match config.timeout_ms {
                            Some(t) => t,
                            None => DEFAULT_TIMEOUT_MS,
                        }
                    },
                    Err(e) => if missing_key {
                        e matches TranslationError::ApiKeyNotFound(name) && name@ == def.name@
                    } else {
                        e is Network
                    },
                }
            }),
    {
        let provider_id = config.effective_provider();
        let provider = provider_id.definition();
        // Check if an API key is required.
        let api_key = match config.effective_api_key() {
            Some(k) => Some(String::from_str(k)),
            None => None,
        };
        if provider.requires_api_key && api_key.is_none() {
            return Err(TranslationError::ApiKeyNotFound(String::from_str(provider.name)));
        }
        let base_url = String::from_str(config.effective_base_url(&provider));
        let model = String::from_str(config.effective_model(&provider));
        let timeout_ms = config.effective_timeout_ms();
        let client = match build_http_client(timeout_ms) {
            Ok(c) => c,
            Err(e) => return Err(TranslationError::Network(e)),
        };
        Ok(TranslationClient { client, provider, api_key, base_url, model, timeout_ms })
    }

    /// The request timeout.
    pub fn timeout(&self) -> std::time::Duration {
        millis(self.timeout_ms)
    }

    /// The request timeout, in milliseconds.
    pub fn timeout_ms(&self) -> (r: u64)
        ensures
            r == self.timeout_ms_spec(),
    {
        self.timeout_ms
    }

    /// The provider's definition.
    pub fn provider(&self) -> (r: &ProviderDef)
        ensures
            *r == self.provider_spec(),
    {
        &self.provider
    }

    /// The API key, if any.
    pub fn api_key(&self) -> (r: Option<&str>)
        ensures
            match r {
                Some(k) => self.api_key_spec() == Some(k@),
                None => self.api_key_spec() is None,
            },
    {
        match &self.api_key {
            Some(k) => Some(k.as_str()),
            None => None,
        }
    }

    /// The base URL requests go to.
    pub fn base_url(&self) -> (r: &str)
        ensures
            r@ == self.base_url_spec(),
    {
        self.base_url.as_str()
    }

    /// The model to ask for.
    pub fn model(&self) -> (r: &str)
        ensures
            r@ == self.model_spec(),
    {
        self.model.as_str()
    }

    /// The HTTP client.
    pub fn http(&self) -> (r: &reqwest::Client) {
        &self.client
    }
}

} // verus!
