//! Supported LLM providers for translation, with their default settings.

use vstd::prelude::*;
use crate::text::str_eq;

verus! {

/// Protocol used to talk to a provider's API.
#[derive(Debug, Clone, Copy, PartialEq, Eq, Structural)]
pub enum Protocol {
    /// OpenAI-compatible chat completions (used by most providers).
    OpenAI,
    /// Anthropic's messages API.
    Anthropic,
    /// Google's Gemini API.
    Gemini,
}

/// Provider identifier.
#[derive(Debug, Clone, Copy, PartialEq, Eq, Hash, Structural)]
pub enum ProviderId {
    OpenAI,
    Anthropic,
    DeepSeek,
    Moonshot,
    ZhipuAI,
    Qwen,
    Groq,
    Gemini,
    Mistral,
    Cohere,
    Ollama,
    OpenRouter,
    TogetherAI,
    Perplexity,
    SiliconFlow,
}

/// Provider definition with default configuration.
#[derive(Debug, Clone, Copy)]
pub struct ProviderDef {
    /// Provider identifier.
    pub id: ProviderId,
    /// Display name.
    pub name: &'static str,
    /// Default base URL.
    pub default_base_url: &'static str,
    /// Default model name.
    pub default_model: &'static str,
    /// API protocol type.
    pub protocol: Protocol,
    /// Whether an API key is required.
    pub requires_api_key: bool,
    /// Description of the provider.
    pub description: &'static str,
}

/// Every provider, in display order.
pub open spec fn all_providers() -> Seq<ProviderId> {
    seq![
        ProviderId::OpenAI,
        ProviderId::Anthropic,
        ProviderId::DeepSeek,
        ProviderId::Moonshot,
        ProviderId::ZhipuAI,
        ProviderId::Qwen,
        ProviderId::Groq,
        ProviderId::Gemini,
        ProviderId::Mistral,
        ProviderId::Cohere,
        ProviderId::Ollama,
        ProviderId::OpenRouter,
        ProviderId::TogetherAI,
        ProviderId::Perplexity,
        ProviderId::SiliconFlow,
    ]
}

/// The built-in definition of each provider.
pub open spec fn provider_def(id: ProviderId) -> ProviderDef {
    match id {
        ProviderId::OpenAI => ProviderDef {
            id: ProviderId::OpenAI,
            name: "OpenAI",
            default_base_url: "https://api.openai.com/v1",
            default_model: "gpt-4o-mini",
            protocol: Protocol::OpenAI,
            requires_api_key: true,
            description: "OpenAI GPT models",
        },
        ProviderId::Anthropic => ProviderDef {
            id: ProviderId::Anthropic,
            name: "Anthropic",
            default_base_url: "https://api.anthropic.com/v1",
            default_model: "",
            protocol: Protocol::Anthropic,
            requires_api_key: true,
            description: "Anthropic models",
        },
        ProviderId::DeepSeek => ProviderDef {
            id: ProviderId::DeepSeek,
            name: "DeepSeek",
            default_base_url: "https://api.deepseek.com/v1",
            default_model: "deepseek-chat",
            protocol: Protocol::OpenAI,
            requires_api_key: true,
            description: "DeepSeek AI models",
        },
        ProviderId::Moonshot => ProviderDef {
            id: ProviderId::Moonshot,
            name: "Moonshot",
            default_base_url: "https://api.moonshot.cn/v1",
            default_model: "moonshot-v1-8k",
            protocol: Protocol::OpenAI,
            requires_api_key: true,
            description: "Moonshot (Kimi) AI models",
        },
        ProviderId::ZhipuAI => ProviderDef {
            id: ProviderId::ZhipuAI,
            name: "ZhipuAI",
            default_base_url: "https://open.bigmodel.cn/api/paas/v4",
            default_model: "glm-4-flash",
            protocol: Protocol::OpenAI,
            requires_api_key: true,
            description: "Zhipu GLM models",
        },
        ProviderId::Qwen => ProviderDef {
            id: ProviderId::Qwen,
            name: "Qwen",
            default_base_url: "https://dashscope.aliyuncs.com/compatible-mode/v1",
            default_model: "qwen-turbo",
            protocol: Protocol::OpenAI,
            requires_api_key: true,
            description: "Alibaba Qwen models (DashScope)",
        },
        ProviderId::Groq => ProviderDef {
            id: ProviderId::Groq,
            name: "Groq",
            default_base_url: "https://api.groq.com/openai/v1",
            default_model: "llama-3.1-8b-instant",
            protocol: Protocol::OpenAI,
            requires_api_key: true,
            description: "Groq LPU inference",
        },
        ProviderId::Gemini => ProviderDef {
            id: ProviderId::Gemini,
            name: "Gemini",
            default_base_url: "https://generativelanguage.googleapis.com/v1beta",
            default_model: "gemini-1.5-flash",
            protocol: Protocol::Gemini,
            requires_api_key: true,
            description: "Google Gemini models",
        },
        ProviderId::Mistral => ProviderDef {
            id: ProviderId::Mistral,
            name: "Mistral",
            default_base_url: "https://api.mistral.ai/v1",
            default_model: "mistral-small-latest",
            protocol: Protocol::OpenAI,
            requires_api_key: true,
            description: "Mistral AI models",
        },
        ProviderId::Cohere => ProviderDef {
            id: ProviderId::Cohere,
            name: "Cohere",
            default_base_url: "https://api.cohere.ai/v1",
            default_model: "command-r",
            protocol: Protocol::OpenAI,
            requires_api_key: true,
            description: "Cohere Command models",
        },
        ProviderId::Ollama => ProviderDef {
            id: ProviderId::Ollama,
            name: "Ollama",
            default_base_url: "http://localhost:11434/v1",
            default_model: "llama3",
            protocol: Protocol::OpenAI,
            requires_api_key: false,
            description: "Ollama local models",
        },
        ProviderId::OpenRouter => ProviderDef {
            id: ProviderId::OpenRouter,
            name: "OpenRouter",
            default_base_url: "https://openrouter.ai/api/v1",
            default_model: "openai/gpt-4o-mini",
            protocol: Protocol::OpenAI,
            requires_api_key: true,
            description: "OpenRouter unified API",
        },
        ProviderId::TogetherAI => ProviderDef {
            id: ProviderId::TogetherAI,
            name: "TogetherAI",
            default_base_url: "https://api.together.xyz/v1",
            default_model: "meta-llama/Llama-3-8b-chat-hf",
            protocol: Protocol::OpenAI,
            requires_api_key: true,
            description: "Together AI inference",
        },
        ProviderId::Perplexity => ProviderDef {
            id: ProviderId::Perplexity,
            name: "Perplexity",
            default_base_url: "https://api.perplexity.ai",
            default_model: "llama-3.1-sonar-small-128k-online",
            protocol: Protocol::OpenAI,
            requires_api_key: true,
            description: "Perplexity AI models",
        },
        ProviderId::SiliconFlow => ProviderDef {
            id: ProviderId::SiliconFlow,
            name: "SiliconFlow",
            default_base_url: "https://api.siliconflow.cn/v1",
            default_model: "Qwen/Qwen2.5-7B-Instruct",
            protocol: Protocol::OpenAI,
            requires_api_key: true,
            description: "SiliconFlow inference",
        },
    }
}

/// The lowercase identifier of each provider.
pub open spec fn provider_str(id: ProviderId) -> &'static str {
    match id {
        ProviderId::OpenAI => "openai",
        ProviderId::Anthropic => "anthropic",
        ProviderId::DeepSeek => "deepseek",
        ProviderId::Moonshot => "moonshot",
        ProviderId::ZhipuAI => "zhipuai",
        ProviderId::Qwen => "qwen",
        ProviderId::Groq => "groq",
        ProviderId::Gemini => "gemini",
        ProviderId::Mistral => "mistral",
        ProviderId::Cohere => "cohere",
        ProviderId::Ollama => "ollama",
        ProviderId::OpenRouter => "openrouter",
        ProviderId::TogetherAI => "togetherai",
        ProviderId::Perplexity => "perplexity",
        ProviderId::SiliconFlow => "siliconflow",
    }
}

/// The provider that a lowercase name denotes, aliases included.
pub open spec fn provider_for_name(name: Seq<char>) -> Option<ProviderId> {
    if name == "openai"@ {
        Some(ProviderId::OpenAI)
    } else if name == "anthropic"@ {
        Some(ProviderId::Anthropic)
    } else if name == "deepseek"@ {
        Some(ProviderId::DeepSeek)
    } else if name == "moonshot"@ {
        Some(ProviderId::Moonshot)
    } else if name == "zhipuai"@ {
        Some(ProviderId::ZhipuAI)
    } else if name == "zhipu"@ {
        Some(ProviderId::ZhipuAI)
    } else if name == "qwen"@ {
        Some(ProviderId::Qwen)
    } else if name == "dashscope"@ {
        Some(ProviderId::Qwen)
    } else if name == "groq"@ {
        Some(ProviderId::Groq)
    } else if name == "gemini"@ {
        Some(ProviderId::Gemini)
    } else if name == "google"@ {
        Some(ProviderId::Gemini)
    } else if name == "mistral"@ {
        Some(ProviderId::Mistral)
    } else if name == "cohere"@ {
        Some(ProviderId::Cohere)
    } else if name == "ollama"@ {
        Some(ProviderId::Ollama)
    } else if name == "openrouter"@ {
        Some(ProviderId::OpenRouter)
    } else if name == "togetherai"@ {
        Some(ProviderId::TogetherAI)
    } else if name == "together"@ {
        Some(ProviderId::TogetherAI)
    } else if name == "perplexity"@ {
        Some(ProviderId::Perplexity)
    } else if name == "siliconflow"@ {
        Some(ProviderId::SiliconFlow)
    } else {
        None
    }
}

/// What `str::to_lowercase` returns for a string.
pub uninterp spec fn lower_of(s: Seq<char>) -> Seq<char>;

/// Relies on `str::to_lowercase`: Unicode lowercase mapping, a function of the characters alone.
#[verifier::external_body]
fn lowercase(s: &str) -> (r: String)
    ensures
        r@ == lower_of(s@),
{
    s.to_lowercase()
}

impl Default for ProviderId {
    fn default() -> (r: Self)
        ensures
            r == ProviderId::DeepSeek,
    {
        ProviderId::DeepSeek
    }
}

impl ProviderId {
    /// All provider IDs, in display order.
    pub fn all() -> (r: Vec<ProviderId>)
        ensures
            r@ == all_providers(),
    {
        let r = vec![
            ProviderId::OpenAI,
            ProviderId::Anthropic,
            ProviderId::DeepSeek,
            ProviderId::Moonshot,
            ProviderId::ZhipuAI,
            ProviderId::Qwen,
            ProviderId::Groq,
            ProviderId::Gemini,
            ProviderId::Mistral,
            ProviderId::Cohere,
            ProviderId::Ollama,
            ProviderId::OpenRouter,
            ProviderId::TogetherAI,
            ProviderId::Perplexity,
            ProviderId::SiliconFlow,
        ];
        assert(r@ =~= all_providers());
        r
    }

    /// The position of this provider in [`ProviderId::all`].
    pub fn index(self) -> (r: usize)
        ensures
            r < all_providers().len(),
            all_providers()[r as int] == self,
    {
        match self {
            Self::OpenAI => 0,
            Self::Anthropic => 1,
            Self::DeepSeek => 2,
            Self::Moonshot => 3,
            Self::ZhipuAI => 4,
            Self::Qwen => 5,
            Self::Groq => 6,
            Self::Gemini => 7,
            Self::Mistral => 8,
            Self::Cohere => 9,
            Self::Ollama => 10,
            Self::OpenRouter => 11,
            Self::TogetherAI => 12,
            Self::Perplexity => 13,
            Self::SiliconFlow => 14,
        }
    }

    /// Get the provider definition.
    pub fn definition(self) -> (r: ProviderDef)
        ensures
            r == provider_def(self),
    {
        match self {
            Self::OpenAI => ProviderDef {
                id: ProviderId::OpenAI,
                name: "OpenAI",
                default_base_url: "https://api.openai.com/v1",
                default_model: "gpt-4o-mini",
                protocol: Protocol::OpenAI,
                requires_api_key: true,
                description: "OpenAI GPT models",
            },
            Self::Anthropic => ProviderDef {
                id: ProviderId::Anthropic,
                name: "Anthropic",
                default_base_url: "https://api.anthropic.com/v1",
                default_model: "",
                protocol: Protocol::Anthropic,
                requires_api_key: true,
                description: "Anthropic models",
            },
            Self::DeepSeek => ProviderDef {
                id: ProviderId::DeepSeek,
                name: "DeepSeek",
                default_base_url: "https://api.deepseek.com/v1",
                default_model: "deepseek-chat",
                protocol: Protocol::OpenAI,
                requires_api_key: true,
                description: "DeepSeek AI models",
            },
            Self::Moonshot => ProviderDef {
                id: ProviderId::Moonshot,
                name: "Moonshot",
                default_base_url: "https://api.moonshot.cn/v1",
                default_model: "moonshot-v1-8k",
                protocol: Protocol::OpenAI,
                requires_api_key: true,
                description: "Moonshot (Kimi) AI models",
            },
            Self::ZhipuAI => ProviderDef {
                id: ProviderId::ZhipuAI,
                name: "ZhipuAI",
                default_base_url: "https://open.bigmodel.cn/api/paas/v4",
                default_model: "glm-4-flash",
                protocol: Protocol::OpenAI,
                requires_api_key: true,
                description: "Zhipu GLM models",
            },
            Self::Qwen => ProviderDef {
                id: ProviderId::Qwen,
                name: "Qwen",
                default_base_url: "https://dashscope.aliyuncs.com/compatible-mode/v1",
                default_model: "qwen-turbo",
                protocol: Protocol::OpenAI,
                requires_api_key: true,
                description: "Alibaba Qwen models (DashScope)",
            },
            Self::Groq => ProviderDef {
                id: ProviderId::Groq,
                name: "Groq",
                default_base_url: "https://api.groq.com/openai/v1",
                default_model: "llama-3.1-8b-instant",
                protocol: Protocol::OpenAI,
                requires_api_key: true,
                description: "Groq LPU inference",
            },
            Self::Gemini => ProviderDef {
                id: ProviderId::Gemini,
                name: "Gemini",
                default_base_url: "https://generativelanguage.googleapis.com/v1beta",
                default_model: "gemini-1.5-flash",
                protocol: Protocol::Gemini,
                requires_api_key: true,
                description: "Google Gemini models",
            },
            Self::Mistral => ProviderDef {
                id: ProviderId::Mistral,
                name: "Mistral",
                default_base_url: "https://api.mistral.ai/v1",
                default_model: "mistral-small-latest",
                protocol: Protocol::OpenAI,
                requires_api_key: true,
                description: "Mistral AI models",
            },
            Self::Cohere => ProviderDef {
                id: ProviderId::Cohere,
                name: "Cohere",
                default_base_url: "https://api.cohere.ai/v1",
                default_model: "command-r",
                protocol: Protocol::OpenAI,
                requires_api_key: true,
                description: "Cohere Command models",
            },
            Self::Ollama => ProviderDef {
                id: ProviderId::Ollama,
                name: "Ollama",
                default_base_url: "http://localhost:11434/v1",
                default_model: "llama3",
                protocol: Protocol::OpenAI,
                requires_api_key: false,
                description: "Ollama local models",
            },
            Self::OpenRouter => ProviderDef {
                id: ProviderId::OpenRouter,
                name: "OpenRouter",
                default_base_url: "https://openrouter.ai/api/v1",
                default_model: "openai/gpt-4o-mini",
                protocol: Protocol::OpenAI,
                requires_api_key: true,
                description: "OpenRouter unified API",
            },
            Self::TogetherAI => ProviderDef {
                id: ProviderId::TogetherAI,
                name: "TogetherAI",
                default_base_url: "https://api.together.xyz/v1",
                default_model: "meta-llama/Llama-3-8b-chat-hf",
                protocol: Protocol::OpenAI,
                requires_api_key: true,
                description: "Together AI inference",
            },
            Self::Perplexity => ProviderDef {
                id: ProviderId::Perplexity,
                name: "Perplexity",
                default_base_url: "https://api.perplexity.ai",
                default_model: "llama-3.1-sonar-small-128k-online",
                protocol: Protocol::OpenAI,
                requires_api_key: true,
                description: "Perplexity AI models",
            },
            Self::SiliconFlow => ProviderDef {
                id: ProviderId::SiliconFlow,
                name: "SiliconFlow",
                default_base_url: "https://api.siliconflow.cn/v1",
                default_model: "Qwen/Qwen2.5-7B-Instruct",
                protocol: Protocol::OpenAI,
                requires_api_key: true,
                description: "SiliconFlow inference",
            },
        }
    }

    /// The provider that an already lowercased name denotes.
    pub fn from_lowercase_name(name: &str) -> (r: Option<Self>)
        ensures
            r == provider_for_name(name@),
    {
        if str_eq(name, "openai") {
            Some(Self::OpenAI)
        } else if str_eq(name, "anthropic") {
            Some(Self::Anthropic)
        } else if str_eq(name, "deepseek") {
            Some(Self::DeepSeek)
        } else if str_eq(name, "moonshot") {
            Some(Self::Moonshot)
        } else if str_eq(name, "zhipuai") {
            Some(Self::ZhipuAI)
        } else if str_eq(name, "zhipu") {
            Some(Self::ZhipuAI)
        } else if str_eq(name, "qwen") {
            Some(Self::Qwen)
        } else if str_eq(name, "dashscope") {
            Some(Self::Qwen)
        } else if str_eq(name, "groq") {
            Some(Self::Groq)
        } else if str_eq(name, "gemini") {
            Some(Self::Gemini)
        } else if str_eq(name, "google") {
            Some(Self::Gemini)
        } else if str_eq(name, "mistral") {
            Some(Self::Mistral)
        } else if str_eq(name, "cohere") {
            Some(Self::Cohere)
        } else if str_eq(name, "ollama") {
            Some(Self::Ollama)
        } else if str_eq(name, "openrouter") {
            Some(Self::OpenRouter)
        } else if str_eq(name, "togetherai") {
            Some(Self::TogetherAI)
        } else if str_eq(name, "together") {
            Some(Self::TogetherAI)
        } else if str_eq(name, "perplexity") {
            Some(Self::Perplexity)
        } else if str_eq(name, "siliconflow") {
            Some(Self::SiliconFlow)
        } else {
            None
        }
    }

    /// Get a provider ID from a string, ignoring case.
    pub fn from_str(s: &str) -> (r: Option<Self>)
        ensures
            r == provider_for_name(lower_of(s@)),
    {
        let lower = lowercase(s);
        Self::from_lowercase_name(lower.as_str())
    }

    /// Convert to the lowercase string identifier.
    pub fn as_str(self) -> (r: &'static str)
        ensures
            r == provider_str(self),
    {
        match self {
            Self::OpenAI => "openai",
            Self::Anthropic => "anthropic",
            Self::DeepSeek => "deepseek",
            Self::Moonshot => "moonshot",
            Self::ZhipuAI => "zhipuai",
            Self::Qwen => "qwen",
            Self::Groq => "groq",
            Self::Gemini => "gemini",
            Self::Mistral => "mistral",
            Self::Cohere => "cohere",
            Self::Ollama => "ollama",
            Self::OpenRouter => "openrouter",
            Self::TogetherAI => "togetherai",
            Self::Perplexity => "perplexity",
            Self::SiliconFlow => "siliconflow",
        }
    }
}

/// All provider definitions, in the order of [`ProviderId::all`].
pub fn providers() -> (r: Vec<ProviderDef>)
    ensures
        r@.len() == all_providers().len(),
        forall|i: int| 0 <= i < r@.len() ==> #[trigger] r@[i] == provider_def(all_providers()[i]),
{
    let ids = ProviderId::all();
    let mut r: Vec<ProviderDef> = Vec::new();
    let mut i: usize = 0;
    while i < ids.len()
        invariant
            ids@ == all_providers(),
            i <= ids@.len(),
            r@.len() == i,
            forall|k: int| 0 <= k < i ==> #[trigger] r@[k] == provider_def(all_providers()[k]),
        decreases ids@.len() - i,
    {
        r.push(ids[i].definition());
        i = i + 1;
    }
    r
}

} // verus!
