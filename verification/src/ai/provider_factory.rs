//! Choosing and building a backend from what the user configured.

use crate::ai::gemini::{gemini_reply, gemini_request, GeminiProvider};
use crate::ai::ollama::{ollama_reply, ollama_request, OllamaProvider};
use crate::ai::openai::{openai_reply, openai_request, OpenAIProvider};
use crate::ai::{HttpRequest, HttpRequestView};
use crate::error::{outcome_view, ConfigError, GenerationError, GenerationFailure};
use crate::provider::Provider;
use crate::text::optional_view;
use vstd::prelude::*;

verus! {

/// A configured backend of one of the three kinds.
#[derive(Clone, Debug, PartialEq, Eq)]
pub enum Backend {
    Ollama(OllamaProvider),
    OpenAI(OpenAIProvider),
    Gemini(GeminiProvider),
}

/// Whether a backend of kind `provider` cannot be built with the credential
/// `api_key`: it needs one, and there is none or an empty one.
pub open spec fn lacks_credential(provider: Provider, api_key: Option<Seq<char>>) -> bool {
    provider.needs_api_key() && match api_key {
        Some(key) => key.len() == 0,
        None => true,
    }
}

/// The address to use: the one the user chose, else the backend's default.
pub open spec fn resolved_base_url(provider: Provider, api_url: Option<Seq<char>>) -> Seq<char> {
    match api_url {
        Some(url) => url,
        None => provider.default_base_url_text(),
    }
}

impl Backend {
    /// Which of the three kinds the backend is.
    pub open spec fn kind(self) -> Provider {
        match self {
            Backend::Ollama(_) => Provider::Ollama,
            Backend::OpenAI(_) => Provider::OpenAI,
            Backend::Gemini(_) => Provider::Gemini,
        }
    }

    pub open spec fn base_url(self) -> Seq<char> {
        match self {
            Backend::Ollama(p) => p.base_url@,
            Backend::OpenAI(p) => p.base_url@,
            Backend::Gemini(p) => p.base_url@,
        }
    }

    pub open spec fn model(self) -> Seq<char> {
        match self {
            Backend::Ollama(p) => p.model@,
            Backend::OpenAI(p) => p.model@,
            Backend::Gemini(p) => p.model@,
        }
    }

    /// The credential that the backend presents; the local server has none.
    pub open spec fn api_key(self) -> Option<Seq<char>> {
        match self {
            Backend::Ollama(_) => None,
            Backend::OpenAI(p) => Some(p.api_key@),
            Backend::Gemini(p) => Some(p.api_key@),
        }
    }

    pub open spec fn verbose(self) -> bool {
        match self {
            Backend::Ollama(p) => p.verbose,
            Backend::OpenAI(p) => p.verbose,
            Backend::Gemini(p) => p.verbose,
        }
    }

    /// The request that carries `prompt` to the backend.
    pub open spec fn request_for(self, prompt: Seq<char>) -> HttpRequestView {
        match self {
            Backend::Ollama(p) => ollama_request(p.base_url@, p.model@, prompt),
            Backend::OpenAI(p) => openai_request(p.base_url@, p.model@, p.api_key@, prompt),
            Backend::Gemini(p) => gemini_request(p.base_url@, p.model@, p.api_key@, prompt),
        }
    }

    /// What the reply text `raw` amounts to, coming from a backend of this
    /// kind.
    pub open spec fn reply(self, raw: Seq<char>) -> Result<Seq<char>, GenerationFailure> {
        match self {
            Backend::Ollama(_) => ollama_reply(raw),
            Backend::OpenAI(_) => openai_reply(raw),
            Backend::Gemini(_) => gemini_reply(raw),
        }
    }

    /// What an exchange amounts to that delivered a reply text, or that failed
    /// on the way for the reason given.
    pub open spec fn exchange(self, delivery: Result<String, String>) -> Result<
        Seq<char>,
        GenerationFailure,
    > {
        match delivery {
            Ok(raw) => self.reply(raw@),
            Err(detail) => Err(
                GenerationFailure::Transport { backend: self.kind(), detail: detail@ },
            ),
        }
    }

    pub fn provider(&self) -> (kind: Provider)
        ensures
            kind == self.kind(),
    {
        match self {
            Backend::Ollama(_) => Provider::Ollama,
            Backend::OpenAI(_) => Provider::OpenAI,
            Backend::Gemini(_) => Provider::Gemini,
        }
    }

    pub fn is_verbose(&self) -> (verbose: bool)
        ensures
            verbose == self.verbose(),
    {
        match self {
            Backend::Ollama(p) => p.verbose,
            Backend::OpenAI(p) => p.verbose,
            Backend::Gemini(p) => p.verbose,
        }
    }

    /// The request that carries `prompt` to the backend.
    pub fn request(&self, prompt: &str) -> (request: HttpRequest)
        ensures
            request@ == self.request_for(prompt@),
    {
        match self {
            Backend::Ollama(p) => p.request(prompt),
            Backend::OpenAI(p) => p.request(prompt),
            Backend::Gemini(p) => p.request(prompt),
        }
    }

    /// Reads the backend's answer out of the reply text `raw`.
    pub fn extract_content(&self, raw: &str) -> (res: Result<String, GenerationError>)
        ensures
            outcome_view(res) == self.reply(raw@),
    {
        match self {
            Backend::Ollama(_) => OllamaProvider::extract_content(raw),
            Backend::OpenAI(_) => OpenAIProvider::extract_content(raw),
            Backend::Gemini(_) => GeminiProvider::extract_content(raw),
        }
    }

    /// Concludes one exchange with the backend: `delivery` is the reply text
    /// that came back, or the reason why the backend could not be reached.
    pub fn conclude(&self, delivery: Result<String, String>) -> (res: Result<
        String,
        GenerationError,
    >)
        ensures
            outcome_view(res) == self.exchange(delivery),
    {
        match delivery {
            Ok(raw) => self.extract_content(raw.as_str()),
            Err(detail) => Err(GenerationError::Transport { backend: self.provider(), detail }),
        }
    }
}

/// Builds the backend of kind `provider_type`. A hosted backend needs a
/// credential that is not empty, and without one there is no backend; the
/// address defaults to the one that the kind is known by.
pub fn create_provider(
    provider_type: Provider,
    model: &str,
    api_key: Option<&str>,
    api_url: Option<&str>,
    verbose: bool,
) -> (res: Result<Backend, ConfigError>)
    ensures
        match res {
            Ok(backend) => {
                &&& !lacks_credential(provider_type, optional_view(api_key))
                &&& backend.kind() == provider_type
                &&& backend.model() == model@
                &&& backend.base_url() == resolved_base_url(provider_type, optional_view(api_url))
                &&& backend.verbose() == verbose
                &&& provider_type.needs_api_key() ==> backend.api_key() == optional_view(api_key)
            },
            Err(error) => {
                &&& lacks_credential(provider_type, optional_view(api_key))
                &&& error == (ConfigError::MissingApiKey { backend: provider_type })
            },
        },
{
    let base_url: &str = match api_url {
        Some(url) => url,
        None => provider_type.default_base_url(),
    };
    match provider_type {
        Provider::Ollama => Ok(Backend::Ollama(OllamaProvider::new(base_url, model, verbose))),
        Provider::OpenAI => match credential(api_key) {
            Some(key) => Ok(Backend::OpenAI(OpenAIProvider::new(base_url, model, key, verbose))),
            None => Err(ConfigError::MissingApiKey { backend: provider_type }),
        },
        Provider::Gemini => match credential(api_key) {
            Some(key) => Ok(Backend::Gemini(GeminiProvider::new(base_url, model, key, verbose))),
            None => Err(ConfigError::MissingApiKey { backend: provider_type }),
        },
    }
}

/// The credential in `api_key`, if there is one and it is not empty.
fn credential<'a>(api_key: Option<&'a str>) -> (res: Option<&'a str>)
    ensures
        match res {
            Some(key) => api_key == Some(key) && key@.len() > 0,
            None => match api_key {
                Some(key) => key@.len() == 0,
                None => true,
            },
        },
{
    match api_key {
        Some(key) => if key.is_empty() {
            None
        } else {
            Some(key)
        },
        None => None,
    }
}

} // verus!
