//! The ways in which building a backend or generating text can fail.

use crate::provider::Provider;
use vstd::prelude::*;
use vstd::string::StringExecFns;

verus! {

/// Why no backend could be built from a configuration.
#[derive(Clone, Debug, PartialEq, Eq)]
pub enum ConfigError {
    /// The backend needs a credential and none was given.
    MissingApiKey { backend: Provider },
}

impl ConfigError {
    pub open spec fn message_text(self) -> Seq<char> {
        match self {
            ConfigError::MissingApiKey { backend } => "API key is required for "@
                + backend.name_text(),
        }
    }

    /// The text shown to the user.
    pub fn message(&self) -> (res: String)
        ensures
            res@ == self.message_text(),
    {
        match self {
            ConfigError::MissingApiKey { backend } => {
                String::from_str("API key is required for ").concat(backend.name())
            },
        }
    }
}

/// Why a request for generated text produced none.
#[derive(Clone, Debug, PartialEq, Eq)]
pub enum GenerationError {
    /// The backend could not be reached.
    Transport { backend: Provider, detail: String },
    /// The reply was not a JSON document.
    Decode { detail: String },
    /// The backend answered with an error of its own.
    Backend { backend: Provider, message: String },
    /// The reply was a JSON document without any of the expected fields.
    Unparseable { backend: Provider },
    /// Any other failure that a provider reports.
    Other { message: String },
}

/// A `GenerationError` with its texts as character sequences.
pub ghost enum GenerationFailure {
    Transport { backend: Provider, detail: Seq<char> },
    Decode { detail: Seq<char> },
    Backend { backend: Provider, message: Seq<char> },
    Unparseable { backend: Provider },
    Other { message: Seq<char> },
}

impl View for GenerationError {
    type V = GenerationFailure;

    open spec fn view(&self) -> GenerationFailure {
        match *self {
            GenerationError::Transport { backend, detail } => GenerationFailure::Transport {
                backend,
                detail: detail@,
            },
            GenerationError::Decode { detail } => GenerationFailure::Decode { detail: detail@ },
            GenerationError::Backend { backend, message } => GenerationFailure::Backend {
                backend,
                message: message@,
            },
            GenerationError::Unparseable { backend } => GenerationFailure::Unparseable { backend },
            GenerationError::Other { message } => GenerationFailure::Other { message: message@ },
        }
    }
}

/// The words that introduce an error which a backend reported itself.
pub open spec fn backend_error_prefix(backend: Provider) -> Seq<char> {
    match backend {
        Provider::Ollama => "Ollama API error: "@,
        Provider::OpenAI => "HostedChat error: "@,
        Provider::Gemini => "Gemini API error: "@,
    }
}

impl GenerationFailure {
    pub open spec fn message_text(self) -> Seq<char> {
        match self {
            GenerationFailure::Transport { backend, detail } => "Connection to "@
                + backend.name_text() + " failed: "@ + detail,
            GenerationFailure::Decode { detail } => detail,
            GenerationFailure::Backend { backend, message } => backend_error_prefix(backend)
                + message,
            GenerationFailure::Unparseable { backend } => "Failed to parse "@ + backend.name_text()
                + " response"@,
            GenerationFailure::Other { message } => message,
        }
    }
}

/// A generation result with its texts as character sequences.
pub open spec fn outcome_view(outcome: Result<String, GenerationError>) -> Result<
    Seq<char>,
    GenerationFailure,
> {
    match outcome {
        Ok(text) => Ok(text@),
        Err(error) => Err(error@),
    }
}

impl GenerationError {
    /// The text shown to the user.
    pub fn message(&self) -> (res: String)
        ensures
            res@ == self@.message_text(),
    {
        match self {
            GenerationError::Transport { backend, detail } => {
                String::from_str("Connection to ").concat(backend.name()).concat(
                    " failed: ",
                ).concat(detail.as_str())
            },
            GenerationError::Decode { detail } => detail.clone(),
            GenerationError::Backend { backend, message } => {
                let prefix: &'static str = match backend {
                    Provider::Ollama => "Ollama API error: ",
                    Provider::OpenAI => "HostedChat error: ",
                    Provider::Gemini => "Gemini API error: ",
                };
                String::from_str(prefix).concat(message.as_str())
            },
            GenerationError::Unparseable { backend } => {
                String::from_str("Failed to parse ").concat(backend.name()).concat(" response")
            },
            GenerationError::Other { message } => message.clone(),
        }
    }
}

} // verus!
