//! The closed set of text-generation backends and their fixed defaults.

use vstd::prelude::*;

verus! {

/// One of the three kinds of backend that can turn a prompt into text.
#[derive(Copy, Clone, Debug, PartialEq, Eq, Structural)]
pub enum Provider {
    /// A local inference server.
    Ollama,
    /// A hosted chat-completion service.
    OpenAI,
    /// A hosted generative-language service.
    Gemini,
}

impl Provider {
    /// The name by which messages refer to the backend.
    pub open spec fn name_text(self) -> Seq<char> {
        match self {
            Provider::Ollama => "Ollama"@,
            Provider::OpenAI => "OpenAI"@,
            Provider::Gemini => "Gemini"@,
        }
    }

    /// The model that is used when the user names none.
    pub open spec fn default_model_text(self) -> Seq<char> {
        match self {
            Provider::Ollama => "qwen2.5-coder"@,
            Provider::OpenAI => "gpt-4o-mini"@,
            Provider::Gemini => "gemini-2.0-flash-lite"@,
        }
    }

    /// The endpoint that is used when the user names none.
    pub open spec fn default_base_url_text(self) -> Seq<char> {
        match self {
            Provider::Ollama => "http://localhost:11434"@,
            Provider::OpenAI => "https://api.openai.com/v1"@,
            Provider::Gemini => "https://generativelanguage.googleapis.com"@,
        }
    }

    /// Whether the backend refuses requests that carry no credential.
    pub open spec fn needs_api_key(self) -> bool {
        self != Provider::Ollama
    }

    pub fn name(&self) -> (res: &'static str)
        ensures
            res@ == self.name_text(),
    {
        match self {
            Provider::Ollama => "Ollama",
            Provider::OpenAI => "OpenAI",
            Provider::Gemini => "Gemini",
        }
    }

    pub fn default_model(&self) -> (res: &'static str)
        ensures
            res@ == self.default_model_text(),
    {
        match self {
            Provider::Ollama => "qwen2.5-coder",
            Provider::OpenAI => "gpt-4o-mini",
            Provider::Gemini => "gemini-2.0-flash-lite",
        }
    }

    pub fn default_base_url(&self) -> (res: &'static str)
        ensures
            res@ == self.default_base_url_text(),
    {
        match self {
            Provider::Ollama => "http://localhost:11434",
            Provider::OpenAI => "https://api.openai.com/v1",
            Provider::Gemini => "https://generativelanguage.googleapis.com",
        }
    }

    /// The model to use: the one the user chose, else the backend's default.
    pub fn resolve_model(&self, chosen: Option<String>) -> (model: String)
        ensures
            model@ == match chosen {
                Some(name) => name@,
                None => self.default_model_text(),
            },
    {
        match chosen {
            Some(name) => name,
            None => self.default_model().to_owned(),
        }
    }
}

} // verus!
