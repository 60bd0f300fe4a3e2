//! Backends that turn a prompt into generated text.


pub mod gemini;
pub mod ollama;
pub mod openai;
pub mod provider_factory;



use crate::error::GenerationError;
use crate::json::{Json, JsonValue};
use vstd::prelude::*;

verus! {

/// Something that answers a prompt with generated text. How it gets the text
/// is its own affair: an implementation may say in `answers` what it lets an
/// answer be, and nothing else is known of one.
pub trait AiProvider {
    /// Whether `answer` is something that this provider may give to `prompt`.
    /// Unless an implementation says otherwise, anything is.
    open spec fn answers(
        &self,
        prompt: Seq<char>,
        answer: Result<String, GenerationError>,
    ) -> bool {
        true
    }

    fn generate_text(&self, prompt: &str) -> (answer: Result<String, GenerationError>)
        ensures
            self.answers(prompt@, answer),
    ;
}

impl AiProvider for Box<dyn AiProvider> {
    open spec fn answers(
        &self,
        prompt: Seq<char>,
        answer: Result<String, GenerationError>,
    ) -> bool {
        (**self).answers(prompt, answer)
    }

    fn generate_text(&self, prompt: &str) -> (answer: Result<String, GenerationError>) {
        (**self).generate_text(prompt)
    }
}

/// One HTTP POST request: where it goes, the value of its `Authorization`
/// header if it has one, and the JSON document that it carries.
#[derive(Debug, PartialEq, Eq)]
pub struct HttpRequest {
    pub url: String,
    pub authorization: Option<String>,
    pub body: Json,
}

/// An `HttpRequest` with its texts as character sequences.
pub ghost struct HttpRequestView {
    pub url: Seq<char>,
    pub authorization: Option<Seq<char>>,
    pub body: JsonValue,
}

impl View for HttpRequest {
    type V = HttpRequestView;

    open spec fn view(&self) -> HttpRequestView {
        HttpRequestView {
            url: self.url@,
            authorization: match self.authorization {
                Some(value) => Some(value@),
                None => None,
            },
            body: self.body@,
        }
    }
}

} // verus!
