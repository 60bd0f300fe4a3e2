//! The local inference server.

use crate::ai::{HttpRequest, HttpRequestView};
use crate::error::{outcome_view, GenerationError, GenerationFailure};
use crate::json::{
    get_of, json_document, member_of, read_reply, str_of, text_of, Json, JsonValue, Member,
};
use crate::provider::Provider;
use vstd::prelude::*;
use vstd::string::StringExecFns;

verus! {

/// The address and the model of a local inference server.
#[derive(Clone, Debug, PartialEq, Eq)]
pub struct OllamaProvider {
    pub base_url: String,
    pub model: String,
    pub verbose: bool,
}

/// The request that asks the server at `base_url` to let `model` answer
/// `prompt` in one piece.
pub open spec fn ollama_request(base_url: Seq<char>, model: Seq<char>, prompt: Seq<char>)
    -> HttpRequestView {
    HttpRequestView {
        url: base_url + "/api/generate"@,
        authorization: None,
        body: JsonValue::Object(
            seq![
                ("model"@, JsonValue::Text(model)),
                ("prompt"@, JsonValue::Text(prompt)),
                ("stream"@, JsonValue::Bool(false)),
            ],
        ),
    }
}

/// What the reply `json`, received as the text `raw`, amounts to: the
/// generated text, the server's own error, or failing both the reply as it
/// came.
pub open spec fn ollama_outcome(json: JsonValue, raw: Seq<char>) -> Result<
    Seq<char>,
    GenerationFailure,
> {
    if let Some(response) = text_of(json.member("response"@)) {
        Ok(response)
    } else if let Some(error) = text_of(json.member("error"@)) {
        Err(GenerationFailure::Backend { backend: Provider::Ollama, message: error })
    } else if let Some(content) = text_of(member_of(json.member("message"@), "content"@)) {
        Ok(content)
    } else {
        Ok(raw)
    }
}

/// What the reply text `raw` amounts to.
pub open spec fn ollama_reply(raw: Seq<char>) -> Result<Seq<char>, GenerationFailure> {
    match json_document(raw) {
        Ok(json) => ollama_outcome(json, raw),
        Err(detail) => Err(GenerationFailure::Decode { detail }),
    }
}

impl OllamaProvider {
    pub fn new(base_url: &str, model: &str, verbose: bool) -> (provider: Self)
        ensures
            provider.base_url@ == base_url@,
            provider.model@ == model@,
            provider.verbose == verbose,
    {
        OllamaProvider { base_url: base_url.to_owned(), model: model.to_owned(), verbose }
    }

    /// The request that carries `prompt` to the server.
    pub fn request(&self, prompt: &str) -> (request: HttpRequest)
        ensures
            request@ == ollama_request(self.base_url@, self.model@, prompt@),
    {
        let url = self.base_url.clone().concat("/api/generate");
        let mut entries: Vec<Member> = Vec::new();
        entries.push(Member::new("model", Json::text(self.model.as_str())));
        entries.push(Member::new("prompt", Json::text(prompt)));
        entries.push(Member::new("stream", Json::Bool(false)));
        let body = Json::object(entries);
        assert(body@->Object_0 =~= ollama_request(
            self.base_url@,
            self.model@,
            prompt@,
        ).body->Object_0);
        HttpRequest { url, authorization: None, body }
    }

    /// Reads the server's answer out of the reply `json`, which was received
    /// as the text `raw`.
    pub fn interpret(json: &Json, raw: &str) -> (res: Result<String, GenerationError>)
        ensures
            outcome_view(res) == ollama_outcome(json@, raw@),
    {
        if let Some(response) = str_of(json.get("response")) {
            return Ok(response.to_owned());
        }
        if let Some(error) = str_of(json.get("error")) {
            return Err(
                GenerationError::Backend { backend: Provider::Ollama, message: error.to_owned() },
            );
        }
        if let Some(content) = str_of(get_of(json.get("message"), "content")) {
            return Ok(content.to_owned());
        }
        Ok(raw.to_owned())
    }

    /// Reads the server's answer out of the reply text `raw`.
    pub fn extract_content(raw: &str) -> (res: Result<String, GenerationError>)
        ensures
            outcome_view(res) == ollama_reply(raw@),
    {
        match read_reply(raw) {
            Ok(reply) => Self::interpret(&reply.json, raw),
            Err(detail) => Err(GenerationError::Decode { detail }),
        }
    }
}

} // verus!
