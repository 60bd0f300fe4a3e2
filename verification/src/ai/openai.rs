//! The hosted chat-completion service.

use crate::ai::{HttpRequest, HttpRequestView};
use crate::error::{outcome_view, GenerationError, GenerationFailure};
use crate::json::{
    first_in, first_of, get_of, json_document, member_of, read_reply, str_of, text_of, Json,
    JsonValue, Member,
};
use crate::provider::Provider;
use vstd::prelude::*;
use vstd::string::StringExecFns;

verus! {

/// The address, the model and the credential of a chat-completion service.
#[derive(Clone, Debug, PartialEq, Eq)]
pub struct OpenAIProvider {
    pub base_url: String,
    pub model: String,
    pub api_key: String,
    pub verbose: bool,
}

/// One turn of a chat: who speaks, and what is said.
pub open spec fn chat_message(role: Seq<char>, content: Seq<char>) -> JsonValue {
    JsonValue::Object(seq![("role"@, JsonValue::Text(role)), ("content"@, JsonValue::Text(content))])
}

/// The request that asks the service at `base_url` to let `model` answer
/// `prompt`, in the name of the holder of `api_key`.
pub open spec fn openai_request(
    base_url: Seq<char>,
    model: Seq<char>,
    api_key: Seq<char>,
    prompt: Seq<char>,
) -> HttpRequestView {
    HttpRequestView {
        url: base_url + "/chat/completions"@,
        authorization: Some("Bearer "@ + api_key),
        body: JsonValue::Object(
            seq![
                ("model"@, JsonValue::Text(model)),
                (
                    "messages"@,
                    JsonValue::Array(
                        seq![
                            chat_message(
                                "system"@,
                                "You are a helpful assistant that generates git commit messages."@,
                            ),
                            chat_message("user"@, prompt),
                        ],
                    ),
                ),
                ("temperature"@, JsonValue::Number("0.7"@)),
                ("max_tokens"@, JsonValue::Number("1000"@)),
            ],
        ),
    }
}

/// The generated text in a reply: the content of the message of its first
/// choice.
pub open spec fn openai_content(json: JsonValue) -> Option<Seq<char>> {
    text_of(
        member_of(member_of(first_of(json.member("choices"@)), "message"@), "content"@),
    )
}

/// What the reply `json` amounts to: the generated text, else the service's
/// own error message, else nothing that can be read.
pub open spec fn openai_outcome(json: JsonValue) -> Result<Seq<char>, GenerationFailure> {
    if let Some(content) = openai_content(json) {
        Ok(content)
    } else if let Some(message) = text_of(member_of(json.member("error"@), "message"@)) {
        Err(GenerationFailure::Backend { backend: Provider::OpenAI, message })
    } else {
        Err(GenerationFailure::Unparseable { backend: Provider::OpenAI })
    }
}

/// What the reply text `raw` amounts to.
pub open spec fn openai_reply(raw: Seq<char>) -> Result<Seq<char>, GenerationFailure> {
    match json_document(raw) {
        Ok(json) => openai_outcome(json),
        Err(detail) => Err(GenerationFailure::Decode { detail }),
    }
}

fn message(role: &str, content: &str) -> (json: Json)
    ensures
        json@ == chat_message(role@, content@),
{
    let mut entries: Vec<Member> = Vec::new();
    entries.push(Member::new("role", Json::text(role)));
    entries.push(Member::new("content", Json::text(content)));
    let json = Json::object(entries);
    assert(json@->Object_0 =~= chat_message(role@, content@)->Object_0);
    json
}

impl OpenAIProvider {
    pub fn new(base_url: &str, model: &str, api_key: &str, verbose: bool) -> (provider: Self)
        ensures
            provider.base_url@ == base_url@,
            provider.model@ == model@,
            provider.api_key@ == api_key@,
            provider.verbose == verbose,
    {
        OpenAIProvider {
            base_url: base_url.to_owned(),
            model: model.to_owned(),
            api_key: api_key.to_owned(),
            verbose,
        }
    }

    /// The request that carries `prompt` to the service.
    pub fn request(&self, prompt: &str) -> (request: HttpRequest)
        ensures
            request@ == openai_request(self.base_url@, self.model@, self.api_key@, prompt@),
    {
        let ghost wanted = openai_request(self.base_url@, self.model@, self.api_key@, prompt@);
        let url = self.base_url.clone().concat("/chat/completions");
        let authorization = String::from_str("Bearer ").concat(self.api_key.as_str());
        let mut messages: Vec<Json> = Vec::new();
        messages.push(
            message("system", "You are a helpful assistant that generates git commit messages."),
        );
        messages.push(message("user", prompt));
        let chat = Json::array(messages);
        assert(chat@->Array_0 =~= wanted.body->Object_0[1].1->Array_0);
        let mut entries: Vec<Member> = Vec::new();
        entries.push(Member::new("model", Json::text(self.model.as_str())));
        entries.push(Member::new("messages", chat));
        entries.push(Member::new("temperature", Json::number("0.7")));
        entries.push(Member::new("max_tokens", Json::number("1000")));
        let body = Json::object(entries);
        assert(body@->Object_0 =~= wanted.body->Object_0);
        HttpRequest { url, authorization: Some(authorization), body }
    }

    /// Reads the service's answer out of the reply `json`.
    pub fn interpret(json: &Json) -> (res: Result<String, GenerationError>)
        ensures
            outcome_view(res) == openai_outcome(json@),
    {
        let choice = first_in(json.get("choices"));
        if let Some(content) = str_of(get_of(get_of(choice, "message"), "content")) {
            return Ok(content.to_owned());
        }
        if let Some(message) = str_of(get_of(json.get("error"), "message")) {
            return Err(
                GenerationError::Backend { backend: Provider::OpenAI, message: message.to_owned() },
            );
        }
        Err(GenerationError::Unparseable { backend: Provider::OpenAI })
    }

    /// Reads the service's answer out of the reply text `raw`.
    pub fn extract_content(raw: &str) -> (res: Result<String, GenerationError>)
        ensures
            outcome_view(res) == openai_reply(raw@),
    {
        match read_reply(raw) {
            Ok(reply) => Self::interpret(&reply.json),
            Err(detail) => Err(GenerationError::Decode { detail }),
        }
    }
}

} // verus!
