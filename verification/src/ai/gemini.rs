//! The hosted generative-language service.

use crate::ai::{HttpRequest, HttpRequestView};
use crate::error::{outcome_view, GenerationError, GenerationFailure};
use crate::json::{
    compact_text, first_in, first_of, get_of, json_document, member_of, read_reply, str_of,
    text_of, Json, JsonValue, Member,
};
use crate::provider::Provider;
use vstd::prelude::*;
use vstd::string::StringExecFns;

verus! {

/// The address, the model and the credential of a generative-language
/// service.
#[derive(Clone, Debug, PartialEq, Eq)]
pub struct GeminiProvider {
    pub base_url: String,
    pub model: String,
    pub api_key: String,
    pub verbose: bool,
}

/// The request that asks the service at `base_url` to let `model` answer
/// `prompt`. The credential travels in the address, not in a header.
pub open spec fn gemini_request(
    base_url: Seq<char>,
    model: Seq<char>,
    api_key: Seq<char>,
    prompt: Seq<char>,
) -> HttpRequestView {
    HttpRequestView {
        url: base_url + "/v1beta/models/"@ + model + ":generateContent?key="@ + api_key,
        authorization: None,
        body: JsonValue::Object(
            seq![
                (
                    "contents"@,
                    JsonValue::Array(
                        seq![
                            JsonValue::Object(
                                seq![
                                    (
                                        "parts"@,
                                        JsonValue::Array(
                                            seq![
                                                JsonValue::Object(
                                                    seq![("text"@, JsonValue::Text(prompt))],
                                                ),
                                            ],
                                        ),
                                    ),
                                ],
                            ),
                        ],
                    ),
                ),
            ],
        ),
    }
}

/// The generated text in a reply: the text of the first part of the content
/// of its first candidate.
pub open spec fn gemini_content(json: JsonValue) -> Option<Seq<char>> {
    let candidate = first_of(json.member("candidates"@));
    let part = first_of(member_of(member_of(candidate, "content"@), "parts"@));
    text_of(member_of(part, "text"@))
}

/// What a reply amounts to that holds the generated text `content`, if any,
/// and whose member `error`, if any, reads `error` as compact JSON.
pub open spec fn gemini_verdict(content: Option<Seq<char>>, error: Option<Seq<char>>) -> Result<
    Seq<char>,
    GenerationFailure,
> {
    if let Some(text) = content {
        Ok(text)
    } else if let Some(message) = error {
        Err(GenerationFailure::Backend { backend: Provider::Gemini, message })
    } else {
        Err(GenerationFailure::Unparseable { backend: Provider::Gemini })
    }
}

/// What the reply `json` amounts to: the generated text, else the service's
/// own error as compact JSON, else nothing that can be read.
pub open spec fn gemini_outcome(json: JsonValue) -> Result<Seq<char>, GenerationFailure> {
    gemini_verdict(
        gemini_content(json),
        match json.member("error"@) {
            Some(error) => Some(compact_text(error)),
            None => None,
        },
    )
}

/// What the reply text `raw` amounts to.
pub open spec fn gemini_reply(raw: Seq<char>) -> Result<Seq<char>, GenerationFailure> {
    match json_document(raw) {
        Ok(json) => gemini_outcome(json),
        Err(detail) => Err(GenerationFailure::Decode { detail }),
    }
}

fn singleton(name: &str, value: Json) -> (json: Json)
    ensures
        json@ == JsonValue::Object(seq![(name@, value@)]),
{
    let mut entries: Vec<Member> = Vec::new();
    entries.push(Member::new(name, value));
    let json = Json::object(entries);
    assert(json@->Object_0 =~= seq![(name@, value@)]);
    json
}

fn one_item(item: Json) -> (json: Json)
    ensures
        json@ == JsonValue::Array(seq![item@]),
{
    let mut items: Vec<Json> = Vec::new();
    items.push(item);
    let json = Json::array(items);
    assert(json@->Array_0 =~= seq![item@]);
    json
}

impl GeminiProvider {
    pub fn new(base_url: &str, model: &str, api_key: &str, verbose: bool) -> (provider: Self)
        ensures
            provider.base_url@ == base_url@,
            provider.model@ == model@,
            provider.api_key@ == api_key@,
            provider.verbose == verbose,
    {
        GeminiProvider {
            base_url: base_url.to_owned(),
            model: model.to_owned(),
            api_key: api_key.to_owned(),
            verbose,
        }
    }

    /// The request that carries `prompt` to the service.
    pub fn request(&self, prompt: &str) -> (request: HttpRequest)
        ensures
            request@ == gemini_request(self.base_url@, self.model@, self.api_key@, prompt@),
    {
        let url = self.base_url.clone().concat("/v1beta/models/").concat(
            self.model.as_str(),
        ).concat(":generateContent?key=").concat(self.api_key.as_str());
        let part = singleton("text", Json::text(prompt));
        let content = singleton("parts", one_item(part));
        let body = singleton("contents", one_item(content));
        HttpRequest { url, authorization: None, body }
    }

    /// The generated text in the reply `json`, if it holds one.
    pub fn content(json: &Json) -> (res: Option<String>)
        ensures
            match res {
                Some(text) => gemini_content(json@) == Some(text@),
                None => gemini_content(json@) is None,
            },
    {
        let candidate = first_in(json.get("candidates"));
        let part = first_in(get_of(get_of(candidate, "content"), "parts"));
        match str_of(get_of(part, "text")) {
            Some(text) => Some(text.to_owned()),
            None => None,
        }
    }

    /// Reads the service's answer out of the reply `json`, whose member
    /// `error`, if it has one, reads `error` as compact JSON.
    pub fn interpret(json: &Json, error: Option<String>) -> (res: Result<String, GenerationError>)
        ensures
            outcome_view(res) == gemini_verdict(
                gemini_content(json@),
                match error {
                    Some(message) => Some(message@),
                    None => None,
                },
            ),
    {
        if let Some(text) = Self::content(json) {
            return Ok(text);
        }
        match error {
            Some(message) => Err(GenerationError::Backend { backend: Provider::Gemini, message }),
            None => Err(GenerationError::Unparseable { backend: Provider::Gemini }),
        }
    }

    /// Reads the service's answer out of the reply text `raw`.
    pub fn extract_content(raw: &str) -> (res: Result<String, GenerationError>)
        ensures
            outcome_view(res) == gemini_reply(raw@),
    {
        match read_reply(raw) {
            Ok(reply) => Self::interpret(&reply.json, reply.error_text),
            Err(detail) => Err(GenerationError::Decode { detail }),
        }
    }
}

} // verus!
