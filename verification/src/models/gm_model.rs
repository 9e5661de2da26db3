use crate::config::Config;
use vstd::prelude::*;

verus! {

/// Token counts that the chat endpoint reports.
#[derive(Clone, Debug)]
pub struct Usage {
    pub completion_tokens: i64,
    pub prompt_tokens: i64,
    pub total_tokens: i64,
}

/// One chat message: who speaks, and what.
#[derive(Clone, Debug)]
pub struct Message {
    pub content: String,
    pub role: String,
}

/// One choice of a chat completion.
#[derive(Clone, Debug)]
pub struct Struct {
    pub finish_reason: String,
    pub index: i32,
    pub message: Message,
}

/// The reply of the chat completion endpoint.
#[derive(Clone, Debug)]
pub struct ResponseStruct {
    pub choices: Vec<Struct>,
    pub created: i64,
    pub id: String,
    pub model: String,
    pub request_id: String,
    pub usage: Usage,
}

/// The body of a chat completion request.
#[derive(Clone, Debug)]
pub struct RequestStruct {
    pub model: String,
    pub text: String,
    pub messages: Vec<Message>,
}

/// The `url` crate's URL record (re-exported by surf); opaque here.
#[verifier::external_type_specification]
#[verifier::external_body]
pub struct ExUrl(surf::Url);

/// The `url` crate's parse error; opaque here, mapped to `EndpointError`.
#[verifier::external_type_specification]
#[verifier::external_body]
pub struct ExUrlParseError(surf::http::url::ParseError);

/// Whether the `url` crate accepts `text` as an absolute URL.
pub uninterp spec fn url_accepts(text: Seq<char>) -> bool;

/// The URL record that the `url` crate parses from `text`, where it
/// accepts it.
pub uninterp spec fn url_record(text: Seq<char>) -> surf::Url;

/// Parses a URL with `Url::parse` of the `url` crate. The contract claims
/// that whether it succeeds, and the record it gives, are functions of the
/// text alone.
#[verifier::external_body]
fn parse_url(text: &str) -> (parsed: Result<surf::Url, surf::http::url::ParseError>)
    ensures
        parsed is Ok <==> url_accepts(text@),
        parsed matches Ok(u) ==> u == url_record(text@),
{
    surf::Url::parse(text)
}

/// A configured endpoint that is not a URL.
#[derive(Clone, Debug)]
pub struct EndpointError {
    pub url: String,
}

/// The abstract value of a `Message`: (role, content).
pub open spec fn message_view(m: Message) -> (Seq<char>, Seq<char>) {
    (m.role@, m.content@)
}

/// A client of the GLM chat model: which model, the key, the endpoint and
/// the system prompt that presets it.
pub struct GModel {
    model: String,
    api_key: String,
    url: String,
    prompt: String,
}

/// The abstract value of a `GModel`.
pub struct GModelView {
    pub model: Seq<char>,
    pub api_key: Seq<char>,
    pub url: Seq<char>,
    pub prompt: Seq<char>,
}

impl View for GModel {
    type V = GModelView;

    closed spec fn view(&self) -> GModelView {
        GModelView {
            model: self.model@,
            api_key: self.api_key@,
            url: self.url@,
            prompt: self.prompt@,
        }
    }
}

/// The model that `GModel::new` makes of a configuration.
pub open spec fn model_of_config(model: Seq<char>, api_key: Seq<char>, url: Seq<char>) -> GModelView {
    GModelView { model, api_key, url, prompt: Seq::empty() }
}

/// The body that asks `question` of the model `m`: the system prompt first,
/// then the user's question; the question is also sent as `text`.
pub open spec fn request_of(m: GModelView, question: Seq<char>) -> (
    Seq<char>,
    Seq<char>,
    Seq<(Seq<char>, Seq<char>)>,
) {
    (m.model, question, seq![("system"@, m.prompt), ("user"@, question)])
}

impl GModel {
    /// A client for the configuration's model, key and endpoint, with an
    /// empty system prompt.
    pub fn new(config: &Config) -> (model: Self)
        ensures
            model@ == model_of_config(config.model@, config.api_key@, config.url@),
            model@.model == config.model@,
            model@.api_key == config.api_key@,
            model@.url == config.url@,
            model@.prompt.len() == 0,
    {
        GModel {
            model: config.model.clone(),
            api_key: config.api_key.clone(),
            url: config.url.clone(),
            prompt: String::new(),
        }
    }

    /// Replaces the system prompt, and nothing else.
    pub fn set_prompt(&mut self, prompt: String)
        ensures
            final(self)@ == (GModelView { prompt: prompt@, ..old(self)@ }),
    {
        self.prompt = prompt;
    }

    /// The endpoint that the request is posted to, as a URL record; fails
    /// exactly where the `url` crate refuses the configured text.
    pub fn endpoint(&self) -> (endpoint: Result<surf::Url, EndpointError>)
        ensures
            endpoint is Ok <==> url_accepts(self@.url),
            endpoint matches Ok(u) ==> u == url_record(self@.url),
            endpoint matches Err(e) ==> e.url@ == self@.url,
    {
        match parse_url(self.url.as_str()) {
            Ok(url) => Ok(url),
            Err(_) => Err(EndpointError { url: self.url.clone() }),
        }
    }

    /// The value of the `Authorization` header: `Bearer ` and the key.
    pub fn authorization(&self) -> (header: String)
        ensures
            header@ == "Bearer "@ + self@.api_key,
    {
        let header = String::from_str("Bearer ");
        header.concat(self.api_key.as_str())
    }

    /// The request body that asks `question`.
    pub fn request_body(&self, question: String) -> (body: RequestStruct)
        ensures
            (body.model@, body.text@, body.messages@.map_values(|m: Message| message_view(m)))
                == request_of(self@, question@),
            body.model@ == self@.model,
            body.text@ == question@,
            body.messages@.len() == 2,
            body.messages@[0].role@ == "system"@,
            body.messages@[0].content@ == self@.prompt,
            body.messages@[1].role@ == "user"@,
            body.messages@[1].content@ == question@,
    {
        let system = Message { role: String::from_str("system"), content: self.prompt.clone() };
        let user = Message { role: String::from_str("user"), content: question.clone() };
        let messages = vec![system, user];
        let body = RequestStruct { model: self.model.clone(), text: question, messages };
        assert(body.messages@.map_values(|m: Message| message_view(m)) =~= request_of(
            self@,
            body.text@,
        ).2);
        body
    }

    /// The answer in a reply: the content of its first choice.
    pub fn answer(response: &ResponseStruct) -> (answer: String)
        requires
            response.choices@.len() > 0,
        ensures
            answer@ == response.choices@[0].message.content@,
    {
        response.choices[0].message.content.clone()
    }
}

/// A new model asks the configuration's own model, with its key, at its
/// endpoint, and has no system prompt yet.
pub proof fn new_model_is_the_configured_one(model: Seq<char>, api_key: Seq<char>, url: Seq<char>)
    ensures
        model_of_config(model, api_key, url).model == model,
        model_of_config(model, api_key, url).api_key == api_key,
        model_of_config(model, api_key, url).url == url,
        model_of_config(model, api_key, url).prompt.len() == 0,
{
}

/// A request names the model's own model, sends the question alone as its
/// text, whatever the prompt, and carries two messages: the system prompt,
/// then the question from the user.
pub proof fn request_sends_question_as_text(m: GModelView, question: Seq<char>)
    ensures
        request_of(m, question).0 == m.model,
        request_of(m, question).1 == question,
        request_of(m, question).2.len() == 2,
        request_of(m, question).2[0] == ("system"@, m.prompt),
        request_of(m, question).2[1] == ("user"@, question),
        forall|other: GModelView|
            other.model == m.model ==> #[trigger] request_of(other, question).1 == request_of(
                m,
                question,
            ).1,
{
}

} // verus!
