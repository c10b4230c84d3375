//! The provider adapters and the dispatcher between them.
//!
//! A question makes one call. `prepare_question` turns it into that call for
//! the configured provider (an HTTP request, or a chat request for a locally
//! hosted service), and `conclude_question` reads what came back into the
//! answer or an error. The caller performs the call in between.
use vstd::prelude::*;
use crate::config::{framework_name, opt_view, AiConfig, Framework, Question};
use crate::error::{outcome, AppError, ErrorView};
use crate::json::{
    chat_completion_body,
    chat_completion_payload,
    contents_quotable,
    json_string_at,
    messages_body,
    messages_payload,
    quotable,
    string_at,
};
use crate::messages::{
    conversation,
    conversation_entries,
    dialogue,
    dialogue_entries,
    entries_view,
    ChatEntry,
    Role,
};
use crate::number::{decimal, push_decimal};

verus! {

/// The standard reason phrase of an HTTP status code, where it has one.
pub uninterp spec fn reason_phrase(status: u16) -> Option<Seq<char>>;

/// Relies on reqwest::StatusCode::from_u16 and StatusCode::canonical_reason:
/// the standard reason phrase of `status`, where it has one.
#[verifier::external_body]
fn canonical_reason(status: u16) -> (r: Option<String>)
    ensures
        opt_view(r) == reason_phrase(status),
{
    reqwest::StatusCode::from_u16(status).ok().and_then(|s| s.canonical_reason()).map(
        |p| p.to_string(),
    )
}

/// The environment variable that holds a provider's credential (empty for a
/// provider that needs none).
pub open spec fn credential_name(llm: Framework) -> Seq<char> {
    match llm {
        Framework::OpenAI => "OPENAI_API_KEY"@,
        Framework::Anthropic => "ANTHROPIC_API_KEY"@,
        Framework::Ollama => Seq::empty(),
    }
}

/// The environment variable that overrides a provider's endpoint (empty for a
/// provider that has none).
pub open spec fn endpoint_name(llm: Framework) -> Seq<char> {
    match llm {
        Framework::OpenAI => "OPENAI_API_URL"@,
        Framework::Anthropic => "ANTHROPIC_API_URL"@,
        Framework::Ollama => Seq::empty(),
    }
}

/// Whether a provider is reached over HTTP with a credential.
pub open spec fn is_hosted(llm: Framework) -> bool {
    llm != Framework::Ollama
}

/// The endpoint a hosted provider is reached at when no override is given.
pub open spec fn default_url(llm: Framework) -> Seq<char> {
    match llm {
        Framework::OpenAI => "https://api.openai.com/v1/chat/completions"@,
        Framework::Anthropic => "https://api.anthropic.com/v1/messages"@,
        Framework::Ollama => Seq::empty(),
    }
}

/// Where the answer stands in a hosted provider's reply, as a JSON pointer.
pub open spec fn answer_pointer(llm: Framework) -> Seq<char> {
    match llm {
        Framework::OpenAI => "/choices/0/message/content"@,
        Framework::Anthropic => "/content/0/text"@,
        Framework::Ollama => Seq::empty(),
    }
}

/// The failure text of a reply that holds no answer where one should stand.
pub open spec fn missing_answer(llm: Framework) -> Seq<char> {
    match llm {
        Framework::OpenAI => "Failed to extract content from OpenAI response"@,
        Framework::Anthropic => "Failed to extract content from Anthropic response"@,
        Framework::Ollama => Seq::empty(),
    }
}

/// The environment variable that holds the provider's credential, if it needs one.
pub fn credential_var(llm: Framework) -> (r: Option<&'static str>)
    ensures
        r is Some <==> is_hosted(llm),
        r matches Some(name) ==> name@ == credential_name(llm),
{
    match llm {
        Framework::OpenAI => Some("OPENAI_API_KEY"),
        Framework::Anthropic => Some("ANTHROPIC_API_KEY"),
        Framework::Ollama => None,
    }
}

/// The environment variable that overrides the provider's endpoint, if it has one.
pub fn endpoint_var(llm: Framework) -> (r: Option<&'static str>)
    ensures
        r is Some <==> is_hosted(llm),
        r matches Some(name) ==> name@ == endpoint_name(llm),
{
    match llm {
        Framework::OpenAI => Some("OPENAI_API_URL"),
        Framework::Anthropic => Some("ANTHROPIC_API_URL"),
        Framework::Ollama => None,
    }
}

/// An HTTP POST request: where it goes, its headers in order, and its body.
#[derive(Debug, Clone)]
pub struct HttpRequest {
    pub url: String,
    pub headers: Vec<(String, String)>,
    pub body: String,
}

/// An `HttpRequest` with its texts as sequences of characters.
pub struct HttpRequestView {
    pub url: Seq<char>,
    pub headers: Seq<(Seq<char>, Seq<char>)>,
    pub body: Seq<char>,
}

impl View for HttpRequest {
    type V = HttpRequestView;

    open spec fn view(&self) -> HttpRequestView {
        HttpRequestView {
            url: self.url@,
            headers: self.headers@.map_values(|h: (String, String)| (h.0@, h.1@)),
            body: self.body@,
        }
    }
}

/// What came of an HTTP request: the transport's failure, or the status and
/// the body of the response (the empty text where the body could not be read).
#[derive(Debug, Clone)]
pub enum HttpReply {
    Failed(String),
    Received { status: u16, body: String },
}

/// A chat request for a locally hosted service: the model and the conversation.
#[derive(Debug, Clone)]
pub struct ChatRequest {
    pub model: String,
    pub messages: Vec<ChatEntry>,
}

/// The endpoint to use: the override where one is given, else the default.
pub open spec fn endpoint_or_default(llm: Framework, endpoint: Option<String>) -> Seq<char> {
    match endpoint {
        Some(url) => url@,
        None => default_url(llm),
    }
}

/// The token limit sent to the messages API: the configured one, else 1024.
pub open spec fn max_tokens_or_default(c: AiConfig) -> nat {
    match c.max_token {
        Some(n) => n as nat,
        None => 1024,
    }
}

/// The error of a credential that could not be read: the configured
/// provider's name, the variable read and why it failed.
pub open spec fn credential_error(adapter: Framework, c: AiConfig, e: Seq<char>) -> ErrorView {
    ErrorView::Api {
        model_name: framework_name(c.llm),
        failure_str: "Missing or invalid "@ + credential_name(adapter) + ": "@ + e,
    }
}

/// The error of a request body that serde_json failed to write.
pub open spec fn encoding_error() -> ErrorView {
    ErrorView::Unexpected("Failed to write the request body as JSON"@)
}

/// The chat-completions request for a question.
pub open spec fn chat_completion_request(
    q: Question,
    c: AiConfig,
    key: Seq<char>,
    endpoint: Option<String>,
) -> HttpRequestView {
    HttpRequestView {
        url: endpoint_or_default(Framework::OpenAI, endpoint),
        headers: seq![
            ("Content-Type"@, "application/json"@),
            ("Authorization"@, "Bearer "@ + key),
        ],
        body: chat_completion_body(c.model@, conversation(q)),
    }
}

/// The messages request for a question: the system instructions travel in a
/// field of their own, not as an entry.
pub open spec fn messages_request(
    q: Question,
    c: AiConfig,
    key: Seq<char>,
    endpoint: Option<String>,
) -> HttpRequestView {
    HttpRequestView {
        url: endpoint_or_default(Framework::Anthropic, endpoint),
        headers: seq![
            ("x-api-key"@, key),
            ("anthropic-version"@, "2023-06-01"@),
            ("content-type"@, "application/json"@),
        ],
        body: messages_body(c.model@, max_tokens_or_default(c), dialogue(q), q.system_text()),
    }
}

/// What the chat-completions adapter makes of a question, given the credential
/// as read and the endpoint override.
pub open spec fn chat_completion_prepared(
    q: Question,
    c: AiConfig,
    key: Result<String, String>,
    endpoint: Option<String>,
) -> Result<HttpRequestView, ErrorView> {
    match key {
        Err(e) => Err(credential_error(Framework::OpenAI, c, e@)),
        Ok(k) => if quotable(c.model@) && contents_quotable(conversation(q)) {
            Ok(chat_completion_request(q, c, k@, endpoint))
        } else {
            Err(encoding_error())
        },
    }
}

/// What the messages adapter makes of a question, given the credential as
/// read and the endpoint override.
pub open spec fn messages_prepared(
    q: Question,
    c: AiConfig,
    key: Result<String, String>,
    endpoint: Option<String>,
) -> Result<HttpRequestView, ErrorView> {
    match key {
        Err(e) => Err(credential_error(Framework::Anthropic, c, e@)),
        Ok(k) => if quotable(c.model@) && contents_quotable(dialogue(q)) && quotable(
            q.system_text(),
        ) {
            Ok(messages_request(q, c, k@, endpoint))
        } else {
            Err(encoding_error())
        },
    }
}

/// A prepared HTTP request with its texts as sequences of characters.
pub open spec fn http_prepared_view(r: Result<HttpRequest, AppError>) -> Result<
    HttpRequestView,
    ErrorView,
> {
    match r {
        Ok(req) => Ok(req@),
        Err(e) => Err(e@),
    }
}

/// Whether an HTTP status is a success (2xx).
pub open spec fn status_is_success(status: u16) -> bool {
    200 <= status < 300
}

/// An HTTP status as its number and reason phrase.
pub open spec fn status_text(status: u16) -> Seq<char> {
    decimal(status as nat) + " "@ + match reason_phrase(status) {
        Some(p) => p,
        None => "<unknown status code>"@,
    }
}

/// What a hosted adapter reads from the reply to its request: the transport's
/// failure and a status other than 2xx are `Api` errors; on 2xx, a body that
/// is not JSON, or holds no string where the answer stands, is a `Model`
/// error; otherwise the answer is that string, unchanged.
pub open spec fn http_answer(adapter: Framework, c: AiConfig, reply: HttpReply) -> Result<
    Seq<char>,
    ErrorView,
> {
    match reply {
        HttpReply::Failed(e) => Err(
            ErrorView::Api { model_name: framework_name(c.llm), failure_str: "Request error: "@ + e@ },
        ),
        HttpReply::Received { status, body } => if !status_is_success(status) {
            Err(
                ErrorView::Api {
                    model_name: framework_name(c.llm),
                    failure_str: "Status "@ + status_text(status) + ": "@ + body@,
                },
            )
        } else {
            match json_string_at(body@, answer_pointer(adapter)) {
                Err(msg) => Err(
                    ErrorView::Model {
                        model_name: c.model@,
                        failure_str: "Failed to parse JSON response: "@ + msg,
                    },
                ),
                Ok(None) => Err(
                    ErrorView::Model { model_name: c.model@, failure_str: missing_answer(adapter) },
                ),
                Ok(Some(answer)) => Ok(answer),
            }
        },
    }
}

/// What the local chat adapter reads from its call: the answer, or the call's
/// failure as a `Model` error.
pub open spec fn chat_answer(c: AiConfig, reply: Result<String, String>) -> Result<
    Seq<char>,
    ErrorView,
> {
    match reply {
        Ok(answer) => Ok(answer@),
        Err(e) => Err(ErrorView::Model { model_name: c.model@, failure_str: e@ }),
    }
}

fn api_error(config: &AiConfig, detail: String) -> (r: AppError)
    ensures
        r@ == (ErrorView::Api { model_name: framework_name(config.llm), failure_str: detail@ }),
{
    AppError::ApiError { model_name: config.llm.to_string(), failure_str: detail }
}

fn model_error(config: &AiConfig, detail: String) -> (r: AppError)
    ensures
        r@ == (ErrorView::Model { model_name: config.model@, failure_str: detail@ }),
{
    AppError::ModelError { model_name: config.model.clone(), failure_str: detail }
}

fn credential_failure(adapter: Framework, config: &AiConfig, e: String) -> (r: AppError)
    requires
        is_hosted(adapter),
    ensures
        r@ == credential_error(adapter, *config, e@),
{
    let mut detail = String::from_str("Missing or invalid ");
    match adapter {
        Framework::OpenAI => detail.append("OPENAI_API_KEY"),
        _ => detail.append("ANTHROPIC_API_KEY"),
    }
    detail.append(": ");
    detail.append(e.as_str());
    api_error(config, detail)
}

fn encoding_failure() -> (r: AppError)
    ensures
        r@ == encoding_error(),
{
    AppError::UnexpectedError(String::from_str("Failed to write the request body as JSON"))
}

fn endpoint_url(adapter: Framework, endpoint: Option<String>) -> (r: String)
    requires
        is_hosted(adapter),
    ensures
        r@ == endpoint_or_default(adapter, endpoint),
{
    match endpoint {
        Some(url) => url,
        None => match adapter {
            Framework::OpenAI => String::from_str("https://api.openai.com/v1/chat/completions"),
            _ => String::from_str("https://api.anthropic.com/v1/messages"),
        },
    }
}

fn header(name: &str, value: String) -> (r: (String, String))
    ensures
        r.0@ == name@,
        r.1@ == value@,
{
    (String::from_str(name), value)
}

/// Builds the chat-completions request for a question (the OpenAI adapter),
/// from the credential as read and the endpoint override.
pub fn openai_request(
    question: &Question,
    config: &AiConfig,
    api_key: Result<String, String>,
    endpoint: Option<String>,
) -> (r: Result<HttpRequest, AppError>)
    ensures
        http_prepared_view(r) == chat_completion_prepared(*question, *config, api_key, endpoint),
{
    let key = match api_key {
        Ok(k) => k,
        Err(e) => {
            return Err(credential_failure(Framework::OpenAI, config, e));
        },
    };
    let entries = conversation_entries(question);
    let body = match chat_completion_payload(config.model.as_str(), &entries) {
        Ok(b) => b,
        Err(_) => {
            return Err(encoding_failure());
        },
    };
    let mut auth = String::from_str("Bearer ");
    auth.append(key.as_str());
    let headers = vec![
        header("Content-Type", String::from_str("application/json")),
        header("Authorization", auth),
    ];
    let req = HttpRequest { url: endpoint_url(Framework::OpenAI, endpoint), headers, body };
    assert(req@.headers =~= chat_completion_request(*question, *config, key@, endpoint).headers);
    Ok(req)
}

/// Builds the messages request for a question (the Anthropic adapter), from
/// the credential as read and the endpoint override.
pub fn anthropic_request(
    question: &Question,
    config: &AiConfig,
    api_key: Result<String, String>,
    endpoint: Option<String>,
) -> (r: Result<HttpRequest, AppError>)
    ensures
        http_prepared_view(r) == messages_prepared(*question, *config, api_key, endpoint),
{
    let key = match api_key {
        Ok(k) => k,
        Err(e) => {
            return Err(credential_failure(Framework::Anthropic, config, e));
        },
    };
    let entries = dialogue_entries(question);
    let system = match &question.system_prompt {
        Some(s) => s.clone(),
        None => String::new(),
    };
    let max_tokens: u32 = match config.max_token {
        Some(n) => n,
        None => 1024,
    };
    let body = match messages_payload(config.model.as_str(), max_tokens, &entries, system.as_str()) {
        Ok(b) => b,
        Err(_) => {
            return Err(encoding_failure());
        },
    };
    let headers = vec![
        header("x-api-key", key),
        header("anthropic-version", String::from_str("2023-06-01")),
        header("content-type", String::from_str("application/json")),
    ];
    let req = HttpRequest { url: endpoint_url(Framework::Anthropic, endpoint), headers, body };
    assert(req@.headers =~= messages_request(*question, *config, key@, endpoint).headers);
    Ok(req)
}

/// Builds the chat request for a locally hosted service (the Ollama adapter):
/// the configured model and the whole conversation.
pub fn ollama_request(question: &Question, config: &AiConfig) -> (r: ChatRequest)
    ensures
        r.model@ == config.model@,
        entries_view(r.messages@) == conversation(*question),
{
    ChatRequest { model: config.model.clone(), messages: conversation_entries(question) }
}

fn read_http_answer(adapter: Framework, config: &AiConfig, reply: HttpReply) -> (r: Result<
    String,
    AppError,
>)
    requires
        is_hosted(adapter),
    ensures
        outcome(r) == http_answer(adapter, *config, reply),
{
    match reply {
        HttpReply::Failed(e) => {
            let mut detail = String::from_str("Request error: ");
            detail.append(e.as_str());
            Err(api_error(config, detail))
        },
        HttpReply::Received { status, body } => {
            if status < 200 || status >= 300 {
                let mut detail = String::from_str("Status ");
                push_decimal(&mut detail, status as u32);
                detail.append(" ");
                match canonical_reason(status) {
                    Some(p) => detail.append(p.as_str()),
                    None => detail.append("<unknown status code>"),
                }
                detail.append(": ");
                detail.append(body.as_str());
                assert(detail@ =~= "Status "@ + status_text(status) + ": "@ + body@);
                return Err(api_error(config, detail));
            }
            let pointer = match adapter {
                Framework::OpenAI => "/choices/0/message/content",
                _ => "/content/0/text",
            };
            match string_at(body.as_str(), pointer) {
                Err(msg) => {
                    let mut detail = String::from_str("Failed to parse JSON response: ");
                    detail.append(msg.as_str());
                    Err(model_error(config, detail))
                },
                Ok(None) => {
                    let detail = match adapter {
                        Framework::OpenAI => String::from_str(
                            "Failed to extract content from OpenAI response",
                        ),
                        _ => String::from_str("Failed to extract content from Anthropic response"),
                    };
                    Err(model_error(config, detail))
                },
                Ok(Some(answer)) => Ok(answer),
            }
        },
    }
}

/// Reads the answer from the reply to a chat-completions request (the OpenAI
/// adapter): `choices[0].message.content`, unchanged.
pub fn openai_answer(config: &AiConfig, reply: HttpReply) -> (r: Result<String, AppError>)
    ensures
        outcome(r) == http_answer(Framework::OpenAI, *config, reply),
{
    read_http_answer(Framework::OpenAI, config, reply)
}

/// Reads the answer from the reply to a messages request (the Anthropic
/// adapter): `content[0].text`, unchanged.
pub fn anthropic_answer(config: &AiConfig, reply: HttpReply) -> (r: Result<String, AppError>)
    ensures
        outcome(r) == http_answer(Framework::Anthropic, *config, reply),
{
    read_http_answer(Framework::Anthropic, config, reply)
}

/// Reads the answer from the local chat call (the Ollama adapter): the reply's
/// content, or the call's failure as a `Model` error.
pub fn ollama_answer(config: &AiConfig, reply: Result<String, String>) -> (r: Result<
    String,
    AppError,
>)
    ensures
        outcome(r) == chat_answer(*config, reply),
{
    match reply {
        Ok(answer) => Ok(answer),
        Err(e) => Err(model_error(config, e)),
    }
}

/// The one call a question makes.
#[derive(Debug)]
pub enum Outbound {
    /// An HTTP request to a hosted provider.
    Http(HttpRequest),
    /// A chat request to a locally hosted service.
    Chat(ChatRequest),
}

/// An `Outbound` with its texts as sequences of characters.
pub enum OutboundView {
    Http(HttpRequestView),
    Chat { model: Seq<char>, messages: Seq<(Role, Seq<char>)> },
}

impl View for Outbound {
    type V = OutboundView;

    open spec fn view(&self) -> OutboundView {
        match self {
            Outbound::Http(req) => OutboundView::Http(req@),
            Outbound::Chat(req) => OutboundView::Chat {
                model: req.model@,
                messages: entries_view(req.messages@),
            },
        }
    }
}

/// What came back from the call.
#[derive(Debug)]
pub enum Reply {
    /// What came of an HTTP request.
    Http(HttpReply),
    /// The answer of a local chat call, or the description of its failure.
    Chat(Result<String, String>),
}

/// A prepared call with its texts as sequences of characters.
pub open spec fn prepared_view(r: Result<Outbound, AppError>) -> Result<OutboundView, ErrorView> {
    match r {
        Ok(call) => Ok(call@),
        Err(e) => Err(e@),
    }
}

/// A prepared HTTP request as a call.
pub open spec fn as_http_call(r: Result<HttpRequestView, ErrorView>) -> Result<
    OutboundView,
    ErrorView,
> {
    match r {
        Ok(req) => Ok(OutboundView::Http(req)),
        Err(e) => Err(e),
    }
}

/// The call a question becomes under a configuration: the configured
/// provider's adapter alone decides it.
pub open spec fn prepared(
    c: AiConfig,
    q: Question,
    key: Result<String, String>,
    endpoint: Option<String>,
) -> Result<OutboundView, ErrorView> {
    match c.llm {
        Framework::OpenAI => as_http_call(chat_completion_prepared(q, c, key, endpoint)),
        Framework::Anthropic => as_http_call(messages_prepared(q, c, key, endpoint)),
        Framework::Ollama => Ok(OutboundView::Chat { model: c.model@, messages: conversation(q) }),
    }
}

/// The error of a reply of another kind than the configured provider's call.
pub open spec fn mismatch_error() -> ErrorView {
    ErrorView::Unexpected("The reply does not belong to the configured provider"@)
}

/// The outcome of a question, read from its reply by the configured
/// provider's adapter.
pub open spec fn concluded(c: AiConfig, reply: Reply) -> Result<Seq<char>, ErrorView> {
    match reply {
        Reply::Http(h) => if is_hosted(c.llm) {
            http_answer(c.llm, c, h)
        } else {
            Err(mismatch_error())
        },
        Reply::Chat(x) => if is_hosted(c.llm) {
            Err(mismatch_error())
        } else {
            chat_answer(c, x)
        },
    }
}

/// Turns a question into the one call that the configured provider takes.
/// `api_key` is the provider's credential as read from `credential_var`, and
/// `endpoint` the override read from `endpoint_var`; a provider that needs
/// neither ignores them.
pub fn prepare_question(
    config: &AiConfig,
    question: &Question,
    api_key: Result<String, String>,
    endpoint: Option<String>,
) -> (r: Result<Outbound, AppError>)
    ensures
        prepared_view(r) == prepared(*config, *question, api_key, endpoint),
{
    match config.llm {
        Framework::OpenAI => match openai_request(question, config, api_key, endpoint) {
            Ok(req) => Ok(Outbound::Http(req)),
            Err(e) => Err(e),
        },
        Framework::Anthropic => match anthropic_request(question, config, api_key, endpoint) {
            Ok(req) => Ok(Outbound::Http(req)),
            Err(e) => Err(e),
        },
        Framework::Ollama => Ok(Outbound::Chat(ollama_request(question, config))),
    }
}

/// Reads the outcome of a question from the reply to its call.
pub fn conclude_question(config: &AiConfig, reply: Reply) -> (r: Result<String, AppError>)
    ensures
        outcome(r) == concluded(*config, reply),
{
    match reply {
        Reply::Http(h) => match config.llm {
            Framework::OpenAI => openai_answer(config, h),
            Framework::Anthropic => anthropic_answer(config, h),
            Framework::Ollama => Err(mismatch_failure()),
        },
        Reply::Chat(x) => match config.llm {
            Framework::Ollama => ollama_answer(config, x),
            _ => Err(mismatch_failure()),
        },
    }
}

fn mismatch_failure() -> (r: AppError)
    ensures
        r@ == mismatch_error(),
{
    AppError::UnexpectedError(
        String::from_str("The reply does not belong to the configured provider"),
    )
}

/// Dispatch reaches exactly one adapter, the configured provider's, and a
/// question makes at most one call: for a hosted provider, one HTTP request to
/// that provider's endpoint (or an error before any call); for the local one,
/// one chat request; and the reply is read by the same adapter that built the
/// call.
pub proof fn lemma_dispatch_one_adapter(
    c: AiConfig,
    q: Question,
    key: Result<String, String>,
    endpoint: Option<String>,
    reply: Reply,
)
    ensures
        c.llm == Framework::OpenAI ==> prepared(c, q, key, endpoint) == as_http_call(
            chat_completion_prepared(q, c, key, endpoint),
        ),
        c.llm == Framework::Anthropic ==> prepared(c, q, key, endpoint) == as_http_call(
            messages_prepared(q, c, key, endpoint),
        ),
        c.llm == Framework::Ollama ==> prepared(c, q, key, endpoint) == Ok::<
            OutboundView,
            ErrorView,
        >(OutboundView::Chat { model: c.model@, messages: conversation(q) }),
        prepared(c, q, key, endpoint) matches Ok(OutboundView::Http(req)) ==> is_hosted(c.llm)
            && req.url == endpoint_or_default(c.llm, endpoint),
        prepared(c, q, key, endpoint) matches Ok(OutboundView::Chat { .. }) ==> !is_hosted(c.llm),
        is_hosted(c.llm) ==> (reply matches Reply::Http(h) ==> concluded(c, reply) == http_answer(
            c.llm,
            c,
            h,
        )),
        !is_hosted(c.llm) ==> (reply matches Reply::Chat(x) ==> concluded(c, reply)
            == chat_answer(c, x)),
{
}

} // verus!
