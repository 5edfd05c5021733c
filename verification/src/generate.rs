//! The description generator: the request that is sent to the
//! text-generation service, and what is read out of its answer.
//!
//! Nothing here touches the network. The caller posts the request and hands
//! back the status and the decoded body as a [`ServiceReply`].

use vstd::prelude::*;
use crate::error::RunError;
use crate::inspect::is_text_result;

verus! {

/// Where the service is and how it is addressed. These are values, not
/// constants, so that a caller can point a run at another endpoint or
/// another model. A run keeps them as they are given.
pub struct ServiceConfig {
    /// The address to which the request is posted.
    pub endpoint: String,
    /// The model that is asked.
    pub model: String,
    /// The most tokens that the answer may have.
    pub max_tokens: u32,
    /// The name of the header that carries the API key.
    pub key_header: String,
    /// The name of the header that carries the protocol version.
    pub version_header: String,
    /// The protocol version.
    pub version: String,
}

/// One message of a conversation.
pub struct Message {
    pub role: String,
    pub content: String,
}

/// What is posted to the service: the address, the headers, and the fields
/// of the JSON body `{model, max_tokens, messages: [{role, content}]}`.
pub struct ClaudeRequest {
    pub endpoint: String,
    pub headers: Vec<(String, String)>,
    pub model: String,
    pub max_tokens: u32,
    pub messages: Vec<Message>,
}

/// One block of generated text.
pub struct Content {
    pub text: String,
}

/// The JSON body of the service's answer, `{content: [{text}, ...]}`.
pub struct ClaudeResponse {
    pub content: Vec<Content>,
}

/// What came back from the service.
pub struct ServiceReply {
    /// The HTTP status; `None` when no answer arrived.
    pub status: Option<u16>,
    /// The body; `None` when it is not JSON of the expected shape.
    pub body: Option<ClaudeResponse>,
}

/// `ServiceConfig` as mathematical values.
pub struct ServiceView {
    pub endpoint: Seq<char>,
    pub model: Seq<char>,
    pub max_tokens: nat,
    pub key_header: Seq<char>,
    pub version_header: Seq<char>,
    pub version: Seq<char>,
}

impl View for ServiceConfig {
    type V = ServiceView;

    open spec fn view(&self) -> ServiceView {
        ServiceView {
            endpoint: self.endpoint@,
            model: self.model@,
            max_tokens: self.max_tokens as nat,
            key_header: self.key_header@,
            version_header: self.version_header@,
            version: self.version@,
        }
    }
}

/// `ClaudeRequest` as mathematical values: headers as pairs of name and
/// value, messages as pairs of role and content.
pub struct RequestView {
    pub endpoint: Seq<char>,
    pub headers: Seq<(Seq<char>, Seq<char>)>,
    pub model: Seq<char>,
    pub max_tokens: nat,
    pub messages: Seq<(Seq<char>, Seq<char>)>,
}

impl View for ClaudeRequest {
    type V = RequestView;

    open spec fn view(&self) -> RequestView {
        RequestView {
            endpoint: self.endpoint@,
            headers: self.headers@.map_values(|h: (String, String)| (h.0@, h.1@)),
            model: self.model@,
            max_tokens: self.max_tokens as nat,
            messages: self.messages@.map_values(|m: Message| (m.role@, m.content@)),
        }
    }
}

impl View for ClaudeResponse {
    type V = Seq<Seq<char>>;

    /// The texts of the content blocks, in order.
    open spec fn view(&self) -> Seq<Seq<char>> {
        self.content@.map_values(|c: Content| c.text@)
    }
}

/// `ServiceReply` as mathematical values: the status, and the texts of the
/// content blocks where the body could be decoded.
pub struct ReplyView {
    pub status: Option<u16>,
    pub body: Option<Seq<Seq<char>>>,
}

impl View for ServiceReply {
    type V = ReplyView;

    open spec fn view(&self) -> ReplyView {
        ReplyView {
            status: self.status,
            body: match self.body {
                Some(b) => Some(b@),
                None => None,
            },
        }
    }
}

/// Whether an HTTP status reports success.
pub open spec fn is_success(status: Option<u16>) -> bool {
    status matches Some(code) && 200 <= code <= 299
}

/// The description that a reply holds: the text of its first content block.
/// A reply without a successful status is a service error whatever its body
/// holds; a body of another shape is a decode error; a body without content
/// blocks is an empty response.
pub open spec fn description_of(reply: ReplyView) -> Result<Seq<char>, RunError> {
    if !is_success(reply.status) {
        Err(RunError::Service)
    } else {
        match reply.body {
            None => Err(RunError::Decode),
            Some(content) => if content.len() == 0 {
                Err(RunError::EmptyResponse)
            } else {
                Ok(content[0])
            },
        }
    }
}

/// The settings of the public service for the model that is named: the
/// messages endpoint, at most 4000 tokens, and the headers that the service
/// asks for.
pub open spec fn standard_service(model: Seq<char>) -> ServiceView {
    ServiceView {
        endpoint: "https://api.anthropic.com/v1/messages"@,
        model,
        max_tokens: 4000,
        key_header: "x-api-key"@,
        version_header: "anthropic-version"@,
        version: "2023-06-01"@,
    }
}

/// The request that asks for a description of `payload`: one message, in
/// the role of the user, that holds the payload, with the API key and the
/// protocol version as the only headers.
pub open spec fn request_of(
    config: ServiceView,
    api_key: Seq<char>,
    payload: Seq<char>,
) -> RequestView {
    RequestView {
        endpoint: config.endpoint,
        headers: seq![(config.key_header, api_key), (config.version_header, config.version)],
        model: config.model,
        max_tokens: config.max_tokens,
        messages: seq![("user"@, payload)],
    }
}

impl ServiceConfig {
    /// The settings of the public service, for the model that is named.
    pub fn standard(model: String) -> (c: ServiceConfig)
        ensures
            c@ == standard_service(model@),
    {
        ServiceConfig {
            endpoint: "https://api.anthropic.com/v1/messages".to_owned(),
            model,
            max_tokens: 4000,
            key_header: "x-api-key".to_owned(),
            version_header: "anthropic-version".to_owned(),
            version: "2023-06-01".to_owned(),
        }
    }
}

/// Builds the request that asks the service for a description.
pub fn build_request(config: &ServiceConfig, api_key: &str, payload: &str) -> (r: ClaudeRequest)
    ensures
        r@ == request_of(config@, api_key@, payload@),
{
    let mut headers: Vec<(String, String)> = Vec::new();
    headers.push((config.key_header.clone(), api_key.to_owned()));
    headers.push((config.version_header.clone(), config.version.clone()));
    let mut messages: Vec<Message> = Vec::new();
    messages.push(Message { role: "user".to_owned(), content: payload.to_owned() });
    let r = ClaudeRequest {
        endpoint: config.endpoint.clone(),
        headers,
        model: config.model.clone(),
        max_tokens: config.max_tokens,
        messages,
    };
    proof {
        assert(r@.headers =~= request_of(config@, api_key@, payload@).headers);
        assert(r@.messages =~= request_of(config@, api_key@, payload@).messages);
    }
    r
}

/// Reads the description out of the service's reply.
pub fn read_reply(reply: &ServiceReply) -> (r: Result<String, RunError>)
    ensures
        is_text_result(r, description_of(reply@)),
{
    match reply.status {
        Some(code) => {
            if code < 200 || code > 299 {
                return Err(RunError::Service);
            }
        },
        None => {
            return Err(RunError::Service);
        },
    }
    match &reply.body {
        None => Err(RunError::Decode),
        Some(body) => {
            if body.content.len() == 0 {
                Err(RunError::EmptyResponse)
            } else {
                Ok(body.content[0].text.clone())
            }
        },
    }
}

/// A reply without content blocks is an empty response whenever the service
/// reported success and the body could be decoded.
pub proof fn lemma_empty_content_is_an_error(reply: ReplyView)
    requires
        is_success(reply.status),
        reply.body matches Some(content) && content.len() == 0,
    ensures
        description_of(reply) == Err::<Seq<char>, RunError>(RunError::EmptyResponse),
{
}

} // verus!
