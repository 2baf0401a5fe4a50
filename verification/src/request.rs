//! What goes out with each turn: the credentials' header value and the
//! request itself.

use vstd::prelude::*;
use vstd::utf8::*;
use crate::conversation::Conversation;
use crate::error::TurnError;
use crate::message::{message_views, Message, MessageView};

verus! {

/// The most tokens that a reply may run to.
pub const MAX_TOKENS: u32 = 4096;

/// The model that is asked, unless the configuration names another.
pub const DEFAULT_MODEL: &'static str = "generalv3.5";

/// The completions URL, unless the configuration names another.
pub const DEFAULT_ENDPOINT: &'static str = "https://spark-api-open.xf-yun.com/v1/chat/completions";

/// The key and the secret that the endpoint knows the user by.
#[derive(Debug)]
pub struct Credentials {
    pub key: String,
    pub secret: String,
}

/// Which model to ask, and where.
#[derive(Debug)]
pub struct RequestConfig {
    pub model: String,
    pub endpoint: String,
}

impl Default for RequestConfig {
    fn default() -> (config: RequestConfig)
        ensures
            config.model@ == DEFAULT_MODEL@,
            config.endpoint@ == DEFAULT_ENDPOINT@,
    {
        RequestConfig {
            model: String::from_str(DEFAULT_MODEL),
            endpoint: String::from_str(DEFAULT_ENDPOINT),
        }
    }
}

/// One request: the whole history, asked of one model, to be answered as a
/// stream of at most [`MAX_TOKENS`] tokens.
#[derive(Debug)]
pub struct OutboundRequest {
    pub model: String,
    pub messages: Vec<Message>,
    pub max_tokens: u32,
    pub stream: bool,
}

/// An [`OutboundRequest`] as a mathematical value.
pub struct RequestView {
    pub model: Seq<char>,
    pub messages: Seq<MessageView>,
    pub max_tokens: u32,
    pub stream: bool,
}

impl View for OutboundRequest {
    type V = RequestView;

    open spec fn view(&self) -> RequestView {
        RequestView {
            model: self.model@,
            messages: message_views(self.messages@),
            max_tokens: self.max_tokens,
            stream: self.stream,
        }
    }
}

/// The request that a history is sent with.
pub open spec fn request_for(model: Seq<char>, history: Seq<MessageView>) -> RequestView {
    RequestView { model, messages: history, max_tokens: MAX_TOKENS, stream: true }
}

/// Builds the request for the conversation as it stands.
pub fn build_request(config: &RequestConfig, conversation: &Conversation) -> (request:
    OutboundRequest)
    ensures
        request@ == request_for(config.model@, conversation@),
{
    OutboundRequest {
        model: config.model.clone(),
        messages: conversation.snapshot(),
        max_tokens: MAX_TOKENS,
        stream: true,
    }
}

/// The text of the authorization header for a key and a secret.
pub open spec fn bearer(key: Seq<char>, secret: Seq<char>) -> Seq<char> {
    "Bearer "@ + key + ":"@ + secret
}

/// Whether a byte may stand in a header value: a tab, or anything from the
/// space up but the delete character.
pub open spec fn header_byte(byte: u8) -> bool {
    (byte >= 32 && byte != 127) || byte == 9
}

/// Whether a text makes a header value: every byte of its UTF-8 encoding
/// may stand in one.
pub open spec fn header_text(text: Seq<char>) -> bool {
    forall|i: int| 0 <= i < encode_utf8(text).len() ==> header_byte(#[trigger] encode_utf8(text)[i])
}

/// `reqwest::header::HeaderValue`, as the header constructor returns it.
#[verifier::external_type_specification]
#[verifier::external_body]
pub struct ExHeaderValue(reqwest::header::HeaderValue);

/// `reqwest::header::InvalidHeaderValue`, the header constructor's error.
#[verifier::external_type_specification]
#[verifier::external_body]
pub struct ExInvalidHeaderValue(reqwest::header::InvalidHeaderValue);

/// Calls `reqwest::header::HeaderValue::from_str`. By its source it walks
/// the bytes of the text and fails exactly when one of them is below the
/// space without being a tab, or is the delete character.
#[verifier::external_body]
fn header_value(text: &str) -> (made: Result<
    reqwest::header::HeaderValue,
    reqwest::header::InvalidHeaderValue,
>)
    ensures
        made is Ok <==> header_text(text@),
{
    reqwest::header::HeaderValue::from_str(text)
}

/// Builds the text of the authorization header, `Bearer {key}:{secret}`,
/// and fails where that text makes no header value.
pub fn authorization(credentials: &Credentials) -> (header: Result<String, TurnError>)
    ensures
        header is Ok <==> header_text(bearer(credentials.key@, credentials.secret@)),
        header matches Ok(text) ==> text@ == bearer(credentials.key@, credentials.secret@),
        header matches Err(error) ==> error == TurnError::RequestBuild,
{
    let mut text = String::from_str("Bearer ");
    text.append(credentials.key.as_str());
    text.append(":");
    text.append(credentials.secret.as_str());
    match header_value(text.as_str()) {
        Ok(_) => Ok(text),
        Err(_) => Err(TurnError::RequestBuild),
    }
}

} // verus!
