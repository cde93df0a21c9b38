use vstd::prelude::*;
use crate::json::{json_string_literal, string_literal};
use crate::text::{trim_end_char, trim_end_spec};

verus! {

/// The role under which transcribed speech is sent to the agent.
pub open spec fn user_role() -> Seq<char> {
    "user"@
}

/// The JSON body of a chat request carrying `text` as the one user message:
/// `{"messages":[{"role":"user","content":<text>}]}`.
pub open spec fn chat_request_json(text: Seq<char>) -> Seq<char> {
    "{\"messages\":[{\"role\":"@ + json_string_literal(user_role()) + ",\"content\":"@
        + json_string_literal(text) + "}]}"@
}

/// The JSON body of a translation request:
/// `{"source_lang":<source>,"target_lang":<target>,"text":<text>}`.
pub open spec fn translate_request_json(
    source_lang: Seq<char>,
    target_lang: Seq<char>,
    text: Seq<char>,
) -> Seq<char> {
    "{\"source_lang\":"@ + json_string_literal(source_lang) + ",\"target_lang\":"@
        + json_string_literal(target_lang) + ",\"text\":"@ + json_string_literal(text) + "}"@
}

/// The body of a chat request for `text`.
pub fn chat_request_body(text: &str) -> (r: String)
    ensures
        r@ == chat_request_json(text@),
{
    let mut r = "{\"messages\":[{\"role\":".to_string();
    let role = string_literal("user");
    r.append(role.as_str());
    r.append(",\"content\":");
    let content = string_literal(text);
    r.append(content.as_str());
    r.append("}]}");
    r
}

/// The body of a translation request.
pub fn translate_request_body(source_lang: &str, target_lang: &str, text: &str) -> (r: String)
    ensures
        r@ == translate_request_json(source_lang@, target_lang@, text@),
{
    let mut r = "{\"source_lang\":".to_string();
    let source = string_literal(source_lang);
    r.append(source.as_str());
    r.append(",\"target_lang\":");
    let target = string_literal(target_lang);
    r.append(target.as_str());
    r.append(",\"text\":");
    let body_text = string_literal(text);
    r.append(body_text.as_str());
    r.append("}");
    r
}

/// Where a request to the agent server failed.
#[derive(Debug)]
pub enum ElizaFailure {
    /// The request could not be sent; the transport's error text.
    Send(String),
    /// The response body could not be read; the transport's error text.
    Read(String),
    /// The body is not the expected JSON; the parser's error text and the body.
    Parse { error: String, body: String },
}

impl ElizaFailure {
    /// The error text of a failed chat request.
    pub open spec fn chat_message_spec(&self) -> Seq<char> {
        match self {
            ElizaFailure::Send(e) => "Failed to send to eliza: "@ + e@,
            ElizaFailure::Read(e) => "Failed to read eliza response: "@ + e@,
            ElizaFailure::Parse { error, body } => "Failed to parse eliza response: "@ + error@
                + ". Body was: "@ + body@,
        }
    }

    /// The error text of a failed translation request.
    pub open spec fn translate_message_spec(&self) -> Seq<char> {
        match self {
            ElizaFailure::Send(e) => "Failed to send translate request to eliza: "@ + e@,
            ElizaFailure::Read(e) => "Failed to read eliza translate response: "@ + e@,
            ElizaFailure::Parse { error, body } => "Failed to parse eliza translate response: "@
                + error@ + ". Body was: "@ + body@,
        }
    }

    /// The error text reported when a chat request fails at this stage.
    pub fn chat_message(&self) -> (r: String)
        ensures
            r@ == self.chat_message_spec(),
    {
        match self {
            ElizaFailure::Send(e) => crate::text::concat("Failed to send to eliza: ", e.as_str()),
            ElizaFailure::Read(e) => crate::text::concat(
                "Failed to read eliza response: ",
                e.as_str(),
            ),
            ElizaFailure::Parse { error, body } => {
                let mut r = crate::text::concat("Failed to parse eliza response: ", error.as_str());
                r.append(". Body was: ");
                r.append(body.as_str());
                r
            },
        }
    }

    /// The error text reported when a translation request fails at this stage.
    pub fn translate_message(&self) -> (r: String)
        ensures
            r@ == self.translate_message_spec(),
    {
        match self {
            ElizaFailure::Send(e) => crate::text::concat(
                "Failed to send translate request to eliza: ",
                e.as_str(),
            ),
            ElizaFailure::Read(e) => crate::text::concat(
                "Failed to read eliza translate response: ",
                e.as_str(),
            ),
            ElizaFailure::Parse { error, body } => {
                let mut r = crate::text::concat(
                    "Failed to parse eliza translate response: ",
                    error.as_str(),
                );
                r.append(". Body was: ");
                r.append(body.as_str());
                r
            },
        }
    }
}

/// Client of the Eliza agent server's HTTP API.
pub struct ElizaClient {
    url: String,
}

/// The chat endpoint of the server at `url`.
pub open spec fn chat_endpoint_spec(url: Seq<char>) -> Seq<char> {
    trim_end_spec(url, '/') + "/eliza/api/chat"@
}

/// The translation endpoint of the server at `url`.
pub open spec fn translate_endpoint_spec(url: Seq<char>) -> Seq<char> {
    trim_end_spec(url, '/') + "/eliza/api/translate"@
}

impl ElizaClient {
    /// The base URL of the server.
    pub closed spec fn base_url(&self) -> Seq<char> {
        self.url@
    }

    /// A client of the server at `url`.
    pub fn new(url: String) -> (r: Self)
        ensures
            r.base_url() == url@,
    {
        ElizaClient { url }
    }

    /// The chat endpoint: the base URL without trailing slashes, followed by
    /// `/eliza/api/chat`.
    pub fn chat_endpoint(&self) -> (r: String)
        ensures
            r@ == chat_endpoint_spec(self.base_url()),
    {
        crate::text::concat(trim_end_char(self.url.as_str(), '/'), "/eliza/api/chat")
    }

    /// The translation endpoint: the base URL without trailing slashes,
    /// followed by `/eliza/api/translate`.
    pub fn translate_endpoint(&self) -> (r: String)
        ensures
            r@ == translate_endpoint_spec(self.base_url()),
    {
        crate::text::concat(trim_end_char(self.url.as_str(), '/'), "/eliza/api/translate")
    }
}

/// Trailing slashes do not change where requests go: the endpoints of `url`
/// and of `url` followed by any number of slashes are the same.
pub proof fn law_endpoints_ignore_trailing_slashes(url: Seq<char>, n: nat)
    ensures
        chat_endpoint_spec(url + Seq::new(n, |i: int| '/')) == chat_endpoint_spec(url),
        translate_endpoint_spec(url + Seq::new(n, |i: int| '/')) == translate_endpoint_spec(url),
{
    crate::text::lemma_trim_end_ignores_suffix(url, '/', n);
}

} // verus!
