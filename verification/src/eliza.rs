use vstd::prelude::*;
use crate::text::{trim_end_char, trim_end_spec};

verus! {

/// Client of an agent server whose chat endpoint is `/chat` directly under
/// the base URL. Requests and error texts are those of
/// [`crate::integrations::eliza`]: see `chat_request_body` and
/// `ElizaFailure::chat_message` there.
pub struct ElizaClient {
    url: String,
}

/// The chat endpoint of the server at `url`.
pub open spec fn chat_endpoint_spec(url: Seq<char>) -> Seq<char> {
    trim_end_spec(url, '/') + "/chat"@
}

impl ElizaClient {
    /// The base URL of the server.
    pub closed spec fn base_url(&self) -> Seq<char> {
        self.url@
    }

    /// A client of the server at `url`.
    pub fn new(url: String) -> (r: Self)
        ensures
            r.base_url() == url@,
    {
        ElizaClient { url }
    }

    /// The chat endpoint: the base URL without trailing slashes, followed by
    /// `/chat`.
    pub fn chat_endpoint(&self) -> (r: String)
        ensures
            r@ == chat_endpoint_spec(self.base_url()),
    {
        crate::text::concat(trim_end_char(self.url.as_str(), '/'), "/chat")
    }
}

/// Trailing slashes do not change the chat endpoint.
pub proof fn law_chat_endpoint_ignores_trailing_slashes(url: Seq<char>, n: nat)
    ensures
        chat_endpoint_spec(url + Seq::new(n, |i: int| '/')) == chat_endpoint_spec(url),
{
    crate::text::lemma_trim_end_ignores_suffix(url, '/', n);
}

} // verus!
