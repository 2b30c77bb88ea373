//! The long-lived side of the client: endpoint and credential.

use vstd::prelude::*;
use crate::error::ClientError;
use crate::request::CompletionsRequestBuilder;

verus! {

/// Whether a character may stand in an HTTP header value: a tab, or anything
/// from the space upwards but the delete character. A character beyond
/// ASCII is sent as bytes that are all above the delete character, so the
/// rule on characters and the rule on bytes agree.
pub open spec fn header_char_ok(c: char) -> bool {
    c as u32 == 9 || (c as u32 >= 32 && c as u32 != 127)
}

/// Whether every character of `text` may stand in an HTTP header value.
pub open spec fn header_text_ok(text: Seq<char>) -> bool {
    forall|i: int| 0 <= i < text.len() ==> header_char_ok(#[trigger] text[i])
}

/// An endpoint together with the `Authorization` header that every request
/// to it carries. Both are fixed when the client is made.
#[derive(Debug, Clone, PartialEq)]
pub struct TextGenClient {
    pub base_url: String,
    pub authorization: String,
}

impl TextGenClient {
    /// Makes a client. Fails with `InvalidCredential` exactly when the token
    /// holds a character that no header value may carry.
    pub fn new(base_url: &str, token: &str) -> (made: Result<TextGenClient, ClientError>)
        ensures
            match made {
                Ok(client) => {
                    &&& header_text_ok(token@)
                    &&& client.base_url@ == base_url@
                    &&& client.authorization@ == "Bearer "@ + token@
                },
                Err(e) => !header_text_ok(token@) && e == ClientError::InvalidCredential,
            },
    {
        let n = token.unicode_len();
        let mut i: usize = 0;
        while i < n
            invariant
                i <= n,
                n == token@.len(),
                forall|k: int| 0 <= k < i ==> header_char_ok(#[trigger] token@[k]),
            decreases n - i,
        {
            let code: u32 = token.get_char(i) as u32;
            if !(code == 9 || (code >= 32 && code != 127)) {
                assert(!header_char_ok(token@[i as int]));
                return Err(ClientError::InvalidCredential);
            }
            i += 1;
        }
        Ok(
            TextGenClient {
                base_url: String::from_str(base_url),
                authorization: String::from_str("Bearer ").concat(token),
            },
        )
    }

    /// A fresh request builder for this client's endpoint, with every
    /// parameter at its default. Builders share nothing with one another.
    pub fn chat_completions<'a>(&self) -> (builder: CompletionsRequestBuilder<'a>)
        ensures
            builder.endpoint == self.base_url,
            builder.authorization == self.authorization,
            builder.messages is None,
            builder.model@ == crate::request::DEFAULT_MODEL@,
            builder.max_tokens == crate::request::DEFAULT_MAX_TOKENS,
            builder.presence_penalty == crate::json::Numeral::Single(
                crate::request::DEFAULT_PRESENCE_PENALTY,
            ),
            builder.temperature == crate::json::Numeral::Single(
                crate::request::DEFAULT_TEMPERATURE,
            ),
            builder.top_p == crate::json::Numeral::Single(crate::request::DEFAULT_TOP_P),
            builder.response_format is None,
    {
        CompletionsRequestBuilder::new(self.base_url.clone(), self.authorization.clone())
    }
}

} // verus!
