//! The failures a completion exchange can end in.

use vstd::prelude::*;

verus! {

#[derive(Debug, PartialEq)]
pub enum ClientError {
    /// No credential could be found in any source.
    Configuration,
    /// The credential holds a character that no HTTP header value may carry.
    InvalidCredential,
    /// The request was sent without any message.
    NoMessages,
    /// The endpoint could not be reached.
    Transport { cause: String },
    /// The provider answered with a client or server error status.
    Api { status: u16, body: String },
    /// The provider's answer does not have the expected shape.
    Decode { body: String },
    /// The provider's answer holds no choice to read.
    NoChoices,
}

} // verus!
