//! What becomes of a posted request: the part of the exchange that follows
//! the network call.

use vstd::prelude::*;
use crate::error::ClientError;
use crate::json::{Json, parsed_json};
use crate::response::{Choice, CompletionsResponse, decoded_response};

verus! {

/// What the transport reports back for one posted request.
#[derive(Debug, PartialEq)]
pub enum Reply {
    /// The endpoint was never reached, or the connection broke.
    Failed { cause: String },
    /// The provider answered with this status and this body.
    Answered { status: u16, body: String },
}

/// Whether an HTTP status is a client or server error.
pub open spec fn is_failure_status(status: u16) -> bool {
    400 <= status < 600
}

/// What a body that came with a success status amounts to, given the
/// document that was read from it, if any.
pub open spec fn body_outcome(parsed: Option<Json>, body: String) -> Result<
    Seq<Choice>,
    ClientError,
> {
    match parsed {
        Some(doc) => match decoded_response(doc) {
            Some(choices) => Ok(choices),
            None => Err(ClientError::Decode { body }),
        },
        None => Err(ClientError::Decode { body }),
    }
}

/// Whether `outcome` is the result that `expected` describes.
pub open spec fn agrees(
    outcome: Result<CompletionsResponse, ClientError>,
    expected: Result<Seq<Choice>, ClientError>,
) -> bool {
    match (outcome, expected) {
        (Ok(response), Ok(choices)) => response.choices@ == choices,
        (Err(e), Err(f)) => e == f,
        _ => false,
    }
}

/// Reads the answer out of a parsed body. Fails with `Decode`, carrying the
/// raw body, when the body was not JSON or lacks a required member.
pub fn interpret(parsed: Option<Json>, body: String) -> (outcome: Result<
    CompletionsResponse,
    ClientError,
>)
    ensures
        agrees(outcome, body_outcome(parsed, body)),
{
    match parsed {
        Some(doc) => match CompletionsResponse::from_json(&doc) {
            Some(response) => Ok(response),
            None => Err(ClientError::Decode { body }),
        },
        None => Err(ClientError::Decode { body }),
    }
}

/// A body that reads as JSON but has no member `choices` is a `Decode`
/// error, never an answer without choices.
pub proof fn lemma_missing_choices_is_refused(doc: Json, body: String)
    requires
        doc.member("choices"@) is None,
    ensures
        body_outcome(Some(doc), body) == Err::<Seq<Choice>, ClientError>(
            ClientError::Decode { body },
        ),
{
}

/// A body whose `choices` array is empty is an answer, and one in which
/// there is no choice to read.
pub proof fn lemma_empty_choices_is_an_answer(doc: Json, items: Vec<Json>, body: String)
    requires
        doc.member("choices"@) == Some(Json::List(items)),
        items@.len() == 0,
    ensures
        body_outcome(Some(doc), body) == Ok::<Seq<Choice>, ClientError>(Seq::empty()),
{
    assert(decoded_response(doc).unwrap() =~= Seq::<Choice>::empty());
}

/// Turns the transport's report into the result of the exchange: a failed
/// transport is a `Transport` error, an error status is an `Api` error that
/// keeps status and body, and any other status has its body decoded.
pub fn complete(reply: Reply) -> (outcome: Result<CompletionsResponse, ClientError>)
    ensures
        agrees(
            outcome,
            match reply {
                Reply::Failed { cause } => Err(ClientError::Transport { cause }),
                Reply::Answered { status, body } => if is_failure_status(status) {
                    Err(ClientError::Api { status, body })
                } else {
                    body_outcome(parsed_json(body@), body)
                },
            },
        ),
{
    match reply {
        Reply::Failed { cause } => Err(ClientError::Transport { cause }),
        Reply::Answered { status, body } => {
            if 400 <= status && status < 600 {
                Err(ClientError::Api { status, body })
            } else {
                let parsed = Json::parse(body.as_str());
                interpret(parsed, body)
            }
        },
    }
}

} // verus!
