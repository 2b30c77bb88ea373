//! What the provider answers, and how it is read from JSON.

use vstd::prelude::*;
use crate::error::ClientError;
use crate::json::Json;
use crate::message::Message;

verus! {

/// One candidate completion.
#[derive(Debug, PartialEq)]
pub struct Choice {
    pub message: Message,
    pub finish_reason: String,
}

/// The provider's answer: every choice it offered, in order.
#[derive(Debug, PartialEq)]
pub struct CompletionsResponse {
    pub choices: Vec<Choice>,
}

/// The choice that `doc` stands for: an object whose member `message` reads
/// as a message and whose member `finish_reason` is a string. Other members
/// are ignored.
pub open spec fn decoded_choice(doc: Json) -> Option<Choice> {
    match (doc.member("message"@), doc.member("finish_reason"@)) {
        (Some(inner), Some(Json::Text(finish_reason))) => match Message::decoded(inner) {
            Some(message) => Some(Choice { message, finish_reason }),
            None => None,
        },
        _ => None,
    }
}

/// The choices that `items` stand for, if every one of them reads as a
/// choice.
pub open spec fn decoded_choices(items: Seq<Json>) -> Option<Seq<Choice>> {
    if forall|i: int| 0 <= i < items.len() ==> (#[trigger] decoded_choice(items[i])).is_some() {
        Some(Seq::new(items.len(), |i: int| decoded_choice(items[i]).unwrap()))
    } else {
        None
    }
}

/// The choices of the answer that `doc` stands for: `doc` must be an object
/// whose member `choices` is an array of choices. Other members are
/// ignored; an empty array is a valid answer.
pub open spec fn decoded_response(doc: Json) -> Option<Seq<Choice>> {
    match doc.member("choices"@) {
        Some(Json::List(items)) => decoded_choices(items@),
        _ => None,
    }
}

impl Choice {
    /// Reads a choice from its JSON form.
    pub fn from_json(doc: &Json) -> (choice: Option<Choice>)
        ensures
            choice == decoded_choice(*doc),
    {
        let message = match doc.get("message") {
            Some(inner) => match Message::from_json(inner) {
                Some(message) => message,
                None => { return None; },
            },
            None => { return None; },
        };
        match doc.get("finish_reason") {
            Some(Json::Text(reason)) => Some(Choice { message, finish_reason: reason.clone() }),
            _ => None,
        }
    }
}

impl CompletionsResponse {
    /// Reads an answer from its JSON form.
    pub fn from_json(doc: &Json) -> (response: Option<CompletionsResponse>)
        ensures
            match response {
                Some(r) => decoded_response(*doc) == Some(r.choices@),
                None => decoded_response(*doc).is_none(),
            },
    {
        let items = match doc.get("choices") {
            Some(Json::List(items)) => items,
            _ => { return None; },
        };
        let mut choices: Vec<Choice> = Vec::new();
        let mut i: usize = 0;
        while i < items.len()
            invariant
                i <= items.len(),
                choices@.len() == i,
                decoded_response(*doc) == decoded_choices(items@),
                forall|k: int| 0 <= k < i ==> (#[trigger] decoded_choice(items@[k])) == Some(choices@[k]),
            decreases items.len() - i,
        {
            match Choice::from_json(&items[i]) {
                Some(choice) => { choices.push(choice); },
                None => {
                    assert(decoded_choice(items@[i as int]).is_none());
                    return None;
                },
            }
            i += 1;
        }
        assert(decoded_choices(items@).is_some());
        assert(choices@ =~= decoded_choices(items@).unwrap());
        Some(CompletionsResponse { choices })
    }

    /// The first choice, which callers usually take as the answer.
    pub fn first_choice(&self) -> (first: Result<&Choice, ClientError>)
        ensures
            match first {
                Ok(choice) => self.choices@.len() > 0 && *choice == self.choices@[0],
                Err(e) => self.choices@.len() == 0 && e == ClientError::NoChoices,
            },
    {
        if self.choices.len() == 0 {
            Err(ClientError::NoChoices)
        } else {
            Ok(&self.choices[0])
        }
    }
}

} // verus!
