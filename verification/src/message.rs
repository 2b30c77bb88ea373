//! One turn of a conversation, and its JSON form.

use vstd::prelude::*;
use crate::json::{Json, member_from};

verus! {

/// A turn: who speaks, and what is said. Roles are kept as text, so that a
/// role this crate has never heard of survives decoding.
#[derive(Debug, Clone, PartialEq)]
pub struct Message {
    pub role: String,
    pub content: String,
}

impl Message {
    /// Whether `doc` is the JSON form of this message: an object with the
    /// two members `role` and `content`, in that order, and nothing else.
    pub open spec fn encoded_as(self, doc: Json) -> bool {
        match doc {
            Json::Object(entries) => {
                &&& entries@.len() == 2
                &&& entries@[0].0@ == "role"@
                &&& entries@[0].1 == Json::Text(self.role)
                &&& entries@[1].0@ == "content"@
                &&& entries@[1].1 == Json::Text(self.content)
            },
            _ => false,
        }
    }

    /// The message that `doc` stands for: `doc` must be an object whose
    /// members `role` and `content` are both strings. Other members are
    /// ignored.
    pub open spec fn decoded(doc: Json) -> Option<Message> {
        match (doc.member("role"@), doc.member("content"@)) {
            (Some(Json::Text(role)), Some(Json::Text(content))) => Some(Message { role, content }),
            _ => None,
        }
    }

    /// A turn spoken by the user.
    pub fn user(content: &str) -> (message: Message)
        ensures
            message.role@ == "user"@,
            message.content@ == content@,
    {
        Message { role: String::from_str("user"), content: String::from_str(content) }
    }

    /// A turn that instructs the model.
    pub fn system(content: &str) -> (message: Message)
        ensures
            message.role@ == "system"@,
            message.content@ == content@,
    {
        Message { role: String::from_str("system"), content: String::from_str(content) }
    }

    /// The JSON form of this message.
    pub fn to_json(&self) -> (doc: Json)
        ensures
            self.encoded_as(doc),
    {
        let mut entries: Vec<(String, Json)> = Vec::new();
        entries.push((String::from_str("role"), Json::Text(self.role.clone())));
        entries.push((String::from_str("content"), Json::Text(self.content.clone())));
        Json::Object(entries)
    }

    /// Reads a message from its JSON form.
    pub fn from_json(doc: &Json) -> (message: Option<Message>)
        ensures
            message == Message::decoded(*doc),
    {
        let role = match doc.get("role") {
            Some(Json::Text(role)) => role.clone(),
            _ => { return None; },
        };
        let content = match doc.get("content") {
            Some(Json::Text(content)) => content.clone(),
            _ => { return None; },
        };
        Some(Message { role, content })
    }
}

/// Encoding a message and decoding the result gives the message back, with
/// the same role and the same content.
pub proof fn lemma_message_round_trip(message: Message, doc: Json)
    requires
        message.encoded_as(doc),
    ensures
        Message::decoded(doc) == Some(message),
{
    reveal_strlit("role");
    reveal_strlit("content");
    reveal_with_fuel(member_from, 3);
    assert("role"@.len() == 4 && "content"@.len() == 7);
}

} // verus!
