//! The request builder and the document it puts on the wire.

use vstd::prelude::*;
use crate::error::ClientError;
use crate::json::{Json, Numeral, member_from};
use crate::message::Message;

verus! {

/// The model asked for when the caller names none.
pub const DEFAULT_MODEL: &'static str = "hermes-2-pro-mistral-7b";

/// The default limit on generated tokens.
pub const DEFAULT_MAX_TOKENS: u32 = 512;

/// The default presence penalty, 0.0 in single precision.
pub const DEFAULT_PRESENCE_PENALTY: u32 = 0x0000_0000;

/// The default temperature, 1.0 in single precision.
pub const DEFAULT_TEMPERATURE: u32 = 0x3F80_0000;

/// The default nucleus mass, 0.9 in single precision.
pub const DEFAULT_TOP_P: u32 = 0x3F66_6666;

/// The kinds of output constraint a provider can be asked for.
#[derive(Debug, Clone, Copy, PartialEq, Eq)]
pub enum ResponseFormatType {
    JsonObject,
}

/// An output constraint: JSON, optionally validated against a schema.
#[derive(Debug, PartialEq)]
pub struct ResponseFormat {
    pub ty: ResponseFormatType,
    pub schema: Option<Json>,
}

impl ResponseFormatType {
    /// The tag that names this kind on the wire.
    pub open spec fn tag(self) -> Seq<char> {
        match self {
            ResponseFormatType::JsonObject => "json_object"@,
        }
    }
}

impl ResponseFormat {
    /// Whether `doc` is the JSON form of this constraint: an object with the
    /// member `type` and, only where a schema is set, the member `schema`.
    pub open spec fn encoded_as(self, doc: Json) -> bool {
        match doc {
            Json::Object(entries) => {
                &&& entries@.len() == (if self.schema is Some { 2nat } else { 1nat })
                &&& entries@[0].0@ == "type"@
                &&& entries@[0].1 matches Json::Text(tag) && tag@ == self.ty.tag()
                &&& self.schema matches Some(schema) ==> {
                    &&& entries@[1].0@ == "schema"@
                    &&& entries@[1].1 == schema
                }
            },
            _ => false,
        }
    }

    /// The JSON form of this constraint.
    pub fn to_json(self) -> (doc: Json)
        ensures
            self.encoded_as(doc),
    {
        let tag = match self.ty {
            ResponseFormatType::JsonObject => String::from_str("json_object"),
        };
        let mut entries: Vec<(String, Json)> = Vec::new();
        entries.push((String::from_str("type"), Json::Text(tag)));
        match self.schema {
            Some(schema) => { entries.push((String::from_str("schema"), schema)); },
            None => {},
        }
        Json::Object(entries)
    }
}

/// Accumulates the parameters of one completion request. Every setter
/// overwrites one parameter and leaves the others as they were.
pub struct CompletionsRequestBuilder<'a> {
    pub endpoint: String,
    pub authorization: String,
    pub messages: Option<&'a [Message]>,
    pub model: String,
    pub max_tokens: u32,
    pub presence_penalty: Numeral,
    pub temperature: Numeral,
    pub top_p: Numeral,
    pub response_format: Option<ResponseFormat>,
}

/// A validated request, ready to be posted: where to, under which
/// `Authorization` header, and with which JSON body.
#[derive(Debug, PartialEq)]
pub struct Dispatch {
    pub endpoint: String,
    pub authorization: String,
    pub payload: Json,
}

/// Whether `doc` is the array of the JSON forms of `messages`, in order.
pub open spec fn encodes_messages(doc: Json, messages: Seq<Message>) -> bool {
    match doc {
        Json::List(items) => {
            &&& items@.len() == messages.len()
            &&& forall|i: int|
                0 <= i < messages.len() ==> messages[i].encoded_as(#[trigger] items@[i])
        },
        _ => false,
    }
}

impl<'a> CompletionsRequestBuilder<'a> {
    /// Whether a non-empty list of messages has been set.
    pub open spec fn has_messages(self) -> bool {
        self.messages matches Some(messages) && messages@.len() > 0
    }

    /// Whether `doc` is the wire form of the request this builder describes:
    /// an object of the six members that are always sent and, only where an
    /// output constraint is set, the member `response_format`.
    pub open spec fn encoded_as(self, doc: Json) -> bool {
        match doc {
            Json::Object(entries) => {
                &&& self.messages is Some
                &&& entries@.len() == (if self.response_format is Some { 7nat } else { 6nat })
                &&& entries@[0].0@ == "messages"@
                &&& encodes_messages(entries@[0].1, self.messages->0@)
                &&& entries@[1].0@ == "model"@
                &&& entries@[1].1 == Json::Text(self.model)
                &&& entries@[2].0@ == "max_tokens"@
                &&& entries@[2].1 == Json::Number(Numeral::Unsigned(self.max_tokens as u64))
                &&& entries@[3].0@ == "presence_penalty"@
                &&& entries@[3].1 == Json::Number(self.presence_penalty)
                &&& entries@[4].0@ == "temperature"@
                &&& entries@[4].1 == Json::Number(self.temperature)
                &&& entries@[5].0@ == "top_p"@
                &&& entries@[5].1 == Json::Number(self.top_p)
                &&& self.response_format matches Some(format) ==> {
                    &&& entries@[6].0@ == "response_format"@
                    &&& format.encoded_as(entries@[6].1)
                }
            },
            _ => false,
        }
    }

    /// A builder for `endpoint` with every parameter at its default.
    pub fn new(endpoint: String, authorization: String) -> (builder: Self)
        ensures
            builder.endpoint == endpoint,
            builder.authorization == authorization,
            builder.messages is None,
            builder.model@ == DEFAULT_MODEL@,
            builder.max_tokens == DEFAULT_MAX_TOKENS,
            builder.presence_penalty == Numeral::Single(DEFAULT_PRESENCE_PENALTY),
            builder.temperature == Numeral::Single(DEFAULT_TEMPERATURE),
            builder.top_p == Numeral::Single(DEFAULT_TOP_P),
            builder.response_format is None,
    {
        CompletionsRequestBuilder {
            endpoint,
            authorization,
            messages: None,
            model: String::from_str(DEFAULT_MODEL),
            max_tokens: DEFAULT_MAX_TOKENS,
            presence_penalty: Numeral::Single(DEFAULT_PRESENCE_PENALTY),
            temperature: Numeral::Single(DEFAULT_TEMPERATURE),
            top_p: Numeral::Single(DEFAULT_TOP_P),
            response_format: None,
        }
    }

    /// Replaces the list of messages.
    pub fn messages(self, messages: &'a [Message]) -> (builder: Self)
        ensures
            builder == (CompletionsRequestBuilder { messages: Some(messages), ..self }),
    {
        let mut builder = self;
        builder.messages = Some(messages);
        builder
    }

    /// Replaces the model identifier.
    pub fn model(self, model: &str) -> (builder: Self)
        ensures
            builder.model@ == model@,
            builder == (CompletionsRequestBuilder { model: builder.model, ..self }),
    {
        let mut builder = self;
        builder.model = String::from_str(model);
        builder
    }

    /// Replaces the limit on generated tokens.
    pub fn max_tokens(self, max_tokens: u32) -> (builder: Self)
        ensures
            builder == (CompletionsRequestBuilder { max_tokens, ..self }),
    {
        let mut builder = self;
        builder.max_tokens = max_tokens;
        builder
    }

    /// Replaces the presence penalty. No range is enforced here.
    pub fn presence_penalty(self, presence_penalty: Numeral) -> (builder: Self)
        ensures
            builder == (CompletionsRequestBuilder { presence_penalty, ..self }),
    {
        let mut builder = self;
        builder.presence_penalty = presence_penalty;
        builder
    }

    /// Replaces the sampling temperature. No range is enforced here.
    pub fn temperature(self, temperature: Numeral) -> (builder: Self)
        ensures
            builder == (CompletionsRequestBuilder { temperature, ..self }),
    {
        let mut builder = self;
        builder.temperature = temperature;
        builder
    }

    /// Replaces the nucleus mass. No range is enforced here.
    pub fn top_p(self, top_p: Numeral) -> (builder: Self)
        ensures
            builder == (CompletionsRequestBuilder { top_p, ..self }),
    {
        let mut builder = self;
        builder.top_p = top_p;
        builder
    }

    /// Asks for output that is a JSON object, with no schema.
    pub fn json_mode(self) -> (builder: Self)
        ensures
            builder == (CompletionsRequestBuilder {
                response_format: Some(
                    ResponseFormat { ty: ResponseFormatType::JsonObject, schema: None },
                ),
                ..self
            }),
    {
        let mut builder = self;
        builder.response_format = Some(
            ResponseFormat { ty: ResponseFormatType::JsonObject, schema: None },
        );
        builder
    }

    /// Asks for output that is a JSON object validating against `schema`.
    pub fn json_schema(self, schema: Json) -> (builder: Self)
        ensures
            builder == (CompletionsRequestBuilder {
                response_format: Some(
                    ResponseFormat { ty: ResponseFormatType::JsonObject, schema: Some(schema) },
                ),
                ..self
            }),
    {
        let mut builder = self;
        builder.response_format = Some(
            ResponseFormat { ty: ResponseFormatType::JsonObject, schema: Some(schema) },
        );
        builder
    }

    /// Validates the request and assembles what is to be posted. Fails with
    /// `NoMessages` exactly when no message was set, or an empty list was.
    pub fn send(self) -> (outcome: Result<Dispatch, ClientError>)
        ensures
            match outcome {
                Ok(dispatch) => {
                    &&& self.has_messages()
                    &&& dispatch.endpoint == self.endpoint
                    &&& dispatch.authorization == self.authorization
                    &&& self.encoded_as(dispatch.payload)
                },
                Err(e) => !self.has_messages() && e == ClientError::NoMessages,
            },
    {
        let CompletionsRequestBuilder {
            endpoint,
            authorization,
            messages,
            model,
            max_tokens,
            presence_penalty,
            temperature,
            top_p,
            response_format,
        } = self;
        let messages = match messages {
            Some(messages) => messages,
            None => { return Err(ClientError::NoMessages); },
        };
        if messages.len() == 0 {
            return Err(ClientError::NoMessages);
        }
        let mut items: Vec<Json> = Vec::new();
        let mut i: usize = 0;
        while i < messages.len()
            invariant
                i <= messages.len(),
                items@.len() == i,
                forall|k: int| 0 <= k < i ==> messages@[k].encoded_as(#[trigger] items@[k]),
            decreases messages.len() - i,
        {
            items.push(messages[i].to_json());
            i += 1;
        }
        let mut entries: Vec<(String, Json)> = Vec::new();
        entries.push((String::from_str("messages"), Json::List(items)));
        entries.push((String::from_str("model"), Json::Text(model)));
        entries.push(
            (String::from_str("max_tokens"), Json::Number(Numeral::Unsigned(max_tokens as u64))),
        );
        entries.push((String::from_str("presence_penalty"), Json::Number(presence_penalty)));
        entries.push((String::from_str("temperature"), Json::Number(temperature)));
        entries.push((String::from_str("top_p"), Json::Number(top_p)));
        match response_format {
            Some(format) => {
                entries.push((String::from_str("response_format"), format.to_json()));
            },
            None => {},
        }
        Ok(Dispatch { endpoint, authorization, payload: Json::Object(entries) })
    }
}

/// A builder that was given an empty list of messages is refused by `send`
/// just as one that was given none: neither has messages.
pub proof fn lemma_empty_messages_as_unset(builder: CompletionsRequestBuilder, empty: &[Message])
    requires
        empty@.len() == 0,
    ensures
        !(CompletionsRequestBuilder { messages: Some(empty), ..builder }).has_messages(),
        !(CompletionsRequestBuilder { messages: None, ..builder }).has_messages(),
{
}

/// Which members a wire request has: the six that are always sent, and
/// `response_format` if and only if an output constraint was set. No other
/// member is present, and an unset constraint is left out, not sent as null.
pub proof fn lemma_wire_members(builder: CompletionsRequestBuilder, doc: Json, key: Seq<char>)
    requires
        builder.encoded_as(doc),
    ensures
        doc.member(key).is_some() <==> {
            ||| key == "messages"@
            ||| key == "model"@
            ||| key == "max_tokens"@
            ||| key == "presence_penalty"@
            ||| key == "temperature"@
            ||| key == "top_p"@
            ||| (key == "response_format"@ && builder.response_format is Some)
        },
        doc.member("response_format"@).is_some() <==> builder.response_format is Some,
        doc.member("model"@) == Some(Json::Text(builder.model)),
        doc.member("max_tokens"@) == Some(
            Json::Number(Numeral::Unsigned(builder.max_tokens as u64)),
        ),
        doc.member("presence_penalty"@) == Some(Json::Number(builder.presence_penalty)),
        doc.member("temperature"@) == Some(Json::Number(builder.temperature)),
        doc.member("top_p"@) == Some(Json::Number(builder.top_p)),
{
    reveal_strlit("messages");
    reveal_strlit("model");
    reveal_strlit("max_tokens");
    reveal_strlit("presence_penalty");
    reveal_strlit("temperature");
    reveal_strlit("top_p");
    reveal_strlit("response_format");
    reveal_with_fuel(member_from, 8);
    assert("messages"@.len() == 8 && "model"@.len() == 5 && "max_tokens"@.len() == 10);
    assert("presence_penalty"@.len() == 16 && "temperature"@.len() == 11);
    assert("top_p"@.len() == 5 && "response_format"@.len() == 15);
    assert("model"@[0] == 'm' && "top_p"@[0] == 't');
}

} // verus!
