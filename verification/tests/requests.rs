use wat::client::TextGenClient;
use wat::error::ClientError;
use wat::json::{Json, Numeral};
use wat::message::Message;
use wat::request::{
    CompletionsRequestBuilder, ResponseFormat, ResponseFormatType, DEFAULT_MAX_TOKENS,
    DEFAULT_MODEL, DEFAULT_PRESENCE_PENALTY, DEFAULT_TEMPERATURE, DEFAULT_TOP_P,
};

fn text(s: &str) -> Json {
    Json::Text(s.to_string())
}

fn client() -> TextGenClient {
    TextGenClient::new("http://localhost:1/v1", "key").unwrap()
}

fn turn(role: &str, content: &str) -> Json {
    Json::Object(vec![("role".to_string(), text(role)), ("content".to_string(), text(content))])
}

#[test]
fn defaults_are_the_documented_ones() {
    let b = client().chat_completions();
    assert_eq!(b.model, "hermes-2-pro-mistral-7b");
    assert_eq!(b.model, DEFAULT_MODEL);
    assert_eq!(b.max_tokens, 512);
    assert_eq!(DEFAULT_MAX_TOKENS, 512);
    assert_eq!(b.presence_penalty, Numeral::Single(0.0f32.to_bits()));
    assert_eq!(b.temperature, Numeral::Single(1.0f32.to_bits()));
    assert_eq!(b.top_p, Numeral::Single(0.9f32.to_bits()));
    assert_eq!(DEFAULT_PRESENCE_PENALTY, 0.0f32.to_bits());
    assert_eq!(DEFAULT_TEMPERATURE, 1.0f32.to_bits());
    assert_eq!(DEFAULT_TOP_P, 0.9f32.to_bits());
    assert!(b.messages.is_none());
    assert!(b.response_format.is_none());
}

#[test]
fn send_without_messages_fails() {
    assert_eq!(client().chat_completions().send(), Err(ClientError::NoMessages));
    assert_eq!(
        client().chat_completions().model("m").max_tokens(7).json_mode().send(),
        Err(ClientError::NoMessages)
    );
}

#[test]
fn send_with_empty_messages_fails() {
    let none: Vec<Message> = Vec::new();
    assert_eq!(client().chat_completions().messages(&none).send(), Err(ClientError::NoMessages));
}

#[test]
fn send_puts_defaults_on_the_wire() {
    let turns = vec![Message::system("be brief"), Message::user("hi")];
    let dispatch = client().chat_completions().messages(&turns).send().unwrap();
    assert_eq!(dispatch.endpoint, "http://localhost:1/v1");
    assert_eq!(dispatch.authorization, "Bearer key");
    assert_eq!(
        dispatch.payload,
        Json::Object(vec![
            (
                "messages".to_string(),
                Json::List(vec![turn("system", "be brief"), turn("user", "hi")]),
            ),
            ("model".to_string(), text("hermes-2-pro-mistral-7b")),
            ("max_tokens".to_string(), Json::Number(Numeral::Unsigned(512))),
            ("presence_penalty".to_string(), Json::Number(Numeral::Single(0.0f32.to_bits()))),
            ("temperature".to_string(), Json::Number(Numeral::Single(1.0f32.to_bits()))),
            ("top_p".to_string(), Json::Number(Numeral::Single(0.9f32.to_bits()))),
        ])
    );
}

#[test]
fn send_puts_overrides_on_the_wire() {
    let turns = vec![Message::user("hi")];
    let dispatch = client()
        .chat_completions()
        .messages(&turns)
        .model("other")
        .max_tokens(16)
        .presence_penalty(Numeral::Single(0.5f32.to_bits()))
        .temperature(Numeral::Single(0.25f32.to_bits()))
        .top_p(Numeral::Unsigned(1))
        .send()
        .unwrap();
    assert_eq!(dispatch.payload.get("model"), Some(&text("other")));
    assert_eq!(dispatch.payload.get("max_tokens"), Some(&Json::Number(Numeral::Unsigned(16))));
    assert_eq!(
        dispatch.payload.get("presence_penalty"),
        Some(&Json::Number(Numeral::Single(0.5f32.to_bits())))
    );
    assert_eq!(
        dispatch.payload.get("temperature"),
        Some(&Json::Number(Numeral::Single(0.25f32.to_bits())))
    );
    assert_eq!(dispatch.payload.get("top_p"), Some(&Json::Number(Numeral::Unsigned(1))));
    assert_eq!(dispatch.payload.get("response_format"), None);
}

#[test]
fn later_setter_overwrites_earlier() {
    let first = vec![Message::user("a")];
    let second = vec![Message::user("b")];
    let dispatch = client()
        .chat_completions()
        .messages(&first)
        .model("x")
        .messages(&second)
        .model("y")
        .send()
        .unwrap();
    assert_eq!(dispatch.payload.get("messages"), Some(&Json::List(vec![turn("user", "b")])));
    assert_eq!(dispatch.payload.get("model"), Some(&text("y")));
}

#[test]
fn response_format_is_absent_unless_asked_for() {
    let turns = vec![Message::user("hi")];
    let dispatch = client().chat_completions().messages(&turns).send().unwrap();
    assert_eq!(dispatch.payload.get("response_format"), None);
    match &dispatch.payload {
        Json::Object(entries) => assert_eq!(entries.len(), 6),
        _ => panic!("the payload is an object"),
    }
}

#[test]
fn json_mode_sends_a_bare_response_format() {
    let turns = vec![Message::user("hi")];
    let dispatch = client().chat_completions().messages(&turns).json_mode().send().unwrap();
    assert_eq!(
        dispatch.payload.get("response_format"),
        Some(&Json::Object(vec![("type".to_string(), text("json_object"))]))
    );
    match &dispatch.payload {
        Json::Object(entries) => assert_eq!(entries.len(), 7),
        _ => panic!("the payload is an object"),
    }
}

#[test]
fn json_schema_sends_the_schema() {
    let turns = vec![Message::user("hi")];
    let schema = Json::parse("{\"type\":\"object\"}").unwrap();
    let dispatch =
        client().chat_completions().messages(&turns).json_schema(schema).send().unwrap();
    assert_eq!(
        dispatch.payload.get("response_format"),
        Some(&Json::Object(vec![
            ("type".to_string(), text("json_object")),
            ("schema".to_string(), Json::Object(vec![("type".to_string(), text("object"))])),
        ]))
    );
}

#[test]
fn json_mode_after_json_schema_drops_the_schema() {
    let b = client().chat_completions().json_schema(Json::Bool(true)).json_mode();
    assert_eq!(
        b.response_format,
        Some(ResponseFormat { ty: ResponseFormatType::JsonObject, schema: None })
    );
}

#[test]
fn builder_new_starts_from_defaults() {
    let b = CompletionsRequestBuilder::new("u".to_string(), "a".to_string());
    assert_eq!(b.endpoint, "u");
    assert_eq!(b.authorization, "a");
    assert_eq!(b.max_tokens, 512);
    assert!(b.messages.is_none());
}

#[test]
fn builders_of_one_client_are_independent() {
    let c = client();
    let a = c.chat_completions().model("a");
    let b = c.chat_completions();
    assert_eq!(a.model, "a");
    assert_eq!(b.model, "hermes-2-pro-mistral-7b");
}

#[test]
fn client_prefixes_the_token() {
    let c = TextGenClient::new("https://example.test/v1", "sk-123").unwrap();
    assert_eq!(c.base_url, "https://example.test/v1");
    assert_eq!(c.authorization, "Bearer sk-123");
}

#[test]
fn client_refuses_control_characters_in_the_token() {
    assert_eq!(TextGenClient::new("u", "a\nb"), Err(ClientError::InvalidCredential));
    assert_eq!(TextGenClient::new("u", "a\u{7f}"), Err(ClientError::InvalidCredential));
    assert_eq!(TextGenClient::new("u", "\u{0}"), Err(ClientError::InvalidCredential));
}

#[test]
fn client_accepts_tab_space_and_non_ascii() {
    assert!(TextGenClient::new("u", "a\tb c").is_ok());
    assert!(TextGenClient::new("u", "cl\u{e9}").is_ok());
    assert!(TextGenClient::new("u", "").is_ok());
}
