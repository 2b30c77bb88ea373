use wat::json::{Json, Numeral};

#[test]
fn parse_reads_every_kind_of_value() {
    let doc = Json::parse("{\"a\":[1,-2,1.5,\"x\",null,true]}").unwrap();
    assert_eq!(
        doc,
        Json::Object(vec![(
            "a".to_string(),
            Json::List(vec![
                Json::Number(Numeral::Unsigned(1)),
                Json::Number(Numeral::Signed(-2)),
                Json::Number(Numeral::Double(1.5f64.to_bits())),
                Json::Text("x".to_string()),
                Json::Null,
                Json::Bool(true),
            ]),
        )])
    );
}

#[test]
fn parse_refuses_malformed_text() {
    assert_eq!(Json::parse("{\"a\":"), None);
    assert_eq!(Json::parse(""), None);
    assert_eq!(Json::parse("{} trailing"), None);
}

#[test]
fn parse_is_not_the_identity_on_text() {
    assert_eq!(Json::parse("\"a\\nb\""), Some(Json::Text("a\nb".to_string())));
}

#[test]
fn get_finds_members_by_name() {
    let doc = Json::parse("{\"b\":1,\"a\":\"x\"}").unwrap();
    assert_eq!(doc.get("a"), Some(&Json::Text("x".to_string())));
    assert_eq!(doc.get("b"), Some(&Json::Number(Numeral::Unsigned(1))));
    assert_eq!(doc.get("c"), None);
    assert_eq!(Json::Null.get("a"), None);
}

#[test]
fn get_returns_the_first_of_equal_names() {
    let doc = Json::Object(vec![
        ("k".to_string(), Json::Bool(true)),
        ("k".to_string(), Json::Bool(false)),
    ]);
    assert_eq!(doc.get("k"), Some(&Json::Bool(true)));
}

#[test]
fn as_text_and_as_list_tell_kinds_apart() {
    let t = Json::Text("x".to_string());
    let l = Json::List(vec![Json::Null]);
    assert_eq!(t.as_text(), Some(&"x".to_string()));
    assert_eq!(t.as_list(), None);
    assert_eq!(l.as_list(), Some(&vec![Json::Null]));
    assert_eq!(l.as_text(), None);
}
