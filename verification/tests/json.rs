use oramacore_client::error::{OramaError, SerializationIssue};
use oramacore_client::json::Json;

#[test]
fn text_round_trip_of_a_small_object() {
    let value = Json::Object(vec![
        ("id".to_string(), Json::Text("1".to_string())),
        ("count".to_string(), Json::Number("3".to_string())),
    ]);
    let text = value.to_text().unwrap();
    assert_eq!(text, "{\"count\":3,\"id\":\"1\"}");
    let back = Json::from_text(&text).unwrap();
    assert_eq!(back.member("id"), Some(&Json::Text("1".to_string())));
    assert_eq!(back.member("count"), Some(&Json::Number("3".to_string())));
}

#[test]
fn to_text_writes_every_kind_of_value() {
    assert_eq!(Json::Null.to_text().unwrap(), "null");
    assert_eq!(Json::Bool(true).to_text().unwrap(), "true");
    assert_eq!(Json::Bool(false).to_text().unwrap(), "false");
    assert_eq!(Json::Number("42".to_string()).to_text().unwrap(), "42");
    assert_eq!(Json::Number("-7".to_string()).to_text().unwrap(), "-7");
    assert_eq!(Json::Number("2.5".to_string()).to_text().unwrap(), "2.5");
    assert_eq!(
        Json::Text("a \"b\"\n".to_string()).to_text().unwrap(),
        "\"a \\\"b\\\"\\n\""
    );
    assert_eq!(Json::Array(vec![]).to_text().unwrap(), "[]");
    assert_eq!(Json::Object(vec![]).to_text().unwrap(), "{}");
    assert_eq!(
        Json::Array(vec![Json::Null, Json::Array(vec![Json::Bool(true)])])
            .to_text()
            .unwrap(),
        "[null,[true]]"
    );
}

#[test]
fn to_text_refuses_a_number_that_is_none() {
    for text in ["", "abc", "1x", "--1", "0x10", "1e", "NaN"] {
        let number = Json::Number(text.to_string());
        assert_eq!(
            number.to_text(),
            Err(OramaError::Serialization(SerializationIssue::Encoding))
        );
        let nested = Json::Object(vec![(
            "n".to_string(),
            Json::Array(vec![Json::Number(text.to_string())]),
        )]);
        assert_eq!(
            nested.to_text(),
            Err(OramaError::Serialization(SerializationIssue::Encoding))
        );
    }
}

#[test]
fn from_text_reads_every_kind_of_value() {
    assert_eq!(Json::from_text("null"), Ok(Json::Null));
    assert_eq!(Json::from_text(" true "), Ok(Json::Bool(true)));
    assert_eq!(Json::from_text("12"), Ok(Json::Number("12".to_string())));
    assert_eq!(Json::from_text("-12"), Ok(Json::Number("-12".to_string())));
    assert_eq!(Json::from_text("1.25"), Ok(Json::Number("1.25".to_string())));
    assert_eq!(
        Json::from_text("\"caf\\u00e9\""),
        Ok(Json::Text("caf\u{e9}".to_string()))
    );
    assert_eq!(
        Json::from_text("[1, \"a\", [], {}]"),
        Ok(Json::Array(vec![
            Json::Number("1".to_string()),
            Json::Text("a".to_string()),
            Json::Array(vec![]),
            Json::Object(vec![]),
        ]))
    );
    assert_eq!(
        Json::from_text("{\"b\": 1, \"a\": {\"c\": null}}"),
        Ok(Json::Object(vec![
            (
                "a".to_string(),
                Json::Object(vec![("c".to_string(), Json::Null)])
            ),
            ("b".to_string(), Json::Number("1".to_string())),
        ]))
    );
}

#[test]
fn from_text_refuses_what_is_not_json() {
    for text in ["", "{", "[1,]", "{\"a\":}", "nul", "'a'", "1 2", "{\"a\":1,}"] {
        assert_eq!(
            Json::from_text(text),
            Err(OramaError::Serialization(SerializationIssue::MalformedJson))
        );
    }
}

#[test]
fn member_finds_the_last_member_of_a_name() {
    let object = Json::Object(vec![
        ("a".to_string(), Json::Number("1".to_string())),
        ("b".to_string(), Json::Number("2".to_string())),
        ("a".to_string(), Json::Number("3".to_string())),
    ]);
    assert_eq!(object.member("a"), Some(&Json::Number("3".to_string())));
    assert_eq!(object.member("b"), Some(&Json::Number("2".to_string())));
    assert_eq!(object.member("c"), None);
    assert_eq!(object.member(""), None);
    assert_eq!(object.to_text().unwrap(), "{\"a\":3,\"b\":2}");
}

#[test]
fn member_of_anything_but_an_object_is_none() {
    for value in [
        Json::Null,
        Json::Bool(true),
        Json::Number("1".to_string()),
        Json::Text("a".to_string()),
        Json::Array(vec![Json::Object(vec![("a".to_string(), Json::Null)])]),
        Json::Object(vec![]),
    ] {
        assert_eq!(value.member("a"), None);
    }
}
