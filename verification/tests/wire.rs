use oramacore_client::error::{OramaError, SerializationIssue};
use oramacore_client::internal::embeddings::EmbeddingModel;
use oramacore_client::internal::nlp::Language;
use oramacore_client::json::Json;
use oramacore_client::manager::{
    ComplexType, EmbeddingsConfig, ExistingCollection, FieldType, NewCollectionParams, ScalarType,
};
use oramacore_client::wire::{
    collections_from_json, documents_to_json, json_string, strings_to_json,
};

fn all_field_types() -> Vec<FieldType> {
    vec![
        FieldType::Scalar {
            Scalar: ScalarType::String,
        },
        FieldType::Scalar {
            Scalar: ScalarType::Number,
        },
        FieldType::Complex {
            Complex: ComplexType::Embedding,
        },
    ]
}

#[test]
fn a_field_type_is_written_as_an_object_of_one_member() {
    let texts = [
        "{\"Scalar\":\"string\"}",
        "{\"Scalar\":\"number\"}",
        "{\"Complex\":\"embedding\"}",
    ];
    for (field_type, text) in all_field_types().into_iter().zip(texts) {
        assert_eq!(field_type.to_json().to_text().unwrap(), text);
    }
    assert_eq!(
        FieldType::Scalar {
            Scalar: ScalarType::String
        }
        .to_json(),
        Json::Object(vec![(
            "Scalar".to_string(),
            Json::Text("string".to_string())
        )])
    );
}

#[test]
fn a_field_type_survives_writing_and_reading() {
    for field_type in all_field_types() {
        assert_eq!(FieldType::from_json(&field_type.to_json()), Some(field_type));
        let text = field_type.to_json().to_text().unwrap();
        let read = FieldType::from_json(&Json::from_text(&text).unwrap());
        assert_eq!(read, Some(field_type));
    }
}

#[test]
fn a_field_type_that_is_read_is_written_back_unchanged() {
    for text in [
        "{\"Scalar\":\"string\"}",
        "{\"Scalar\":\"number\"}",
        "{\"Complex\":\"embedding\"}",
    ] {
        let json = Json::from_text(text).unwrap();
        let field_type = FieldType::from_json(&json).unwrap();
        assert_eq!(field_type.to_json(), json);
        assert_eq!(field_type.to_json().to_text().unwrap(), text);
    }
    assert_eq!(
        FieldType::from_json(&Json::from_text("{\"Scalar\":\"string\"}").unwrap()),
        Some(FieldType::Scalar {
            Scalar: ScalarType::String
        })
    );
    assert_eq!(
        FieldType::from_json(&Json::from_text("{\"Complex\":\"embedding\"}").unwrap()),
        Some(FieldType::Complex {
            Complex: ComplexType::Embedding
        })
    );
}

#[test]
fn what_is_no_field_type_is_refused() {
    for text in [
        "null",
        "\"string\"",
        "[]",
        "{}",
        "{\"Scalar\":\"embedding\"}",
        "{\"Complex\":\"string\"}",
        "{\"scalar\":\"string\"}",
        "{\"Scalar\":\"String\"}",
        "{\"Scalar\":null}",
        "{\"Scalar\":{\"Scalar\":\"string\"}}",
        "{\"Scalar\":\"string\",\"Complex\":\"embedding\"}",
        "{\"Other\":\"string\"}",
    ] {
        assert_eq!(FieldType::from_json(&Json::from_text(text).unwrap()), None);
    }
}

#[test]
fn strings_become_a_json_array() {
    assert_eq!(strings_to_json(&vec![]), Json::Array(vec![]));
    assert_eq!(
        strings_to_json(&vec!["a".to_string(), "".to_string(), "a".to_string()]),
        Json::Array(vec![
            Json::Text("a".to_string()),
            Json::Text("".to_string()),
            Json::Text("a".to_string()),
        ])
    );
    assert_eq!(json_string("x"), Json::Text("x".to_string()));
}

#[test]
fn documents_become_a_json_array_of_objects() {
    assert_eq!(documents_to_json(vec![]), Json::Array(vec![]));
    let first = vec![("id".to_string(), Json::Text("1".to_string()))];
    let second = vec![];
    assert_eq!(
        documents_to_json(vec![first, second]),
        Json::Array(vec![
            Json::Object(vec![("id".to_string(), Json::Text("1".to_string()))]),
            Json::Object(vec![]),
        ])
    );
}

#[test]
fn params_become_an_object_of_six_members() {
    let params = NewCollectionParams {
        id: "docs-1".to_string(),
        description: Some("About".to_string()),
        write_api_key: "w".to_string(),
        read_api_key: "r".to_string(),
        language: Some(Language::French),
        embeddings: Some(EmbeddingsConfig {
            model: Some(EmbeddingModel::E5MultilangualBase),
            document_fields: Some(vec!["title".to_string()]),
        }),
    };
    assert_eq!(
        params.to_json(),
        Json::Object(vec![
            ("id".to_string(), Json::Text("docs-1".to_string())),
            ("description".to_string(), Json::Text("About".to_string())),
            ("write_api_key".to_string(), Json::Text("w".to_string())),
            ("read_api_key".to_string(), Json::Text("r".to_string())),
            ("language".to_string(), Json::Text("french".to_string())),
            (
                "embeddings".to_string(),
                Json::Object(vec![
                    (
                        "model".to_string(),
                        Json::Text("E5MultilangualBase".to_string())
                    ),
                    (
                        "document_fields".to_string(),
                        Json::Array(vec![Json::Text("title".to_string())])
                    ),
                ])
            ),
        ])
    );
    let bare = NewCollectionParams {
        id: "x".to_string(),
        description: None,
        write_api_key: String::new(),
        read_api_key: String::new(),
        language: None,
        embeddings: None,
    };
    assert_eq!(
        bare.to_json(),
        Json::Object(vec![
            ("id".to_string(), Json::Text("x".to_string())),
            ("description".to_string(), Json::Null),
            ("write_api_key".to_string(), Json::Text(String::new())),
            ("read_api_key".to_string(), Json::Text(String::new())),
            ("language".to_string(), Json::Text("english".to_string())),
            ("embeddings".to_string(), Json::Null),
        ])
    );
}

#[test]
fn every_model_and_language_has_its_own_name() {
    let models = [
        (EmbeddingModel::E5MultilangualSmall, "E5MultilangualSmall"),
        (EmbeddingModel::E5MultilangualBase, "E5MultilangualBase"),
        (EmbeddingModel::E5MultilangualLarge, "E5MultilangualLarge"),
        (EmbeddingModel::BGESmall, "BGESmall"),
        (EmbeddingModel::BGEBase, "BGEBase"),
        (EmbeddingModel::BGELarge, "BGELarge"),
    ];
    for (model, name) in models {
        assert_eq!(model.wire_name(), name);
    }
    assert_eq!(Language::English.wire_name(), "english");
    assert_eq!(Language::Italian.wire_name(), "italian");
    assert_eq!(Language::Chinese.wire_name(), "chinese");
    assert_eq!(Language::Ukrainian.wire_name(), "ukrainian");
}

#[test]
fn a_collection_is_read_from_an_object() {
    let json = Json::Object(vec![
        ("id".to_string(), Json::Text("docs-1".to_string())),
        ("document_count".to_string(), Json::Number("007".to_string())),
        (
            "fields".to_string(),
            Json::Object(vec![
                (
                    "t".to_string(),
                    FieldType::Scalar {
                        Scalar: ScalarType::String,
                    }
                    .to_json(),
                ),
                (
                    "t".to_string(),
                    FieldType::Scalar {
                        Scalar: ScalarType::Number,
                    }
                    .to_json(),
                ),
            ]),
        ),
        ("id".to_string(), Json::Text("docs-2".to_string())),
    ]);
    let collection = ExistingCollection::from_json(&json).unwrap();
    assert_eq!(collection.id, "docs-2");
    assert_eq!(collection.description, None);
    assert_eq!(collection.document_count, 7);
    assert_eq!(collection.fields.len(), 1);
    assert_eq!(
        collection.fields.get("t"),
        Some(FieldType::Scalar {
            Scalar: ScalarType::Number
        })
    );
}

#[test]
fn a_count_beyond_the_machine_word_is_refused() {
    let json = Json::Object(vec![
        ("id".to_string(), Json::Text("docs-1".to_string())),
        (
            "document_count".to_string(),
            Json::Number("340282366920938463463374607431768211456".to_string()),
        ),
        ("fields".to_string(), Json::Object(vec![])),
    ]);
    assert_eq!(
        ExistingCollection::from_json(&json).unwrap_err(),
        OramaError::Serialization(SerializationIssue::SchemaMismatch)
    );
    assert_eq!(
        collections_from_json(&Json::Array(vec![json])).unwrap_err(),
        OramaError::Serialization(SerializationIssue::SchemaMismatch)
    );
    assert_eq!(
        collections_from_json(&Json::Null).unwrap_err(),
        OramaError::Serialization(SerializationIssue::SchemaMismatch)
    );
    assert!(collections_from_json(&Json::Array(vec![])).unwrap().is_empty());
}
