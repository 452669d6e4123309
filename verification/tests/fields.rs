use oramacore_client::fields::FieldMap;
use oramacore_client::manager::{ComplexType, FieldType, ScalarType};

const TEXT: FieldType = FieldType::Scalar {
    Scalar: ScalarType::String,
};
const NUMBER: FieldType = FieldType::Scalar {
    Scalar: ScalarType::Number,
};
const VECTOR: FieldType = FieldType::Complex {
    Complex: ComplexType::Embedding,
};

#[test]
fn a_new_field_map_is_empty() {
    let fields = FieldMap::new();
    assert_eq!(fields.len(), 0);
    assert_eq!(fields.get("title"), None);
    assert_eq!(fields.get(""), None);
}

#[test]
fn insert_adds_a_field_or_replaces_its_type() {
    let mut fields = FieldMap::new();
    assert_eq!(fields.insert("title".to_string(), TEXT), None);
    assert_eq!(fields.insert("price".to_string(), NUMBER), None);
    assert_eq!(fields.insert("vector".to_string(), VECTOR), None);
    assert_eq!(fields.len(), 3);
    assert_eq!(fields.get("title"), Some(TEXT));
    assert_eq!(fields.get("price"), Some(NUMBER));
    assert_eq!(fields.get("vector"), Some(VECTOR));
    assert_eq!(fields.get("Title"), None);

    assert_eq!(fields.insert("price".to_string(), TEXT), Some(NUMBER));
    assert_eq!(fields.len(), 3);
    assert_eq!(fields.get("price"), Some(TEXT));
    assert_eq!(fields.get("title"), Some(TEXT));
    assert_eq!(fields.insert("price".to_string(), TEXT), Some(TEXT));
    assert_eq!(fields.len(), 3);
    assert_eq!(fields.insert("".to_string(), VECTOR), None);
    assert_eq!(fields.get(""), Some(VECTOR));
    assert_eq!(fields.len(), 4);
}

#[test]
fn a_cloned_field_map_holds_the_same_fields() {
    let mut fields = FieldMap::new();
    fields.insert("title".to_string(), TEXT);
    fields.insert("price".to_string(), NUMBER);
    let mut copy = fields.clone();
    assert_eq!(copy.len(), 2);
    assert_eq!(copy.get("title"), Some(TEXT));
    assert_eq!(copy.get("price"), Some(NUMBER));
    copy.insert("title".to_string(), VECTOR);
    assert_eq!(fields.get("title"), Some(TEXT));
    assert_eq!(copy.get("title"), Some(VECTOR));
}
