use crate::error::{OramaError, SerializationIssue};
use crate::fields::FieldMap;
use crate::internal::nlp::Language;
use crate::json::{lookup, Json, JsonView};
use crate::manager::{
    ComplexType, EmbeddingsConfig, ExistingCollection, FieldType, NewCollectionParams, ScalarType,
};
use crate::text::{opt_view, parse_count, same_text, spec_parse_count};
use vstd::prelude::*;
use vstd::string::StringExecFns;

verus! {

/// A JSON string, or `null` where there is no text.
pub open spec fn text_or_null(value: Option<String>) -> JsonView {
    match value {
        Some(text) => JsonView::Text(text@),
        None => JsonView::Null,
    }
}

/// The JSON array of the strings in `items`.
pub open spec fn text_array(items: Seq<String>) -> JsonView {
    JsonView::Array(Seq::new(items.len(), |i: int| JsonView::Text(items[i]@)))
}

/// The JSON array of objects that stands for a list of documents: each
/// document's fields as one object, in the order given.
pub open spec fn documents_payload(documents: Seq<Vec<(String, Json)>>) -> JsonView {
    JsonView::Array(
        Seq::new(documents.len(), |i: int| JsonView::Object(Json::member_models(documents[i]@))),
    )
}

/// Builds the JSON array of objects that stands for a list of documents.
pub fn documents_to_json(documents: Vec<Vec<(String, Json)>>) -> (json: Json)
    ensures
        json@ == documents_payload(documents@),
{
    let ghost all = documents@;
    let mut items: Vec<Json> = Vec::new();
    for document in iter: documents
        invariant
            iter.seq() == all,
            items@.len() == iter.index(),
            forall|k: int| 0 <= k < items@.len() ==> #[trigger] items@[k] == Json::Object(all[k]),
    {
        items.push(Json::Object(document));
    }
    proof {
        Json::lemma_models(items@);
        assert(Json::models(items@) =~= documents_payload(all)->Array_0);
    }
    Json::Array(items)
}

/// A JSON string that holds `text`.
pub fn json_string(text: &str) -> (json: Json)
    ensures
        json@ == JsonView::Text(text@),
{
    Json::Text(String::from_str(text))
}

/// The JSON array of the strings in `items`.
pub fn strings_to_json(items: &Vec<String>) -> (json: Json)
    ensures
        json@ == text_array(items@),
{
    let mut values: Vec<Json> = Vec::new();
    let mut i: usize = 0;
    while i < items.len()
        invariant
            i <= items.len(),
            values@.len() == i,
            forall|k: int| 0 <= k < i ==> (#[trigger] values@[k]).model() == JsonView::Text(items@[k]@),
        decreases items.len() - i,
    {
        values.push(Json::Text(items[i].clone()));
        i = i + 1;
    }
    proof {
        Json::lemma_models(values@);
        assert(Json::models(values@) =~= Seq::new(items@.len(), |i: int| JsonView::Text(items@[i]@)));
    }
    Json::Array(values)
}

impl EmbeddingsConfig {
    /// The JSON object that stands for the configuration on the wire:
    /// `model` and `document_fields`, each `null` where it is not set.
    pub open spec fn payload(&self) -> JsonView {
        JsonView::Object(
            seq![
                (
                    "model"@,
                    match self.model {
                        Some(model) => JsonView::Text(model.spec_wire_name()),
                        None => JsonView::Null,
                    },
                ),
                (
                    "document_fields"@,
                    match self.document_fields {
                        Some(fields) => text_array(fields@),
                        None => JsonView::Null,
                    },
                ),
            ],
        )
    }

    /// Builds the JSON object that stands for the configuration on the wire.
    pub fn to_json(&self) -> (json: Json)
        ensures
            json@ == self.payload(),
    {
        let model = match &self.model {
            Some(model) => json_string(model.wire_name()),
            None => Json::Null,
        };
        let document_fields = match &self.document_fields {
            Some(fields) => strings_to_json(fields),
            None => Json::Null,
        };
        let mut members: Vec<(String, Json)> = Vec::new();
        members.push((String::from_str("model"), model));
        members.push((String::from_str("document_fields"), document_fields));
        proof {
            Json::lemma_member_models(members@);
            assert(Json::member_models(members@) =~= self.payload()->Object_0);
        }
        Json::Object(members)
    }
}

impl NewCollectionParams {
    /// The language that the collection is created with: the one given, or
    /// the service's default where none is given.
    pub open spec fn effective_language(&self) -> Language {
        match self.language {
            Some(language) => language,
            None => Language::spec_service_default(),
        }
    }

    /// The JSON object that stands for the parameters on the wire: `id`,
    /// `description`, `write_api_key`, `read_api_key`, `language` and
    /// `embeddings`, in this order. A description or an embeddings
    /// configuration that is not set is `null`; the language is always there.
    pub open spec fn payload(&self) -> JsonView {
        JsonView::Object(
            seq![
                ("id"@, JsonView::Text(self.id@)),
                ("description"@, text_or_null(self.description)),
                ("write_api_key"@, JsonView::Text(self.write_api_key@)),
                ("read_api_key"@, JsonView::Text(self.read_api_key@)),
                ("language"@, JsonView::Text(self.effective_language().spec_wire_name())),
                (
                    "embeddings"@,
                    match self.embeddings {
                        Some(embeddings) => embeddings.payload(),
                        None => JsonView::Null,
                    },
                ),
            ],
        )
    }

    /// Builds the JSON object that stands for the parameters on the wire.
    pub fn to_json(&self) -> (json: Json)
        ensures
            json@ == self.payload(),
    {
        let description = match &self.description {
            Some(text) => Json::Text(text.clone()),
            None => Json::Null,
        };
        let language = match &self.language {
            Some(language) => json_string(language.wire_name()),
            None => json_string(Language::service_default().wire_name()),
        };
        let embeddings = match &self.embeddings {
            Some(embeddings) => embeddings.to_json(),
            None => Json::Null,
        };
        let mut members: Vec<(String, Json)> = Vec::new();
        members.push((String::from_str("id"), Json::Text(self.id.clone())));
        members.push((String::from_str("description"), description));
        members.push((String::from_str("write_api_key"), Json::Text(self.write_api_key.clone())));
        members.push((String::from_str("read_api_key"), Json::Text(self.read_api_key.clone())));
        members.push((String::from_str("language"), language));
        members.push((String::from_str("embeddings"), embeddings));
        proof {
            Json::lemma_member_models(members@);
            assert(Json::member_models(members@) =~= self.payload()->Object_0);
        }
        Json::Object(members)
    }
}

/// A collection created without a language is created in the service's
/// default language: the payload's `language` member names it.
pub proof fn lemma_language_defaults(params: NewCollectionParams)
    requires
        params.language is None,
    ensures
        params.payload().member("language"@) == Some(
            JsonView::Text(Language::spec_service_default().spec_wire_name()),
        ),
{
    lemma_payload_language(params);
}

/// The payload's `language` member is the name of the effective language,
/// whether the caller chose one or not.
pub proof fn lemma_payload_language(params: NewCollectionParams)
    ensures
        params.payload().member("language"@) == Some(
            JsonView::Text(params.effective_language().spec_wire_name()),
        ),
{
    reveal_strlit("language");
    reveal_strlit("embeddings");
    let members = params.payload()->Object_0;
    assert(members.last().0 == "embeddings"@);
    assert("embeddings"@.len() != "language"@.len());
    assert(members.drop_last().last().0 == "language"@);
    reveal_with_fuel(lookup, 3);
}

impl FieldType {
    /// The JSON object that stands for a field type on the wire: one member,
    /// named by the variant, whose value names the kind.
    pub open spec fn payload(self) -> JsonView {
        match self {
            FieldType::Scalar { Scalar: ScalarType::String } => JsonView::Object(
                seq![("Scalar"@, JsonView::Text("string"@))],
            ),
            FieldType::Scalar { Scalar: ScalarType::Number } => JsonView::Object(
                seq![("Scalar"@, JsonView::Text("number"@))],
            ),
            FieldType::Complex { Complex: ComplexType::Embedding } => JsonView::Object(
                seq![("Complex"@, JsonView::Text("embedding"@))],
            ),
        }
    }

    /// The field type that a JSON value stands for: an object of exactly one
    /// member, `Scalar` with `"string"` or `"number"`, or `Complex` with
    /// `"embedding"`. Any other value stands for none.
    pub open spec fn decoded(value: JsonView) -> Option<FieldType> {
        match value {
            JsonView::Object(members) => if members.len() == 1 {
                match members[0].1 {
                    JsonView::Text(kind) => if members[0].0 == "Scalar"@ {
                        if kind == "string"@ {
                            Some(FieldType::Scalar { Scalar: ScalarType::String })
                        } else if kind == "number"@ {
                            Some(FieldType::Scalar { Scalar: ScalarType::Number })
                        } else {
                            None
                        }
                    } else if members[0].0 == "Complex"@ {
                        if kind == "embedding"@ {
                            Some(FieldType::Complex { Complex: ComplexType::Embedding })
                        } else {
                            None
                        }
                    } else {
                        None
                    },
                    _ => None,
                }
            } else {
                None
            },
            _ => None,
        }
    }

    /// Builds the JSON object that stands for the field type on the wire.
    pub fn to_json(&self) -> (json: Json)
        ensures
            json@ == self.payload(),
    {
        let (tag, kind) = match self {
            FieldType::Scalar { Scalar: ScalarType::String } => ("Scalar", "string"),
            FieldType::Scalar { Scalar: ScalarType::Number } => ("Scalar", "number"),
            FieldType::Complex { Complex: ComplexType::Embedding } => ("Complex", "embedding"),
        };
        let mut members: Vec<(String, Json)> = Vec::new();
        members.push((String::from_str(tag), json_string(kind)));
        proof {
            Json::lemma_member_models(members@);
            assert(Json::member_models(members@) =~= self.payload()->Object_0);
        }
        Json::Object(members)
    }

    /// Reads a field type from the JSON value that stands for it.
    pub fn from_json(json: &Json) -> (res: Option<FieldType>)
        ensures
            res == FieldType::decoded(json@),
    {
        match json {
            Json::Object(members) => {
                proof {
                    Json::lemma_member_models(members@);
                }
                if members.len() != 1 {
                    return None;
                }
                match &members[0].1 {
                    Json::Text(kind) => {
                        if same_text(members[0].0.as_str(), "Scalar") {
                            if same_text(kind.as_str(), "string") {
                                Some(FieldType::Scalar { Scalar: ScalarType::String })
                            } else if same_text(kind.as_str(), "number") {
                                Some(FieldType::Scalar { Scalar: ScalarType::Number })
                            } else {
                                None
                            }
                        } else if same_text(members[0].0.as_str(), "Complex") {
                            if same_text(kind.as_str(), "embedding") {
                                Some(FieldType::Complex { Complex: ComplexType::Embedding })
                            } else {
                                None
                            }
                        } else {
                            None
                        }
                    },
                    _ => None,
                }
            },
            _ => None,
        }
    }
}

/// Writing a field type and reading it back gives the same field type.
pub proof fn lemma_field_type_round_trip(field_type: FieldType)
    ensures
        FieldType::decoded(field_type.payload()) == Some(field_type),
{
    reveal_strlit("Scalar");
    reveal_strlit("Complex");
    reveal_strlit("string");
    reveal_strlit("number");
    assert("Scalar"@.len() != "Complex"@.len());
    assert("string"@[0] != "number"@[0]);
}

/// A JSON value that reads as a field type is exactly what that field type
/// is written as: reading and writing again changes nothing.
pub proof fn lemma_field_type_canonical(value: JsonView, field_type: FieldType)
    requires
        FieldType::decoded(value) == Some(field_type),
    ensures
        field_type.payload() == value,
{
    reveal_strlit("Scalar");
    reveal_strlit("Complex");
    reveal_strlit("string");
    reveal_strlit("number");
    assert("Scalar"@.len() != "Complex"@.len());
    assert("string"@[0] != "number"@[0]);
    let members = value->Object_0;
    assert(field_type.payload()->Object_0 =~= members);
}

/// The mathematical value of an `ExistingCollection`.
pub struct CollectionView {
    pub id: Seq<char>,
    pub description: Option<Seq<char>>,
    pub document_count: usize,
    pub fields: Map<Seq<char>, FieldType>,
}

impl View for ExistingCollection {
    type V = CollectionView;

    open spec fn view(&self) -> CollectionView {
        CollectionView {
            id: self.id@,
            description: opt_view(self.description),
            document_count: self.document_count,
            fields: self.fields@,
        }
    }
}

/// The values of a list of collections, one by one.
pub open spec fn collection_views(collections: Seq<ExistingCollection>) -> Seq<CollectionView> {
    Seq::new(collections.len(), |i: int| collections[i]@)
}

/// The id that the member `id` gives: it must be there, and a string.
pub open spec fn decoded_id(member: Option<JsonView>) -> Option<Seq<char>> {
    match member {
        Some(JsonView::Text(id)) => Some(id),
        _ => None,
    }
}

/// The description that the member `description` gives: none where the
/// member is missing or `null`, the text where it is a string. Any other
/// value is refused.
pub open spec fn decoded_description(member: Option<JsonView>) -> Option<Option<Seq<char>>> {
    match member {
        None => Some(None),
        Some(JsonView::Null) => Some(None),
        Some(JsonView::Text(text)) => Some(Some(text)),
        Some(_) => None,
    }
}

/// The count that the member `document_count` gives: it must be there, and
/// a number written in digits alone that a `usize` can hold.
pub open spec fn decoded_count(member: Option<JsonView>) -> Option<usize> {
    match member {
        Some(JsonView::Number(text)) => spec_parse_count(text),
        _ => None,
    }
}

/// The map from name to field type that a list of members gives, where
/// every member's value stands for a field type. A later member replaces
/// an earlier one of the same name.
pub open spec fn decoded_fields(members: Seq<(Seq<char>, JsonView)>) -> Option<
    Map<Seq<char>, FieldType>,
>
    decreases members.len(),
{
    if members.len() == 0 {
        Some(Map::empty())
    } else {
        match (decoded_fields(members.drop_last()), FieldType::decoded(members.last().1)) {
            (Some(fields), Some(field_type)) => Some(fields.insert(members.last().0, field_type)),
            _ => None,
        }
    }
}

/// The fields that the member `fields` gives: it must be there, and an
/// object whose members all stand for field types.
pub open spec fn decoded_field_map(member: Option<JsonView>) -> Option<Map<Seq<char>, FieldType>> {
    match member {
        Some(JsonView::Object(members)) => decoded_fields(members),
        _ => None,
    }
}

/// The collection that a JSON value stands for: an object with the members
/// `id`, `document_count` and `fields`, and perhaps `description`. Members
/// of other names are passed over.
pub open spec fn decoded_collection(value: JsonView) -> Option<CollectionView> {
    match (
        decoded_id(value.member("id"@)),
        decoded_description(value.member("description"@)),
        decoded_count(value.member("document_count"@)),
        decoded_field_map(value.member("fields"@)),
    ) {
        (Some(id), Some(description), Some(document_count), Some(fields)) => Some(
            CollectionView { id, description, document_count, fields },
        ),
        _ => None,
    }
}

/// The collections that a JSON value stands for: an array whose items all
/// stand for collections, in the array's order.
pub open spec fn decoded_collections(value: JsonView) -> Option<Seq<CollectionView>> {
    match value {
        JsonView::Array(items) => if forall|i: int|
            0 <= i < items.len() ==> (#[trigger] decoded_collection(items[i])) is Some {
            Some(Seq::new(items.len(), |i: int| decoded_collection(items[i])->Some_0))
        } else {
            None
        },
        _ => None,
    }
}

/// Where the members up to some place give no fields, neither do all of
/// them.
proof fn lemma_decoded_fields_prefix(members: Seq<(Seq<char>, JsonView)>, n: int)
    requires
        0 <= n <= members.len(),
        decoded_fields(members.take(n)) is None,
    ensures
        decoded_fields(members) is None,
    decreases members.len() - n,
{
    if n < members.len() {
        assert(members.take(n + 1).drop_last() =~= members.take(n));
        lemma_decoded_fields_prefix(members, n + 1);
    } else {
        assert(members.take(n) =~= members);
    }
}

/// Reads the member `fields` of a collection.
fn fields_from_json(member: Option<&Json>) -> (res: Option<FieldMap>)
    ensures
        match decoded_field_map(
            match member {
                Some(json) => Some(json@),
                None => None,
            },
        ) {
            Some(fields) => res is Some && res->Some_0@ == fields,
            None => res is None,
        },
{
    match member {
        Some(Json::Object(members)) => {
            proof {
                Json::lemma_member_models(members@);
            }
            let ghost all = Json::member_models(members@);
            let mut fields = FieldMap::new();
            let mut i: usize = 0;
            while i < members.len()
                invariant
                    i <= members.len(),
                    member is Some,
                    member->Some_0@ == JsonView::Object(all),
                    all == Json::member_models(members@),
                    all.len() == members@.len(),
                    forall|k: int|
                        0 <= k < members@.len() ==> #[trigger] all[k] == (
                            members@[k].0@,
                            members@[k].1.model(),
                        ),
                    decoded_fields(all.take(i as int)) == Some(fields@),
                decreases members.len() - i,
            {
                proof {
                    assert(all.take(i + 1).drop_last() =~= all.take(i as int));
                    assert(all.take(i + 1).last() == all[i as int]);
                }
                match FieldType::from_json(&members[i].1) {
                    Some(field_type) => {
                        fields.insert(members[i].0.clone(), field_type);
                    },
                    None => {
                        proof {
                            assert(all.take(i + 1).last().1 == members@[i as int].1@);
                            assert(decoded_fields(all.take(i + 1)) is None);
                            lemma_decoded_fields_prefix(all, i + 1);
                        }
                        return None;
                    },
                }
                i = i + 1;
            }
            proof {
                assert(all.take(i as int) =~= all);
            }
            Some(fields)
        },
        _ => None,
    }
}

impl ExistingCollection {
    /// Reads a collection from the JSON value that stands for it.
    /// `SchemaMismatch` where the value stands for none.
    pub fn from_json(json: &Json) -> (res: Result<ExistingCollection, OramaError>)
        ensures
            match decoded_collection(json@) {
                Some(collection) => res is Ok && res->Ok_0@ == collection,
                None => res == Err::<ExistingCollection, OramaError>(
                    OramaError::Serialization(SerializationIssue::SchemaMismatch),
                ),
            },
    {
        let id = match json.member("id") {
            Some(Json::Text(id)) => id.clone(),
            _ => {
                return Err(OramaError::Serialization(SerializationIssue::SchemaMismatch));
            },
        };
        let description = match json.member("description") {
            None => None,
            Some(Json::Null) => None,
            Some(Json::Text(text)) => Some(text.clone()),
            Some(_) => {
                return Err(OramaError::Serialization(SerializationIssue::SchemaMismatch));
            },
        };
        let document_count = match json.member("document_count") {
            Some(Json::Number(text)) => match parse_count(text.as_str()) {
                Some(count) => count,
                None => {
                    return Err(OramaError::Serialization(SerializationIssue::SchemaMismatch));
                },
            },
            _ => {
                return Err(OramaError::Serialization(SerializationIssue::SchemaMismatch));
            },
        };
        let fields = match fields_from_json(json.member("fields")) {
            Some(fields) => fields,
            None => {
                return Err(OramaError::Serialization(SerializationIssue::SchemaMismatch));
            },
        };
        Ok(ExistingCollection { id, description, document_count, fields })
    }
}

/// Reads a list of collections from the JSON array that stands for it, in
/// the array's order. `SchemaMismatch` where the value is no array, or one
/// of its items stands for no collection.
pub fn collections_from_json(json: &Json) -> (res: Result<Vec<ExistingCollection>, OramaError>)
    ensures
        match decoded_collections(json@) {
            Some(collections) => res is Ok && collection_views(res->Ok_0@) == collections,
            None => res == Err::<Vec<ExistingCollection>, OramaError>(
                OramaError::Serialization(SerializationIssue::SchemaMismatch),
            ),
        },
{
    match json {
        Json::Array(items) => {
            proof {
                Json::lemma_models(items@);
            }
            let mut collections: Vec<ExistingCollection> = Vec::new();
            let mut i: usize = 0;
            while i < items.len()
                invariant
                    i <= items.len(),
                    json@ == JsonView::Array(Json::models(items@)),
                    Json::models(items@).len() == items@.len(),
                    forall|k: int|
                        0 <= k < items@.len() ==> #[trigger] Json::models(items@)[k]
                            == items@[k].model(),
                    collections@.len() == i,
                    forall|k: int|
                        0 <= k < i ==> decoded_collection(items@[k].model()) == Some(
                            (#[trigger] collections@[k])@,
                        ),
                decreases items.len() - i,
            {
                match ExistingCollection::from_json(&items[i]) {
                    Ok(collection) => {
                        collections.push(collection);
                    },
                    Err(error) => {
                        assert(decoded_collection(Json::models(items@)[i as int]) is None);
                        return Err(error);
                    },
                }
                i = i + 1;
            }
            proof {
                let values = Json::models(items@);
                assert forall|k: int| 0 <= k < values.len() implies (#[trigger] decoded_collection(
                    values[k],
                )) is Some by {
                    assert(decoded_collection(items@[k].model()) == Some(collections@[k]@));
                }
                assert(collection_views(collections@) =~= decoded_collections(json@)->Some_0);
            }
            Ok(collections)
        },
        _ => Err(OramaError::Serialization(SerializationIssue::SchemaMismatch)),
    }
}

} // verus!
