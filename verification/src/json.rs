use crate::error::{OramaError, SerializationIssue};
use vstd::prelude::*;
use vstd::string::StringExecFns;

verus! {

/// A JSON value held as plain data. A number is kept as its text, so that
/// no precision is lost; an object is the list of its members in order.
#[derive(Debug, PartialEq, Eq)]
pub enum Json {
    Null,
    Bool(bool),
    Number(String),
    Text(String),
    Array(Vec<Json>),
    Object(Vec<(String, Json)>),
}

/// The mathematical value of a `Json`.
pub enum JsonView {
    Null,
    Bool(bool),
    Number(Seq<char>),
    Text(Seq<char>),
    Array(Seq<JsonView>),
    Object(Seq<(Seq<char>, JsonView)>),
}

impl Json {
    /// The value of a `Json`: the same tree, with each string and list
    /// replaced by the sequence that it holds.
    pub open spec fn model(&self) -> JsonView
        decreases self,
    {
        match self {
            Json::Null => JsonView::Null,
            Json::Bool(b) => JsonView::Bool(*b),
            Json::Number(n) => JsonView::Number(n@),
            Json::Text(s) => JsonView::Text(s@),
            Json::Array(items) => JsonView::Array(Json::models(items@)),
            Json::Object(members) => JsonView::Object(Json::member_models(members@)),
        }
    }

    /// The values of a list of `Json`, item by item.
    pub open spec fn models(items: Seq<Json>) -> Seq<JsonView>
        decreases items,
    {
        if items.len() == 0 {
            Seq::empty()
        } else {
            Json::models(items.drop_last()).push(items.last().model())
        }
    }

    /// The names and values of a list of members, member by member.
    pub open spec fn member_models(members: Seq<(String, Json)>) -> Seq<(Seq<char>, JsonView)>
        decreases members,
    {
        if members.len() == 0 {
            Seq::empty()
        } else {
            Json::member_models(members.drop_last()).push(
                (members.last().0@, members.last().1.model()),
            )
        }
    }

    /// `models` keeps the length and maps each item to its value.
    pub proof fn lemma_models(items: Seq<Json>)
        ensures
            Json::models(items).len() == items.len(),
            forall|i: int| 0 <= i < items.len() ==> Json::models(items)[i] == items[i].model(),
        decreases items.len(),
    {
        if items.len() > 0 {
            Json::lemma_models(items.drop_last());
        }
    }

    /// `member_models` keeps the length and maps each member to its name
    /// and value.
    pub proof fn lemma_member_models(members: Seq<(String, Json)>)
        ensures
            Json::member_models(members).len() == members.len(),
            forall|i: int|
                0 <= i < members.len() ==> Json::member_models(members)[i] == (
                    members[i].0@,
                    members[i].1.model(),
                ),
        decreases members.len(),
    {
        if members.len() > 0 {
            Json::lemma_member_models(members.drop_last());
        }
    }
}

impl View for Json {
    type V = JsonView;

    open spec fn view(&self) -> JsonView {
        self.model()
    }
}

/// The value that the last member named `key` has among `members`, if any.
/// A later member hides an earlier one of the same name.
pub open spec fn lookup(members: Seq<(Seq<char>, JsonView)>, key: Seq<char>) -> Option<JsonView>
    decreases members.len(),
{
    if members.len() == 0 {
        None
    } else if members.last().0 == key {
        Some(members.last().1)
    } else {
        lookup(members.drop_last(), key)
    }
}

impl JsonView {
    /// The member `key` of an object; `None` for anything but an object.
    pub open spec fn member(self, key: Seq<char>) -> Option<JsonView> {
        match self {
            JsonView::Object(members) => lookup(members, key),
            _ => None,
        }
    }
}

/// The JSON text that `serde_json::to_string` writes for a value, or `None`
/// where no text is written because a number in the value is not a JSON
/// number. This crate does not say what the text is: it is what
/// `serde_json` writes.
pub uninterp spec fn json_text(value: JsonView) -> Option<Seq<char>>;

/// The value that `serde_json::from_str` reads from a text, or `None` where
/// it refuses the text. This crate does not say what the value is: it is
/// what `serde_json` reads.
pub uninterp spec fn json_parse(text: Seq<char>) -> Option<JsonView>;

/// `serde_json::Error`, which `serde_json::to_string` and
/// `serde_json::from_str` fail with. Nothing is read from it.
#[verifier::external_type_specification]
#[verifier::external_body]
pub struct ExJsonError(serde_json::Error);

/// `serde_json::Value`, the form in which `serde_json` takes and hands out
/// a JSON value. It is built and taken apart in the two functions below and
/// nowhere else.
#[verifier::external_type_specification]
#[verifier::external_body]
pub struct ExJsonValue(serde_json::Value);

/// Rebuilds a `Json` as a `serde_json::Value`, variant by variant. A number
/// goes through `FromStr` of `serde_json::Number`, which fails on a text
/// that is not a JSON number; the members of an object are collected into
/// a `serde_json::Map`. Not verified, and nothing is claimed of the result.
#[verifier::external_body]
fn to_value(json: &Json) -> Result<serde_json::Value, serde_json::Error> {
    Ok(match json {
        Json::Null => serde_json::Value::Null,
        Json::Bool(b) => serde_json::Value::Bool(*b),
        Json::Number(n) => serde_json::Value::Number(n.parse()?),
        Json::Text(s) => serde_json::Value::String(s.clone()),
        Json::Array(items) => serde_json::Value::Array(
            items.iter().map(to_value).collect::<Result<_, _>>()?,
        ),
        Json::Object(members) => serde_json::Value::Object(
            members.iter().map(|m| Ok((m.0.clone(), to_value(&m.1)?))).collect::<
                Result<_, serde_json::Error>,
            >()?,
        ),
    })
}

/// Rebuilds a `serde_json::Value` as a `Json`, variant by variant. A number
/// becomes the text that `Display` of `serde_json::Number` writes; the
/// members of an object come in the order in which `serde_json::Map` hands
/// them out. Not verified, and nothing is claimed of the result.
#[verifier::external_body]
fn from_value(value: serde_json::Value) -> Json {
    match value {
        serde_json::Value::Null => Json::Null,
        serde_json::Value::Bool(b) => Json::Bool(b),
        serde_json::Value::Number(n) => Json::Number(n.to_string()),
        serde_json::Value::String(s) => Json::Text(s),
        serde_json::Value::Array(items) => Json::Array(items.into_iter().map(from_value).collect()),
        serde_json::Value::Object(members) => Json::Object(
            members.into_iter().map(|m| (m.0, from_value(m.1))).collect(),
        ),
    }
}

/// Calls `serde_json::to_string` on the `serde_json::Value` that `to_value`
/// builds. Not verified. The contract claims one thing of `serde_json`:
/// whether a text is written, and which, depends on the value alone. It
/// calls that text `json_text`.
#[verifier::external_body]
fn write_text(json: &Json) -> (res: Result<String, serde_json::Error>)
    ensures
        res is Ok <==> json_text(json@) is Some,
        res is Ok ==> res->Ok_0@ == json_text(json@)->Some_0,
{
    serde_json::to_string(&to_value(json)?)
}

/// Calls `serde_json::from_str` for a `serde_json::Value` and hands the
/// value on through `from_value`. Not verified. The contract claims one
/// thing of `serde_json`: whether a value is read, and which, depends on
/// the text alone. It calls that value `json_parse`.
#[verifier::external_body]
fn read_text(text: &str) -> (res: Result<Json, serde_json::Error>)
    ensures
        res is Ok <==> json_parse(text@) is Some,
        res is Ok ==> res->Ok_0@ == json_parse(text@)->Some_0,
{
    Ok(from_value(serde_json::from_str(text)?))
}

impl Json {
    /// Writes the value as JSON text. `Encoding` where there is no such
    /// text, because a number in the value is not a JSON number.
    pub fn to_text(&self) -> (res: Result<String, OramaError>)
        ensures
            match json_text(self@) {
                Some(text) => res is Ok && res->Ok_0@ == text,
                None => res == Err::<String, OramaError>(
                    OramaError::Serialization(SerializationIssue::Encoding),
                ),
            },
    {
        match write_text(self) {
            Ok(text) => Ok(text),
            Err(_) => Err(OramaError::Serialization(SerializationIssue::Encoding)),
        }
    }

    /// Reads a value from JSON text. `MalformedJson` where the text is not
    /// JSON.
    pub fn from_text(text: &str) -> (res: Result<Json, OramaError>)
        ensures
            match json_parse(text@) {
                Some(value) => res is Ok && res->Ok_0@ == value,
                None => res == Err::<Json, OramaError>(
                    OramaError::Serialization(SerializationIssue::MalformedJson),
                ),
            },
    {
        match read_text(text) {
            Ok(json) => Ok(json),
            Err(_) => Err(OramaError::Serialization(SerializationIssue::MalformedJson)),
        }
    }

    /// The member `key` of an object: the last one of that name.
    pub fn member(&self, key: &str) -> (res: Option<&Json>)
        ensures
            match self@.member(key@) {
                Some(value) => res is Some && res->Some_0@ == value,
                None => res is None,
            },
    {
        match self {
            Json::Object(members) => {
                let wanted = String::from_str(key);
                let mut i: usize = members.len();
                proof {
                    Json::lemma_member_models(members@);
                    assert(self@->Object_0.take(i as int) =~= self@->Object_0);
                }
                while i > 0
                    invariant
                        i <= members.len(),
                        wanted@ == key@,
                        self@ is Object,
                        self@->Object_0.len() == members.len(),
                        forall|k: int|
                            0 <= k < members.len() ==> #[trigger] self@->Object_0[k] == (
                                members[k].0@,
                                members[k].1@,
                            ),
                        lookup(self@->Object_0, key@) == lookup(
                            self@->Object_0.take(i as int),
                            key@,
                        ),
                    decreases i,
                {
                    i = i - 1;
                    proof {
                        let front = self@->Object_0.take(i + 1);
                        assert(front.drop_last() =~= self@->Object_0.take(i as int));
                    }
                    if members[i].0 == wanted {
                        return Some(&members[i].1);
                    }
                }
                None
            },
            _ => None,
        }
    }
}

} // verus!
