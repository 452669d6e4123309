use crate::error::{OramaError, SerializationIssue};
use crate::fields::FieldMap;
use crate::internal::embeddings::EmbeddingModel;
use crate::internal::nlp::Language;
use crate::internal::utils::gen_random_string;
use crate::json::{json_parse, json_text, Json};
use crate::text::all_alphanumeric;
use crate::transport::{is_success, request_is, Method, Reply, Request, RequestView};
use crate::wire::{
    collection_views, collections_from_json, decoded_collection, decoded_collections,
    CollectionView,
};
use vstd::prelude::*;
use vstd::string::StringExecFns;

verus! {

/// The length of the API keys that are generated where the caller gives none.
pub const RAND_API_KEY_LENGTH: usize = 32;

/// The administrative side of the service: creates, lists, inspects and
/// deletes collections, authorised by the master API key. It holds no state
/// but its configuration.
#[derive(Debug, Clone)]
pub struct OramaCoreManager {
    url: String,
    master_api_key: String,
}

/// What a new collection is created with.
#[derive(Debug, Clone)]
pub struct NewCollectionParams {
    pub id: String,
    pub description: Option<String>,
    pub write_api_key: String,
    pub read_api_key: String,
    pub language: Option<Language>,
    pub embeddings: Option<EmbeddingsConfig>,
}

/// How the documents of a collection are embedded.
#[derive(Debug, Clone)]
pub struct EmbeddingsConfig {
    pub model: Option<EmbeddingModel>,
    pub document_fields: Option<Vec<String>>,
}

impl NewCollectionParams {
    /// Parameters with the two API keys given, an empty id, no description,
    /// the service's default language and no embeddings: the starting point
    /// that `default` fills with generated keys.
    pub fn with_keys(write_api_key: String, read_api_key: String) -> (params: NewCollectionParams)
        ensures
            params.id@.len() == 0,
            params.description is None,
            params.write_api_key == write_api_key,
            params.read_api_key == read_api_key,
            params.language == Some(Language::spec_service_default()),
            params.embeddings is None,
    {
        NewCollectionParams {
            id: String::new(),
            description: None,
            write_api_key,
            read_api_key,
            embeddings: None,
            language: Some(Language::service_default()),
        }
    }
}

impl Default for NewCollectionParams {
    /// Parameters with an empty id, two freshly generated API keys of
    /// `RAND_API_KEY_LENGTH` alphanumeric characters each, and the service's
    /// default language.
    fn default() -> (params: NewCollectionParams)
        ensures
            params.id@.len() == 0,
            params.description is None,
            params.write_api_key@.len() == RAND_API_KEY_LENGTH,
            all_alphanumeric(params.write_api_key@),
            params.read_api_key@.len() == RAND_API_KEY_LENGTH,
            all_alphanumeric(params.read_api_key@),
            params.language == Some(Language::spec_service_default()),
            params.embeddings is None,
    {
        let write_api_key = gen_random_string(RAND_API_KEY_LENGTH);
        let read_api_key = gen_random_string(RAND_API_KEY_LENGTH);
        NewCollectionParams::with_keys(write_api_key, read_api_key)
    }
}

/// The acknowledgment of a created collection: the id, description and keys
/// that the request carried.
#[derive(Debug, Clone)]
pub struct NewCollectionResponse {
    pub id: String,
    pub description: Option<String>,
    pub write_api_key: String,
    pub read_api_key: String,
}

/// The type of one field of a collection's documents.
#[allow(non_snake_case)]
#[derive(Debug, Clone, Copy, PartialEq, Eq, Structural)]
pub enum FieldType {
    Scalar { Scalar: ScalarType },
    Complex { Complex: ComplexType },
}

#[derive(Debug, Clone, Copy, PartialEq, Eq, Structural)]
pub enum ScalarType {
    String,
    Number,
}

#[derive(Debug, Clone, Copy, PartialEq, Eq, Structural)]
pub enum ComplexType {
    Embedding,
}

/// The state of a collection as the service reports it.
#[derive(Debug, Clone)]
pub struct ExistingCollection {
    pub id: String,
    pub description: Option<String>,
    pub document_count: usize,
    pub fields: FieldMap,
}

/// The mathematical value of an `OramaCoreManager`.
pub struct ManagerView {
    pub url: Seq<char>,
    pub master_api_key: Seq<char>,
}

impl View for OramaCoreManager {
    type V = ManagerView;

    closed spec fn view(&self) -> ManagerView {
        ManagerView { url: self.url@, master_api_key: self.master_api_key@ }
    }
}

/// Whether an outcome is the expected one: the same error, or a collection
/// of the expected value.
pub open spec fn collection_is(
    res: Result<ExistingCollection, OramaError>,
    expected: Result<CollectionView, OramaError>,
) -> bool {
    match expected {
        Ok(collection) => res is Ok && res->Ok_0@ == collection,
        Err(error) => res == Err::<ExistingCollection, OramaError>(error),
    }
}

/// Whether an outcome is the expected one: the same error, or collections
/// of the expected values, in the same order.
pub open spec fn collections_are(
    res: Result<Vec<ExistingCollection>, OramaError>,
    expected: Result<Seq<CollectionView>, OramaError>,
) -> bool {
    match expected {
        Ok(collections) => res is Ok && collection_views(res->Ok_0@) == collections,
        Err(error) => res == Err::<Vec<ExistingCollection>, OramaError>(error),
    }
}

impl OramaCoreManager {
    /// A manager for the service at `url`, authorised by `master_api_key`.
    pub fn new(url: String, master_api_key: String) -> (manager: OramaCoreManager)
        ensures
            manager@.url == url@,
            manager@.master_api_key == master_api_key@,
    {
        OramaCoreManager { url, master_api_key }
    }

    /// The `Authorization` header of every request of a manager: the master
    /// key after `Bearer `.
    pub open spec fn spec_authorization(&self) -> Seq<char> {
        "Bearer "@ + self@.master_api_key
    }

    /// A request to `path` below the manager's URL, with the manager's
    /// `Authorization` header.
    fn request(&self, method: Method, path: String, body: Option<String>) -> (request: Request)
        ensures
            request.method == method,
            request.url@ == self@.url + path@,
            request.authorization@ == self.spec_authorization(),
            request.body == body,
    {
        Request {
            method,
            url: self.url.clone().concat(path.as_str()),
            authorization: String::from_str("Bearer ").concat(self.master_api_key.as_str()),
            body,
        }
    }

    /// The request that creates a collection, or the error that stands in
    /// its way: `Validation` where the id is empty, `Encoding` where the
    /// parameters cannot be written as JSON text.
    pub open spec fn spec_create_collection_request(
        &self,
        params: NewCollectionParams,
    ) -> Result<RequestView, OramaError> {
        if params.id@.len() == 0 {
            Err(OramaError::Validation)
        } else {
            match json_text(params.payload()) {
                Some(body) => Ok(
                    RequestView {
                        method: Method::Post,
                        url: self@.url + "/v1/collections/create"@,
                        authorization: self.spec_authorization(),
                        body: Some(body),
                    },
                ),
                None => Err(OramaError::Serialization(SerializationIssue::Encoding)),
            }
        }
    }

    /// What creating a collection comes to, given the transport's reply:
    /// the reply's error, or else the id, description and keys of the
    /// request. The body of a successful reply is not read.
    pub open spec fn spec_create_collection_outcome(
        params: NewCollectionParams,
        reply: Reply,
    ) -> Result<NewCollectionResponse, OramaError> {
        match reply.spec_body() {
            Ok(_) => Ok(
                NewCollectionResponse {
                    id: params.id,
                    description: params.description,
                    write_api_key: params.write_api_key,
                    read_api_key: params.read_api_key,
                },
            ),
            Err(error) => Err(error),
        }
    }

    /// Builds the request that creates a collection. With an empty id
    /// there is no request: the error is `Validation`, and nothing is to be
    /// sent.
    pub fn create_collection_request(&self, params: &NewCollectionParams) -> (res: Result<
        Request,
        OramaError,
    >)
        ensures
            request_is(res, self.spec_create_collection_request(*params)),
    {
        if params.id.as_str().is_empty() {
            return Err(OramaError::Validation);
        }
        let body = params.to_json().to_text()?;
        Ok(self.request(Method::Post, String::from_str("/v1/collections/create"), Some(body)))
    }

    /// Reads the reply to a request that creates a collection.
    pub fn create_collection_outcome(params: NewCollectionParams, reply: Reply) -> (res: Result<
        NewCollectionResponse,
        OramaError,
    >)
        ensures
            res == OramaCoreManager::spec_create_collection_outcome(params, reply),
    {
        match reply.body() {
            Ok(_) => Ok(
                NewCollectionResponse {
                    id: params.id,
                    description: params.description,
                    write_api_key: params.write_api_key,
                    read_api_key: params.read_api_key,
                },
            ),
            Err(error) => Err(error),
        }
    }

    /// Creates a collection: builds the request, has `transport` send it,
    /// and reads the reply. The transport is called once, or not at all
    /// where there is no request to send.
    pub fn create_collection<T: FnOnce(Request) -> Reply>(
        &self,
        params: NewCollectionParams,
        transport: T,
    ) -> (res: Result<NewCollectionResponse, OramaError>)
        requires
            forall|request: Request| call_requires(transport, (request,)),
        ensures
            match self.spec_create_collection_request(params) {
                Ok(expected) => exists|request: Request, reply: Reply|
                    request@ == expected && #[trigger] call_ensures(transport, (request,), reply)
                        && res == OramaCoreManager::spec_create_collection_outcome(params, reply),
                Err(error) => res == Err::<NewCollectionResponse, OramaError>(error),
            },
    {
        let request = self.create_collection_request(&params)?;
        let ghost sent = request;
        let reply = transport(request);
        let ghost got = reply;
        let res = OramaCoreManager::create_collection_outcome(params, reply);
        assert(call_ensures(transport, (sent,), got));
        res
    }

    /// The request that lists the collections.
    pub open spec fn spec_list_collections_request(&self) -> RequestView {
        RequestView {
            method: Method::Get,
            url: self@.url + "/v1/collections"@,
            authorization: self.spec_authorization(),
            body: None,
        }
    }

    /// What listing the collections comes to, given the transport's reply:
    /// the reply's error; `MalformedJson` where the body is not JSON;
    /// `SchemaMismatch` where it is not an array of collections; or else
    /// the collections, in the order of the array.
    pub open spec fn spec_list_collections_outcome(reply: Reply) -> Result<
        Seq<CollectionView>,
        OramaError,
    > {
        match reply.spec_body() {
            Ok(body) => match json_parse(body@) {
                Some(value) => match decoded_collections(value) {
                    Some(collections) => Ok(collections),
                    None => Err(OramaError::Serialization(SerializationIssue::SchemaMismatch)),
                },
                None => Err(OramaError::Serialization(SerializationIssue::MalformedJson)),
            },
            Err(error) => Err(error),
        }
    }

    /// Builds the request that lists the collections.
    pub fn list_collections_request(&self) -> (request: Request)
        ensures
            request@ == self.spec_list_collections_request(),
    {
        self.request(Method::Get, String::from_str("/v1/collections"), None)
    }

    /// Reads the reply to a request that lists the collections.
    pub fn list_collections_outcome(reply: Reply) -> (res: Result<
        Vec<ExistingCollection>,
        OramaError,
    >)
        ensures
            collections_are(res, OramaCoreManager::spec_list_collections_outcome(reply)),
    {
        let body = reply.body()?;
        let json = Json::from_text(body.as_str())?;
        collections_from_json(&json)
    }

    /// Lists the collections, in the order in which the service gives them:
    /// builds the request, has `transport` send it, and reads the reply.
    pub fn list_collections<T: FnOnce(Request) -> Reply>(
        &self,
        transport: T,
    ) -> (res: Result<Vec<ExistingCollection>, OramaError>)
        requires
            forall|request: Request| call_requires(transport, (request,)),
        ensures
            exists|request: Request, reply: Reply|
                request@ == self.spec_list_collections_request() && #[trigger] call_ensures(
                    transport,
                    (request,),
                    reply,
                ) && collections_are(res, OramaCoreManager::spec_list_collections_outcome(reply)),
    {
        let request = self.list_collections_request();
        let ghost sent = request;
        let reply = transport(request);
        let ghost got = reply;
        let res = OramaCoreManager::list_collections_outcome(reply);
        assert(call_ensures(transport, (sent,), got));
        res
    }

    /// The request that fetches the collection `id`.
    pub open spec fn spec_get_collection_request(&self, id: Seq<char>) -> RequestView {
        RequestView {
            method: Method::Get,
            url: self@.url + "/v1/collections/"@ + id,
            authorization: self.spec_authorization(),
            body: None,
        }
    }

    /// What fetching a collection comes to, given the transport's reply:
    /// the reply's error; `MalformedJson` where the body is not JSON;
    /// `SchemaMismatch` where it is not a collection; or else the collection.
    pub open spec fn spec_get_collection_outcome(reply: Reply) -> Result<
        CollectionView,
        OramaError,
    > {
        match reply.spec_body() {
            Ok(body) => match json_parse(body@) {
                Some(value) => match decoded_collection(value) {
                    Some(collection) => Ok(collection),
                    None => Err(OramaError::Serialization(SerializationIssue::SchemaMismatch)),
                },
                None => Err(OramaError::Serialization(SerializationIssue::MalformedJson)),
            },
            Err(error) => Err(error),
        }
    }

    /// Builds the request that fetches the collection `id`. The id goes
    /// into the URL as it is.
    pub fn get_collection_request(&self, id: &str) -> (request: Request)
        ensures
            request@ == self.spec_get_collection_request(id@),
    {
        let request = self.request(
            Method::Get,
            String::from_str("/v1/collections/").concat(id),
            None,
        );
        assert(request.url@ =~= self@.url + "/v1/collections/"@ + id@);
        request
    }

    /// Reads the reply to a request that fetches a collection.
    pub fn get_collection_outcome(reply: Reply) -> (res: Result<ExistingCollection, OramaError>)
        ensures
            collection_is(res, OramaCoreManager::spec_get_collection_outcome(reply)),
    {
        let body = reply.body()?;
        let json = Json::from_text(body.as_str())?;
        ExistingCollection::from_json(&json)
    }

    /// Fetches the collection `id`: builds the request, has `transport`
    /// send it, and reads the reply. Whether there is such a collection is
    /// for the service to say.
    pub fn get_collection<T: FnOnce(Request) -> Reply>(
        &self,
        id: String,
        transport: T,
    ) -> (res: Result<ExistingCollection, OramaError>)
        requires
            forall|request: Request| call_requires(transport, (request,)),
        ensures
            exists|request: Request, reply: Reply|
                request@ == self.spec_get_collection_request(id@) && #[trigger] call_ensures(
                    transport,
                    (request,),
                    reply,
                ) && collection_is(res, OramaCoreManager::spec_get_collection_outcome(reply)),
    {
        let request = self.get_collection_request(id.as_str());
        let ghost sent = request;
        let reply = transport(request);
        let ghost got = reply;
        let res = OramaCoreManager::get_collection_outcome(reply);
        assert(call_ensures(transport, (sent,), got));
        res
    }

    /// The request that deletes the collection `id`.
    pub open spec fn spec_delete_collection_request(&self, id: Seq<char>) -> RequestView {
        RequestView {
            method: Method::Post,
            url: self@.url + "/v1/collections/"@ + id + "/delete"@,
            authorization: self.spec_authorization(),
            body: None,
        }
    }

    /// What deleting a collection comes to, given the transport's reply:
    /// the reply's error, or else success.
    pub open spec fn spec_delete_collection_outcome(reply: Reply) -> Result<(), OramaError> {
        match reply.spec_body() {
            Ok(_) => Ok(()),
            Err(error) => Err(error),
        }
    }

    /// Builds the request that deletes the collection `id`. The id goes
    /// into the URL as it is.
    pub fn delete_collection_request(&self, id: &str) -> (request: Request)
        ensures
            request@ == self.spec_delete_collection_request(id@),
    {
        let request = self.request(
            Method::Post,
            String::from_str("/v1/collections/").concat(id).concat("/delete"),
            None,
        );
        assert(request.url@ =~= self@.url + "/v1/collections/"@ + id@ + "/delete"@);
        request
    }

    /// Reads the reply to a request that deletes a collection.
    pub fn delete_collection_outcome(reply: Reply) -> (res: Result<(), OramaError>)
        ensures
            res == OramaCoreManager::spec_delete_collection_outcome(reply),
    {
        match reply.body() {
            Ok(_) => Ok(()),
            Err(error) => Err(error),
        }
    }

    /// Deletes the collection `id`: builds the request, has `transport`
    /// send it, and reads the reply. Whether there was such a collection is
    /// for the service to say.
    pub fn delete_collection<T: FnOnce(Request) -> Reply>(
        &self,
        id: String,
        transport: T,
    ) -> (res: Result<(), OramaError>)
        requires
            forall|request: Request| call_requires(transport, (request,)),
        ensures
            exists|request: Request, reply: Reply|
                request@ == self.spec_delete_collection_request(id@) && #[trigger] call_ensures(
                    transport,
                    (request,),
                    reply,
                ) && res == OramaCoreManager::spec_delete_collection_outcome(reply),
    {
        let request = self.delete_collection_request(id.as_str());
        let ghost sent = request;
        let reply = transport(request);
        let ghost got = reply;
        let res = OramaCoreManager::delete_collection_outcome(reply);
        assert(call_ensures(transport, (sent,), got));
        res
    }
}

/// A collection with an empty id is never created: there is no request to
/// send, whatever the manager and the other parameters are, and the error
/// is `Validation`.
pub proof fn lemma_empty_id_is_refused(manager: OramaCoreManager, params: NewCollectionParams)
    requires
        params.id@.len() == 0,
    ensures
        manager.spec_create_collection_request(params) == Err::<RequestView, OramaError>(
            OramaError::Validation,
        ),
{
}

/// Where the service reports success, the acknowledgment holds the id,
/// description and keys of the request, whatever the body of the reply is.
pub proof fn lemma_acknowledgment_echoes_request(
    params: NewCollectionParams,
    status: u16,
    body: String,
)
    requires
        is_success(status),
    ensures
        OramaCoreManager::spec_create_collection_outcome(
            params,
            Reply::Response { status, body },
        ) == Ok::<NewCollectionResponse, OramaError>(
            NewCollectionResponse {
                id: params.id,
                description: params.description,
                write_api_key: params.write_api_key,
                read_api_key: params.read_api_key,
            },
        ),
{
}

} // verus!
