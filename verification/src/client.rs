use crate::error::{ConfigIssue, OramaError, SerializationIssue};
use crate::json::{json_text, Json, JsonView};
use crate::text::opt_view;
use crate::transport::{is_success, request_is, Method, Reply, Request, RequestView};
use crate::wire::{documents_payload, documents_to_json, strings_to_json, text_array};
use vstd::prelude::*;
use vstd::string::StringExecFns;

verus! {

/// A document: its fields by name, in order. The service finds a document
/// again by its `id` field; this crate passes documents on as they are.
pub type OramaDocument = Vec<(String, Json)>;

/// The data side of the service: inserts and deletes the documents of one
/// collection at a time, authorised by that collection's write key.
pub struct OramaCoreClient {
    url: String,
    read_api_key: Option<String>,
    write_api_key: Option<String>,
    collection: Option<String>,
}

/// What a client is built from.
pub struct OramaCoreClientParams {
    pub url: String,
    pub read_api_key: Option<String>,
    pub write_api_key: Option<String>,
}

/// The mathematical value of an `OramaCoreClient`. `collection` is the
/// client's state: `None` while unbound, the collection's id once bound.
pub struct ClientView {
    pub url: Seq<char>,
    pub read_api_key: Option<Seq<char>>,
    pub write_api_key: Option<Seq<char>>,
    pub collection: Option<Seq<char>>,
}

impl View for OramaCoreClient {
    type V = ClientView;

    closed spec fn view(&self) -> ClientView {
        ClientView {
            url: self.url@,
            read_api_key: opt_view(self.read_api_key),
            write_api_key: opt_view(self.write_api_key),
            collection: opt_view(self.collection),
        }
    }
}

impl OramaCoreClient {
    /// A client for the service at `params.url`, with no collection bound.
    pub fn new(params: OramaCoreClientParams) -> (client: OramaCoreClient)
        ensures
            client@.url == params.url@,
            client@.read_api_key == opt_view(params.read_api_key),
            client@.write_api_key == opt_view(params.write_api_key),
            client@.collection is None,
    {
        let OramaCoreClientParams { url, read_api_key, write_api_key } = params;
        OramaCoreClient { url, read_api_key, write_api_key, collection: None }
    }

    /// The URL of the service.
    pub fn url(&self) -> (url: &String)
        ensures
            url@ == self@.url,
    {
        &self.url
    }

    /// The key that authorises reading, if the client has one.
    pub fn read_api_key(&self) -> (key: &Option<String>)
        ensures
            opt_view(*key) == self@.read_api_key,
    {
        &self.read_api_key
    }

    /// The key that authorises writing, if the client has one.
    pub fn write_api_key(&self) -> (key: &Option<String>)
        ensures
            opt_view(*key) == self@.write_api_key,
    {
        &self.write_api_key
    }

    /// The id of the collection that the client is bound to, if any.
    pub fn collection(&self) -> (collection: &Option<String>)
        ensures
            opt_view(*collection) == self@.collection,
    {
        &self.collection
    }

    /// Binds the client to the collection `collection_id`, whatever it was
    /// bound to before. Nothing is sent, and the id is not looked up.
    pub fn set_collection(&mut self, collection_id: String)
        ensures
            final(self)@.collection == Some(collection_id@),
            final(self)@.url == old(self)@.url,
            final(self)@.read_api_key == old(self)@.read_api_key,
            final(self)@.write_api_key == old(self)@.write_api_key,
    {
        self.collection = Some(collection_id);
    }

    /// The request that writes to the bound collection, or the error that
    /// stands in its way. The conditions are tried in this order:
    /// `NoCollection` where no collection is bound, `NoWriteKey` where the
    /// client has no write key, `Encoding` where the payload cannot be
    /// written as JSON text. `action` is the last part of the path. The
    /// `Authorization` header is the write key itself, with nothing before it.
    pub open spec fn spec_write_request(&self, action: Seq<char>, payload: JsonView) -> Result<
        RequestView,
        OramaError,
    > {
        match (self@.collection, self@.write_api_key) {
            (None, _) => Err(OramaError::Config(ConfigIssue::NoCollection)),
            (Some(_), None) => Err(OramaError::Config(ConfigIssue::NoWriteKey)),
            (Some(collection), Some(key)) => match json_text(payload) {
                Some(body) => Ok(
                    RequestView {
                        method: Method::Post,
                        url: self@.url + "/collections/"@ + collection + action,
                        authorization: key,
                        body: Some(body),
                    },
                ),
                None => Err(OramaError::Serialization(SerializationIssue::Encoding)),
            },
        }
    }

    /// The request that inserts `documents` into the bound collection, or
    /// the error that stands in its way.
    pub open spec fn spec_insert_request(&self, documents: Seq<OramaDocument>) -> Result<
        RequestView,
        OramaError,
    > {
        self.spec_write_request("/insert"@, documents_payload(documents))
    }

    /// The request that deletes the documents with the ids `document_ids`
    /// from the bound collection, or the error that stands in its way.
    pub open spec fn spec_delete_request(&self, document_ids: Seq<String>) -> Result<
        RequestView,
        OramaError,
    > {
        self.spec_write_request("/delete"@, text_array(document_ids))
    }

    /// What a write comes to, given the transport's reply: the reply's
    /// error, or else success. There is nothing in between.
    pub open spec fn spec_write_outcome(reply: Reply) -> Result<(), OramaError> {
        match reply.spec_body() {
            Ok(_) => Ok(()),
            Err(error) => Err(error),
        }
    }

    /// The error that keeps the client from writing, if there is one.
    fn check_writable(&self) -> (res: Result<(), OramaError>)
        ensures
            res == match (self@.collection, self@.write_api_key) {
                (None, _) => Err::<(), OramaError>(OramaError::Config(ConfigIssue::NoCollection)),
                (Some(_), None) => Err(OramaError::Config(ConfigIssue::NoWriteKey)),
                (Some(_), Some(_)) => Ok(()),
            },
    {
        if self.collection.is_none() {
            Err(OramaError::Config(ConfigIssue::NoCollection))
        } else if self.write_api_key.is_none() {
            Err(OramaError::Config(ConfigIssue::NoWriteKey))
        } else {
            Ok(())
        }
    }

    /// Builds the request that sends `payload` to the bound collection.
    fn write_request(&self, action: &str, payload: &Json) -> (res: Result<Request, OramaError>)
        ensures
            request_is(res, self.spec_write_request(action@, payload@)),
    {
        match (&self.collection, &self.write_api_key) {
            (None, _) => Err(OramaError::Config(ConfigIssue::NoCollection)),
            (Some(_), None) => Err(OramaError::Config(ConfigIssue::NoWriteKey)),
            (Some(collection), Some(key)) => {
                let body = payload.to_text()?;
                let url = self.url.clone().concat("/collections/").concat(
                    collection.as_str(),
                ).concat(action);
                Ok(
                    Request {
                        method: Method::Post,
                        url,
                        authorization: key.clone(),
                        body: Some(body),
                    },
                )
            },
        }
    }

    /// Builds the request that inserts `documents` into the bound
    /// collection. Where the client is unbound or has no write key there is
    /// no request, and nothing is to be sent.
    pub fn insert_request(&self, documents: Vec<OramaDocument>) -> (res: Result<
        Request,
        OramaError,
    >)
        ensures
            request_is(res, self.spec_insert_request(documents@)),
    {
        self.check_writable()?;
        let payload = documents_to_json(documents);
        self.write_request("/insert", &payload)
    }

    /// Builds the request that deletes the documents with the ids
    /// `document_ids` from the bound collection. Where the client is unbound
    /// or has no write key there is no request, and nothing is to be sent.
    pub fn delete_request(&self, document_ids: &Vec<String>) -> (res: Result<Request, OramaError>)
        ensures
            request_is(res, self.spec_delete_request(document_ids@)),
    {
        self.check_writable()?;
        let payload = strings_to_json(document_ids);
        self.write_request("/delete", &payload)
    }

    /// Reads the reply to a request that inserts or deletes documents.
    pub fn write_outcome(reply: Reply) -> (res: Result<(), OramaError>)
        ensures
            res == OramaCoreClient::spec_write_outcome(reply),
    {
        match reply.body() {
            Ok(_) => Ok(()),
            Err(error) => Err(error),
        }
    }

    /// Inserts `documents` into the bound collection: builds the request,
    /// has `transport` send it, and reads the reply. The transport is
    /// called once, or not at all where there is no request to send. The
    /// client is left as it was, whatever the outcome.
    pub fn insert<T: FnOnce(Request) -> Reply>(
        &mut self,
        documents: Vec<OramaDocument>,
        transport: T,
    ) -> (res: Result<(), OramaError>)
        requires
            forall|request: Request| call_requires(transport, (request,)),
        ensures
            *final(self) == *old(self),
            match old(self).spec_insert_request(documents@) {
                Ok(expected) => exists|request: Request, reply: Reply|
                    request@ == expected && #[trigger] call_ensures(transport, (request,), reply)
                        && res == OramaCoreClient::spec_write_outcome(reply),
                Err(error) => res == Err::<(), OramaError>(error),
            },
    {
        let request = self.insert_request(documents)?;
        let ghost sent = request;
        let reply = transport(request);
        let ghost got = reply;
        let res = OramaCoreClient::write_outcome(reply);
        assert(call_ensures(transport, (sent,), got));
        res
    }

    /// Deletes the documents with the ids `document_ids` from the bound
    /// collection: builds the request, has `transport` send it, and reads
    /// the reply. The transport is called once, or not at all where there
    /// is no request to send. The client is left as it was, whatever the
    /// outcome.
    pub fn delete<T: FnOnce(Request) -> Reply>(
        &mut self,
        document_ids: Vec<String>,
        transport: T,
    ) -> (res: Result<(), OramaError>)
        requires
            forall|request: Request| call_requires(transport, (request,)),
        ensures
            *final(self) == *old(self),
            match old(self).spec_delete_request(document_ids@) {
                Ok(expected) => exists|request: Request, reply: Reply|
                    request@ == expected && #[trigger] call_ensures(transport, (request,), reply)
                        && res == OramaCoreClient::spec_write_outcome(reply),
                Err(error) => res == Err::<(), OramaError>(error),
            },
    {
        let request = self.delete_request(&document_ids)?;
        let ghost sent = request;
        let reply = transport(request);
        let ghost got = reply;
        let res = OramaCoreClient::write_outcome(reply);
        assert(call_ensures(transport, (sent,), got));
        res
    }
}

/// A client that is bound to no collection writes nothing: for `insert` and
/// for `delete` alike there is no request to send, and the error is
/// `NoCollection`, whether the client has a write key or not.
pub proof fn lemma_unbound_client_writes_nothing(
    client: OramaCoreClient,
    documents: Seq<OramaDocument>,
    document_ids: Seq<String>,
)
    requires
        client@.collection is None,
    ensures
        client.spec_insert_request(documents) == Err::<RequestView, OramaError>(
            OramaError::Config(ConfigIssue::NoCollection),
        ),
        client.spec_delete_request(document_ids) == Err::<RequestView, OramaError>(
            OramaError::Config(ConfigIssue::NoCollection),
        ),
{
}

/// A client that is bound to a collection but has no write key writes
/// nothing: for `insert` and for `delete` alike there is no request to
/// send, and the error is `NoWriteKey`, which is not the error of an
/// unbound client.
pub proof fn lemma_keyless_client_writes_nothing(
    client: OramaCoreClient,
    documents: Seq<OramaDocument>,
    document_ids: Seq<String>,
)
    requires
        client@.collection is Some,
        client@.write_api_key is None,
    ensures
        client.spec_insert_request(documents) == Err::<RequestView, OramaError>(
            OramaError::Config(ConfigIssue::NoWriteKey),
        ),
        client.spec_delete_request(document_ids) == Err::<RequestView, OramaError>(
            OramaError::Config(ConfigIssue::NoWriteKey),
        ),
        OramaError::Config(ConfigIssue::NoWriteKey) != OramaError::Config(
            ConfigIssue::NoCollection,
        ),
{
}

/// A reply with a status outside 200 to 299 makes a write fail with `Http`,
/// which carries that status and the reply's body.
pub proof fn lemma_error_status_fails_write(status: u16, body: String)
    requires
        !is_success(status),
    ensures
        OramaCoreClient::spec_write_outcome(Reply::Response { status, body }) == Err::<
            (),
            OramaError,
        >(OramaError::Http { status, body }),
{
}

} // verus!
