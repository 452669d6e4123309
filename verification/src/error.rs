use vstd::prelude::*;
use vstd::string::StringExecFns;

verus! {

/// Which precondition on a client's state was not met.
#[derive(Clone, Copy, Debug, PartialEq, Eq, Structural)]
pub enum ConfigIssue {
    /// No collection has been bound with `set_collection`.
    NoCollection,
    /// The client was built without a write key.
    NoWriteKey,
}

/// Which step of encoding or decoding JSON failed.
#[derive(Clone, Copy, Debug, PartialEq, Eq, Structural)]
pub enum SerializationIssue {
    /// A request body could not be written as JSON text.
    Encoding,
    /// A response body is not JSON text.
    MalformedJson,
    /// A response body is JSON, but not of the expected shape.
    SchemaMismatch,
}

/// Everything that can go wrong in a call. Each operation returns its result
/// or exactly one of these.
#[derive(Clone, Debug, PartialEq, Eq)]
pub enum OramaError {
    /// The caller's input was rejected before anything was sent: the
    /// collection id is empty.
    Validation,
    /// The client is not in a state to perform the operation.
    Config(ConfigIssue),
    /// The service answered with a status outside 200..=299.
    Http { status: u16, body: String },
    /// The request could not be sent, or no response arrived.
    Transport { reason: String },
    /// A body could not be encoded or decoded.
    Serialization(SerializationIssue),
}

impl OramaError {
    /// The text that `message` returns.
    pub open spec fn spec_message(&self) -> Seq<char> {
        match self {
            OramaError::Validation => "Please provide a collection ID"@,
            OramaError::Config(ConfigIssue::NoCollection) =>
                "No collection specified. Make sure to call set_collection() first."@,
            OramaError::Config(ConfigIssue::NoWriteKey) =>
                "Cannot perform write operation as there is no write_api_key set."@,
            OramaError::Http { status, body } => "The service answered with an error: "@ + body@,
            OramaError::Transport { reason } => "The request could not be delivered: "@ + reason@,
            OramaError::Serialization(SerializationIssue::Encoding) =>
                "The request body could not be encoded as JSON"@,
            OramaError::Serialization(SerializationIssue::MalformedJson) =>
                "The response body is not valid JSON"@,
            OramaError::Serialization(SerializationIssue::SchemaMismatch) =>
                "The response body does not have the expected shape"@,
        }
    }

    /// A description of the error for people: fixed text, followed for
    /// `Http` by the body of the reply and for `Transport` by the reason that
    /// the transport gave.
    pub fn message(&self) -> (text: String)
        ensures
            text@ == self.spec_message(),
    {
        match self {
            OramaError::Validation => String::from_str("Please provide a collection ID"),
            OramaError::Config(ConfigIssue::NoCollection) => String::from_str(
                "No collection specified. Make sure to call set_collection() first.",
            ),
            OramaError::Config(ConfigIssue::NoWriteKey) => String::from_str(
                "Cannot perform write operation as there is no write_api_key set.",
            ),
            OramaError::Http { status: _, body } => String::from_str(
                "The service answered with an error: ",
            ).concat(body.as_str()),
            OramaError::Transport { reason } => String::from_str(
                "The request could not be delivered: ",
            ).concat(reason.as_str()),
            OramaError::Serialization(SerializationIssue::Encoding) => String::from_str(
                "The request body could not be encoded as JSON",
            ),
            OramaError::Serialization(SerializationIssue::MalformedJson) => String::from_str(
                "The response body is not valid JSON",
            ),
            OramaError::Serialization(SerializationIssue::SchemaMismatch) => String::from_str(
                "The response body does not have the expected shape",
            ),
        }
    }
}

} // verus!
