use vstd::prelude::*;

use crate::connection::ConnectionError;
use crate::session::AuthError;

verus! {

/// Failures of the client, from the session to the staged files.
#[derive(Debug)]
pub enum SnowflakeApiError {
    RequestError(ConnectionError),
    AuthError(AuthError),
    /// The base64 rowset did not decode; holds the decoder's message.
    ResponseDeserializationError(String),
    /// A columnar IPC stream did not decode; holds the decoder's message.
    ArrowError(String),
    InvalidBucketPath(String),
    InvalidLocalPath(String),
    LocalIoError(String),
    ObjectStoreError(String),
    ObjectStorePathError(String),
    TokioTaskJoinError(String),
    /// The server refused the statement: its code and message.
    ApiError(String, String),
    EmptyResponse,
    /// A tabular reply with neither a JSON nor a base64 rowset.
    BrokenResponse,
    Unimplemented(String),
    UnexpectedResponse,
    MissingFeature(String),
}

} // verus!
