//! The driver-side error value that the C layer classifies and reports.

use vstd::prelude::*;

verus! {

/// A write concern failure reported by the server.
#[derive(Debug)]
pub struct WriteConcernFailure {
    pub code: i32,
    pub code_name: String,
    pub message: String,
    /// Encoded BSON document of further details, if the server sent any.
    pub details: Option<Vec<u8>>,
    pub labels: Vec<String>,
}

/// A single write failure reported by the server.
#[derive(Debug)]
pub struct WriteFailure {
    pub code: i32,
    pub code_name: Option<String>,
    pub message: String,
    /// Encoded BSON document of further details, if the server sent any.
    pub details: Option<Vec<u8>>,
}

/// A write failure of one document of a batch, with its position in the batch.
#[derive(Debug)]
pub struct IndexedWriteFailure {
    pub index: usize,
    pub failure: WriteFailure,
}

/// The partial outcome of an `insert_many` that failed.
#[derive(Debug)]
pub struct InsertManyFailure {
    pub write_errors: Option<Vec<IndexedWriteFailure>>,
    pub write_concern_error: Option<WriteConcernFailure>,
    /// Encoded BSON document mapping the batch index of each inserted document to its id.
    pub inserted_ids: Vec<u8>,
}

/// The partial outcome of a bulk write that failed.
#[derive(Debug)]
pub struct BulkWriteFailure {
    pub write_errors: Vec<(usize, WriteFailure)>,
    pub write_concern_errors: Vec<WriteConcernFailure>,
}

/// What went wrong.
#[derive(Debug)]
pub enum ErrorKind {
    Command { code: i32, code_name: String, message: String },
    WriteConcern(WriteConcernFailure),
    Write(WriteFailure),
    InsertMany(InsertManyFailure),
    BulkWrite(BulkWriteFailure),
    Io { message: String },
    ServerSelection { message: String },
    Authentication { message: String },
    InvalidArgument { message: String },
    Transaction { message: String },
    IncompatibleServer { message: String },
    InvalidResponse { message: String },
    MissingResumeToken,
    Shutdown,
    ConnectionPoolCleared { message: String },
    SessionsNotSupported,
    BsonDeserialization { message: String },
    BsonSerialization { message: String },
    Internal { message: String },
    /// Any other failure, with its rendered description.
    Other { description: String },
}

/// A driver error: its kind, the labels the server attached, and the raw
/// server response it came from, if any.
#[derive(Debug)]
pub struct DriverError {
    pub kind: ErrorKind,
    pub labels: Vec<String>,
    pub server_response: Option<Vec<u8>>,
}

impl DriverError {
    /// An error of kind `kind` with no labels and no server response.
    pub fn new(kind: ErrorKind) -> (r: DriverError)
        ensures
            r.kind == kind,
            r.labels@.len() == 0,
            r.server_response is None,
    {
        DriverError { kind, labels: Vec::new(), server_response: None }
    }

    /// An invalid-argument error with the given message.
    pub fn invalid_argument(message: String) -> (r: DriverError)
        ensures
            is_invalid_argument(r, message@),
    {
        DriverError::new(ErrorKind::InvalidArgument { message })
    }

    /// An invalid-argument error with the given fixed message.
    pub fn invalid_argument_str(message: &str) -> (r: DriverError)
        ensures
            is_invalid_argument(r, message@),
    {
        DriverError::invalid_argument(String::from_str(message))
    }

    /// An invalid-response error with the given fixed message.
    pub fn invalid_response_str(message: &str) -> (r: DriverError)
        ensures
            is_invalid_response(r, message@),
    {
        DriverError::new(ErrorKind::InvalidResponse { message: String::from_str(message) })
    }

    /// An internal error with the given fixed message.
    pub fn internal_str(message: &str) -> (r: DriverError)
        ensures
            r.kind matches ErrorKind::Internal { message: m } && m@ == message@,
            r.labels@.len() == 0,
            r.server_response is None,
    {
        DriverError::new(ErrorKind::Internal { message: String::from_str(message) })
    }
}

/// `e` is a fresh invalid-argument error whose message is `msg`.
pub open spec fn is_invalid_argument(e: DriverError, msg: Seq<char>) -> bool {
    &&& e.kind matches ErrorKind::InvalidArgument { message } && message@ == msg
    &&& e.labels@.len() == 0
    &&& e.server_response is None
}

/// `e` is a fresh invalid-response error whose message is `msg`.
pub open spec fn is_invalid_response(e: DriverError, msg: Seq<char>) -> bool {
    &&& e.kind matches ErrorKind::InvalidResponse { message } && message@ == msg
    &&& e.labels@.len() == 0
    &&& e.server_response is None
}

} // verus!
