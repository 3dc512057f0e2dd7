//! Classification of driver errors into the tagged error value the C caller
//! receives: one type code and a payload per kind.

use vstd::prelude::*;

use crate::error::{
    BulkWriteFailure, DriverError, ErrorKind, IndexedWriteFailure, InsertManyFailure,
    WriteConcernFailure, WriteFailure,
};
use crate::ffi_types::OwnedBson;
use crate::text::{concat, string_views};

verus! {

/// Error type discriminator, numbered as the caller sees it.
#[derive(PartialEq, Eq, Structural, Clone, Copy, Debug)]
pub enum ErrorType {
    Server,
    InsertMany,
    BulkWrite,
    Io,
    ServerSelection,
    Timeout,
    Auth,
    InvalidArgument,
    Transaction,
    IncompatibleServer,
    InvalidResponse,
    ChangeStream,
    Shutdown,
}

/// The number of an error type.
pub open spec fn error_type_code(t: ErrorType) -> u8 {
    match t {
        ErrorType::Server => 0,
        ErrorType::InsertMany => 1,
        ErrorType::BulkWrite => 2,
        ErrorType::Io => 3,
        ErrorType::ServerSelection => 4,
        ErrorType::Timeout => 5,
        ErrorType::Auth => 6,
        ErrorType::InvalidArgument => 7,
        ErrorType::Transaction => 8,
        ErrorType::IncompatibleServer => 9,
        ErrorType::InvalidResponse => 10,
        ErrorType::ChangeStream => 11,
        ErrorType::Shutdown => 12,
    }
}

impl ErrorType {
    /// The type's number.
    pub fn code(&self) -> (r: u8)
        ensures
            r == error_type_code(*self),
    {
        match self {
            ErrorType::Server => 0,
            ErrorType::InsertMany => 1,
            ErrorType::BulkWrite => 2,
            ErrorType::Io => 3,
            ErrorType::ServerSelection => 4,
            ErrorType::Timeout => 5,
            ErrorType::Auth => 6,
            ErrorType::InvalidArgument => 7,
            ErrorType::Transaction => 8,
            ErrorType::IncompatibleServer => 9,
            ErrorType::InvalidResponse => 10,
            ErrorType::ChangeStream => 11,
            ErrorType::Shutdown => 12,
        }
    }

    /// The type numbered `code`; `None` past the last type, so that an
    /// out-of-range discriminator is never read as a type.
    pub fn from_code(code: u8) -> (r: Option<ErrorType>)
        ensures
            r is None <==> code > 12,
            r matches Some(t) ==> error_type_code(t) == code,
    {
        match code {
            0 => Some(ErrorType::Server),
            1 => Some(ErrorType::InsertMany),
            2 => Some(ErrorType::BulkWrite),
            3 => Some(ErrorType::Io),
            4 => Some(ErrorType::ServerSelection),
            5 => Some(ErrorType::Timeout),
            6 => Some(ErrorType::Auth),
            7 => Some(ErrorType::InvalidArgument),
            8 => Some(ErrorType::Transaction),
            9 => Some(ErrorType::IncompatibleServer),
            10 => Some(ErrorType::InvalidResponse),
            11 => Some(ErrorType::ChangeStream),
            12 => Some(ErrorType::Shutdown),
            _ => None,
        }
    }
}

/// Distinct error types have distinct numbers, and every number up to 12
/// names exactly one type: the numbering is a bijection onto `0..=12`.
pub proof fn error_type_codes_are_a_bijection(a: ErrorType, b: ErrorType)
    ensures
        error_type_code(a) <= 12,
        error_type_code(a) == error_type_code(b) <==> a == b,
{
}

/// The type numbers the caller reads: server 0, insert-many 1, bulk-write 2,
/// I/O 3, server selection 4, timeout 5, auth 6, invalid argument 7,
/// transaction 8, incompatible server 9, invalid response 10, change stream
/// 11, shutdown 12.
pub proof fn error_types_are_numbered_in_order(t: ErrorType)
    ensures
        t is Server <==> error_type_code(t) == 0,
        t is InsertMany <==> error_type_code(t) == 1,
        t is BulkWrite <==> error_type_code(t) == 2,
        t is Io <==> error_type_code(t) == 3,
        t is ServerSelection <==> error_type_code(t) == 4,
        t is Timeout <==> error_type_code(t) == 5,
        t is Auth <==> error_type_code(t) == 6,
        t is InvalidArgument <==> error_type_code(t) == 7,
        t is Transaction <==> error_type_code(t) == 8,
        t is IncompatibleServer <==> error_type_code(t) == 9,
        t is InvalidResponse <==> error_type_code(t) == 10,
        t is ChangeStream <==> error_type_code(t) == 11,
        t is Shutdown <==> error_type_code(t) == 12,
{
}

/// A command or write failure reported by the server.
pub struct ServerError {
    pub code: i32,
    pub code_name: Option<String>,
    pub message: String,
    pub labels: Vec<String>,
    pub server_response: OwnedBson,
}

/// One failed write of a batch.
pub struct WriteError {
    pub index: u32,
    pub code: i32,
    pub code_name: Option<String>,
    pub message: String,
    pub details: OwnedBson,
}

/// A write concern failure.
pub struct WriteConcernError {
    pub code: i32,
    pub code_name: String,
    pub message: String,
    pub details: OwnedBson,
    pub labels: Vec<String>,
}

/// A failed `insert_many`, with what did get inserted.
pub struct InsertManyError {
    pub write_errors: Option<Vec<WriteError>>,
    pub write_concern_error: Option<WriteConcernError>,
    pub inserted_ids: OwnedBson,
}

/// A failed bulk write; no write errors is an empty list.
pub struct BulkWriteError {
    pub write_errors: Vec<WriteError>,
    pub write_concern_error: Option<WriteConcernError>,
}

pub struct IoError {
    pub message: String,
}

/// A server selection failure; `timeout_ms` is `-1` when unknown.
pub struct ServerSelectionError {
    pub message: String,
    pub timeout_ms: i64,
}

pub struct TimeoutError {
    pub message: String,
    pub timeout_ms: i64,
}

pub struct AuthError {
    pub message: String,
}

pub struct InvalidArgumentError {
    pub message: String,
}

pub struct TransactionError {
    pub message: String,
    pub labels: Vec<String>,
}

pub struct IncompatibleServerError {
    pub message: String,
}

pub struct InvalidResponseError {
    pub message: String,
}

pub struct ChangeStreamError {
    pub message: String,
    pub resumable: bool,
}

/// The deployment is shutting down; carries nothing.
pub struct ShutdownError {}

impl ShutdownError {
    pub fn new() -> (r: ShutdownError) {
        ShutdownError {}
    }
}

/// The payload of an error, one variant per type.
pub enum ErrorPayload {
    Server(ServerError),
    InsertMany(InsertManyError),
    BulkWrite(BulkWriteError),
    Io(IoError),
    ServerSelection(ServerSelectionError),
    Timeout(TimeoutError),
    Auth(AuthError),
    InvalidArgument(InvalidArgumentError),
    Transaction(TransactionError),
    IncompatibleServer(IncompatibleServerError),
    InvalidResponse(InvalidResponseError),
    ChangeStream(ChangeStreamError),
    Shutdown(ShutdownError),
}

/// The type of a payload.
pub open spec fn payload_type(p: ErrorPayload) -> ErrorType {
    match p {
        ErrorPayload::Server(_) => ErrorType::Server,
        ErrorPayload::InsertMany(_) => ErrorType::InsertMany,
        ErrorPayload::BulkWrite(_) => ErrorType::BulkWrite,
        ErrorPayload::Io(_) => ErrorType::Io,
        ErrorPayload::ServerSelection(_) => ErrorType::ServerSelection,
        ErrorPayload::Timeout(_) => ErrorType::Timeout,
        ErrorPayload::Auth(_) => ErrorType::Auth,
        ErrorPayload::InvalidArgument(_) => ErrorType::InvalidArgument,
        ErrorPayload::Transaction(_) => ErrorType::Transaction,
        ErrorPayload::IncompatibleServer(_) => ErrorType::IncompatibleServer,
        ErrorPayload::InvalidResponse(_) => ErrorType::InvalidResponse,
        ErrorPayload::ChangeStream(_) => ErrorType::ChangeStream,
        ErrorPayload::Shutdown(_) => ErrorType::Shutdown,
    }
}

/// The tagged error the caller receives.
pub struct Error {
    pub error_type: u8,
    pub error: ErrorPayload,
}

/// Whether `e`'s type code is the type of its payload.
pub open spec fn well_tagged(e: Error) -> bool {
    e.error_type == error_type_code(payload_type(e.error))
}

impl Error {
    /// Tags a payload with its type.
    pub fn from_payload(p: ErrorPayload) -> (r: Error)
        ensures
            r.error == p,
            well_tagged(r),
    {
        let t = match &p {
            ErrorPayload::Server(_) => ErrorType::Server,
            ErrorPayload::InsertMany(_) => ErrorType::InsertMany,
            ErrorPayload::BulkWrite(_) => ErrorType::BulkWrite,
            ErrorPayload::Io(_) => ErrorType::Io,
            ErrorPayload::ServerSelection(_) => ErrorType::ServerSelection,
            ErrorPayload::Timeout(_) => ErrorType::Timeout,
            ErrorPayload::Auth(_) => ErrorType::Auth,
            ErrorPayload::InvalidArgument(_) => ErrorType::InvalidArgument,
            ErrorPayload::Transaction(_) => ErrorType::Transaction,
            ErrorPayload::IncompatibleServer(_) => ErrorType::IncompatibleServer,
            ErrorPayload::InvalidResponse(_) => ErrorType::InvalidResponse,
            ErrorPayload::ChangeStream(_) => ErrorType::ChangeStream,
            ErrorPayload::Shutdown(_) => ErrorType::Shutdown,
        };
        Error { error_type: t.code(), error: p }
    }

    /// The type the discriminator names; `None` when it is out of range, in
    /// which case nothing of the payload is to be read.
    pub fn kind(&self) -> (r: Option<ErrorType>)
        ensures
            r is None <==> self.error_type > 12,
            r matches Some(t) ==> error_type_code(t) == self.error_type,
            well_tagged(*self) ==> r == Some(payload_type(self.error)),
    {
        ErrorType::from_code(self.error_type)
    }
}

/// A copy of a list of strings.
pub fn copy_strings(v: &Vec<String>) -> (r: Vec<String>)
    ensures
        string_views(r@) == string_views(v@),
{
    let mut out: Vec<String> = Vec::new();
    let mut i: usize = 0;
    while i < v.len()
        invariant
            i <= v@.len(),
            string_views(out@) == string_views(v@.take(i as int)),
        decreases v@.len() - i,
    {
        let ghost old_out = out@;
        let s = v[i].clone();
        out.push(s);
        i = i + 1;
        assert(string_views(out@) =~= string_views(old_out).push(s@));
        assert(v@.take(i as int) =~= v@.take(i - 1).push(v@[i - 1]));
        assert(string_views(v@.take(i as int)) =~= string_views(v@.take(i - 1)).push(v@[i - 1]@));
    }
    assert(v@.take(v@.len() as int) =~= v@);
    out
}

/// A copy of an optional string.
pub fn copy_opt_string(s: &Option<String>) -> (r: Option<String>)
    ensures
        r == *s,
{
    match s {
        None => None,
        Some(x) => Some(x.clone()),
    }
}

/// The bytes of an optional document, none standing for the null document.
pub open spec fn opt_doc_bytes(d: Option<Vec<u8>>) -> Seq<u8> {
    match d {
        Some(b) => b@,
        None => Seq::empty(),
    }
}

/// An owned copy of an optional document, the null document when absent.
pub fn owned_doc(d: &Option<Vec<u8>>) -> (r: OwnedBson)
    ensures
        r.0.data@ == opt_doc_bytes(*d),
{
    match d {
        None => OwnedBson::empty(),
        Some(b) => OwnedBson::from_raw(b.as_slice()),
    }
}

/// Whether `w` reports the write failure `f` at batch position `index`.
pub open spec fn write_error_of(w: WriteError, index: usize, f: WriteFailure) -> bool {
    &&& w.index == index as u32
    &&& w.code == f.code
    &&& w.code_name == f.code_name
    &&& w.message == f.message
    &&& w.details.0.data@ == opt_doc_bytes(f.details)
}

/// Whether `w` reports the write concern failure `f`.
pub open spec fn write_concern_error_of(w: WriteConcernError, f: WriteConcernFailure) -> bool {
    &&& w.code == f.code
    &&& w.code_name == f.code_name
    &&& w.message == f.message
    &&& w.details.0.data@ == opt_doc_bytes(f.details)
    &&& string_views(w.labels@) == string_views(f.labels@)
}

impl WriteError {
    /// Reports the write failure `err` at batch position `index` (the
    /// position is kept in 32 bits).
    pub fn from_rust(index: usize, err: &WriteFailure) -> (r: WriteError)
        ensures
            write_error_of(r, index, *err),
    {
        WriteError {
            index: index as u32,
            code: err.code,
            code_name: copy_opt_string(&err.code_name),
            message: err.message.clone(),
            details: owned_doc(&err.details),
        }
    }

    /// Reports a write failure that carries its batch position.
    pub fn from_indexed(err: &IndexedWriteFailure) -> (r: WriteError)
        ensures
            write_error_of(r, err.index, err.failure),
    {
        WriteError::from_rust(err.index, &err.failure)
    }
}

impl WriteConcernError {
    /// Reports a write concern failure.
    pub fn from_rust(wc: &WriteConcernFailure) -> (r: WriteConcernError)
        ensures
            write_concern_error_of(r, *wc),
    {
        WriteConcernError {
            code: wc.code,
            code_name: wc.code_name.clone(),
            message: wc.message.clone(),
            details: owned_doc(&wc.details),
            labels: copy_strings(&wc.labels),
        }
    }
}

/// Whether `r` reports the failed `insert_many` `f`.
pub open spec fn insert_many_error_of(r: InsertManyError, f: InsertManyFailure) -> bool {
    &&& match (r.write_errors, f.write_errors) {
        (None, None) => true,
        (Some(ws), Some(fs)) => ws@.len() == fs@.len() && forall|i: int|
            0 <= i < fs@.len() ==> #[trigger] write_error_of(ws@[i], fs@[i].index, fs@[i].failure),
        _ => false,
    }
    &&& match (r.write_concern_error, f.write_concern_error) {
        (None, None) => true,
        (Some(w), Some(x)) => write_concern_error_of(w, x),
        _ => false,
    }
    &&& r.inserted_ids.0.data@ == f.inserted_ids@
}

impl InsertManyError {
    /// Reports a failed `insert_many`.
    pub fn from_rust(err: &InsertManyFailure) -> (r: InsertManyError)
        ensures
            insert_many_error_of(r, *err),
    {
        let write_errors = match &err.write_errors {
            None => None,
            Some(errors) => {
                let mut out: Vec<WriteError> = Vec::new();
                let mut i: usize = 0;
                while i < errors.len()
                    invariant
                        i <= errors@.len(),
                        out@.len() == i,
                        forall|j: int|
                            0 <= j < i ==> #[trigger] write_error_of(
                                out@[j],
                                errors@[j].index,
                                errors@[j].failure,
                            ),
                    decreases errors@.len() - i,
                {
                    out.push(WriteError::from_indexed(&errors[i]));
                    i = i + 1;
                }
                Some(out)
            },
        };
        let write_concern_error = match &err.write_concern_error {
            None => None,
            Some(wc) => Some(WriteConcernError::from_rust(wc)),
        };
        InsertManyError {
            write_errors,
            write_concern_error,
            inserted_ids: OwnedBson::from_raw(err.inserted_ids.as_slice()),
        }
    }
}

/// Whether `r` reports the failed bulk write `f`: every write error, and the
/// first write concern failure if there is one.
pub open spec fn bulk_write_error_of(r: BulkWriteError, f: BulkWriteFailure) -> bool {
    &&& r.write_errors@.len() == f.write_errors@.len()
    &&& forall|i: int|
        0 <= i < f.write_errors@.len() ==> #[trigger] write_error_of(
            r.write_errors@[i],
            f.write_errors@[i].0,
            f.write_errors@[i].1,
        )
    &&& if f.write_concern_errors@.len() == 0 {
        r.write_concern_error is None
    } else {
        r.write_concern_error matches Some(w) && write_concern_error_of(
            w,
            f.write_concern_errors@[0],
        )
    }
}

impl BulkWriteError {
    /// Reports a failed bulk write.
    pub fn from_rust(err: &BulkWriteFailure) -> (r: BulkWriteError)
        ensures
            bulk_write_error_of(r, *err),
    {
        let mut out: Vec<WriteError> = Vec::new();
        let mut i: usize = 0;
        while i < err.write_errors.len()
            invariant
                i <= err.write_errors@.len(),
                out@.len() == i,
                forall|j: int|
                    0 <= j < i ==> #[trigger] write_error_of(
                        out@[j],
                        err.write_errors@[j].0,
                        err.write_errors@[j].1,
                    ),
            decreases err.write_errors@.len() - i,
        {
            let (idx, e) = &err.write_errors[i];
            out.push(WriteError::from_rust(*idx, e));
            i = i + 1;
        }
        let write_concern_error = if err.write_concern_errors.len() == 0 {
            None
        } else {
            Some(WriteConcernError::from_rust(&err.write_concern_errors[0]))
        };
        BulkWriteError { write_errors: out, write_concern_error }
    }
}

/// The bytes of the server response an error came from, empty when none.
pub open spec fn response_bytes(e: DriverError) -> Seq<u8> {
    match e.server_response {
        Some(b) => b@,
        None => Seq::empty(),
    }
}

/// Whether `s` reports a server failure with the given fields, with the
/// labels and server response of `e`.
pub open spec fn server_error_of(
    s: ServerError,
    e: DriverError,
    code: i32,
    code_name: Option<String>,
    message: String,
) -> bool {
    &&& s.code == code
    &&& s.code_name == code_name
    &&& s.message == message
    &&& string_views(s.labels@) == string_views(e.labels@)
    &&& s.server_response.0.data@ == response_bytes(e)
}

impl ServerError {
    /// Reports a server failure with the labels and response of `error`.
    pub fn from_parts(code: i32, code_name: Option<String>, message: String, error: &DriverError) -> (r:
        ServerError)
        ensures
            server_error_of(r, *error, code, code_name, message),
    {
        ServerError {
            code,
            code_name,
            message,
            labels: copy_strings(&error.labels),
            server_response: owned_doc(&error.server_response),
        }
    }

    /// Reports a command failure of the server.
    pub fn from_command_error(code: i32, code_name: &String, message: &String, error: &DriverError) -> (r:
        ServerError)
        ensures
            server_error_of(r, *error, code, Some(*code_name), *message),
    {
        ServerError::from_parts(code, Some(code_name.clone()), message.clone(), error)
    }

    /// Reports a write concern failure.
    pub fn from_write_concern_error(wc: &WriteConcernFailure, error: &DriverError) -> (r: ServerError)
        ensures
            server_error_of(r, *error, wc.code, Some(wc.code_name), wc.message),
    {
        ServerError::from_parts(wc.code, Some(wc.code_name.clone()), wc.message.clone(), error)
    }

    /// Reports a write failure.
    pub fn from_write_error(w: &WriteFailure, error: &DriverError) -> (r: ServerError)
        ensures
            server_error_of(r, *error, w.code, w.code_name, w.message),
    {
        ServerError::from_parts(w.code, copy_opt_string(&w.code_name), w.message.clone(), error)
    }
}

/// The error type a driver error is reported as.
pub open spec fn reported_type(k: ErrorKind) -> ErrorType {
    match k {
        ErrorKind::Command { .. } => ErrorType::Server,
        ErrorKind::WriteConcern(_) => ErrorType::Server,
        ErrorKind::Write(_) => ErrorType::Server,
        ErrorKind::InsertMany(_) => ErrorType::InsertMany,
        ErrorKind::BulkWrite(_) => ErrorType::BulkWrite,
        ErrorKind::Io { .. } => ErrorType::Io,
        ErrorKind::ServerSelection { .. } => ErrorType::ServerSelection,
        ErrorKind::Authentication { .. } => ErrorType::Auth,
        ErrorKind::InvalidArgument { .. } => ErrorType::InvalidArgument,
        ErrorKind::Transaction { .. } => ErrorType::Transaction,
        ErrorKind::IncompatibleServer { .. } => ErrorType::IncompatibleServer,
        ErrorKind::InvalidResponse { .. } => ErrorType::InvalidResponse,
        ErrorKind::MissingResumeToken => ErrorType::ChangeStream,
        ErrorKind::Shutdown => ErrorType::Shutdown,
        ErrorKind::ConnectionPoolCleared { .. } => ErrorType::Io,
        ErrorKind::SessionsNotSupported => ErrorType::IncompatibleServer,
        _ => ErrorType::InvalidArgument,
    }
}

/// The message carried for a driver error whose payload is a message.
pub open spec fn reported_message(k: ErrorKind) -> Seq<char> {
    match k {
        ErrorKind::Io { message } => message@,
        ErrorKind::ServerSelection { message } => message@,
        ErrorKind::Authentication { message } => message@,
        ErrorKind::InvalidArgument { message } => message@,
        ErrorKind::Transaction { message } => message@,
        ErrorKind::IncompatibleServer { message } => message@,
        ErrorKind::InvalidResponse { message } => message@,
        ErrorKind::MissingResumeToken =>
            "Cannot provide resume functionality when the resume token is missing"@,
        ErrorKind::ConnectionPoolCleared { message } => message@,
        ErrorKind::SessionsNotSupported =>
            "Attempted to start a session on a deployment that does not support sessions"@,
        ErrorKind::BsonDeserialization { message } => message@,
        ErrorKind::BsonSerialization { message } => message@,
        ErrorKind::Internal { message } => "Unhandled error: "@ + message@,
        ErrorKind::Other { description } => "Unhandled error: "@ + description@,
        _ => Seq::empty(),
    }
}

/// The message of a payload that carries one.
pub open spec fn payload_message(p: ErrorPayload) -> Seq<char> {
    match p {
        ErrorPayload::Io(x) => x.message@,
        ErrorPayload::ServerSelection(x) => x.message@,
        ErrorPayload::Auth(x) => x.message@,
        ErrorPayload::InvalidArgument(x) => x.message@,
        ErrorPayload::Transaction(x) => x.message@,
        ErrorPayload::IncompatibleServer(x) => x.message@,
        ErrorPayload::InvalidResponse(x) => x.message@,
        ErrorPayload::ChangeStream(x) => x.message@,
        _ => Seq::empty(),
    }
}

/// Whether `r` is how the driver error `e` is reported to the caller.
pub open spec fn reports(r: Error, e: DriverError) -> bool {
    &&& well_tagged(r)
    &&& payload_type(r.error) == reported_type(e.kind)
    &&& match e.kind {
        ErrorKind::Command { code, code_name, message } => r.error matches ErrorPayload::Server(s)
            && server_error_of(s, e, code, Some(code_name), message),
        ErrorKind::WriteConcern(w) => r.error matches ErrorPayload::Server(s) && server_error_of(
            s,
            e,
            w.code,
            Some(w.code_name),
            w.message,
        ),
        ErrorKind::Write(w) => r.error matches ErrorPayload::Server(s) && server_error_of(
            s,
            e,
            w.code,
            w.code_name,
            w.message,
        ),
        ErrorKind::InsertMany(f) => r.error matches ErrorPayload::InsertMany(x)
            && insert_many_error_of(x, f),
        ErrorKind::BulkWrite(f) => r.error matches ErrorPayload::BulkWrite(x) && bulk_write_error_of(
            x,
            f,
        ),
        ErrorKind::ServerSelection { .. } => r.error matches ErrorPayload::ServerSelection(x)
            && x.timeout_ms == -1 && x.message@ == reported_message(e.kind),
        ErrorKind::Transaction { .. } => r.error matches ErrorPayload::Transaction(x)
            && x.message@ == reported_message(e.kind) && string_views(x.labels@) == string_views(
            e.labels@,
        ),
        ErrorKind::MissingResumeToken => r.error matches ErrorPayload::ChangeStream(x) && x.resumable
            && x.message@ == reported_message(e.kind),
        ErrorKind::Shutdown => r.error is Shutdown,
        _ => payload_message(r.error) == reported_message(e.kind),
    }
}

/// How each kind of driver error reaches the caller, by type number and
/// payload: command, write-concern and write failures are server errors (0);
/// batch failures are insert-many (1) and bulk-write (2) errors; I/O failures
/// and cleared pools are I/O errors (3) with their message; a failed server
/// selection is a server-selection error (4); a failed authentication is an
/// auth error (6) with its message; an invalid argument, a BSON
/// (de)serialization failure and any unhandled kind are invalid-argument
/// errors (7); a transaction failure is a transaction error (8); an
/// incompatible server and a deployment without sessions are
/// incompatible-server errors (9); a bad response is an invalid-response
/// error (10); a missing resume token is a resumable change-stream error
/// (11); shutdown is a shutdown error (12).
pub proof fn driver_errors_reach_the_caller_by_kind(r: Error, e: DriverError)
    requires
        reports(r, e),
    ensures
        e.kind is Command ==> (r.error is Server && r.error_type == 0u8),
        e.kind is WriteConcern ==> (r.error is Server && r.error_type == 0u8),
        e.kind is Write ==> (r.error is Server && r.error_type == 0u8),
        e.kind is InsertMany ==> (r.error is InsertMany && r.error_type == 1u8),
        e.kind is BulkWrite ==> (r.error is BulkWrite && r.error_type == 2u8),
        e.kind matches ErrorKind::Io { message } ==> (r.error matches ErrorPayload::Io(x) && x.message@ == message@ && r.error_type == 3u8),
        e.kind matches ErrorKind::ConnectionPoolCleared { message } ==> (r.error matches ErrorPayload::Io(x) && x.message@ == message@ && r.error_type == 3u8),
        e.kind matches ErrorKind::ServerSelection { message } ==> (r.error matches ErrorPayload::ServerSelection(x) && x.message@ == message@ && r.error_type == 4u8),
        e.kind matches ErrorKind::Authentication { message } ==> (r.error matches ErrorPayload::Auth(x) && x.message@ == message@ && r.error_type == 6u8),
        e.kind matches ErrorKind::InvalidArgument { message } ==> (r.error matches ErrorPayload::InvalidArgument(x) && x.message@ == message@ && r.error_type == 7u8),
        e.kind matches ErrorKind::BsonDeserialization { message } ==> (r.error matches ErrorPayload::InvalidArgument(x) && x.message@ == message@ && r.error_type == 7u8),
        e.kind matches ErrorKind::BsonSerialization { message } ==> (r.error matches ErrorPayload::InvalidArgument(x) && x.message@ == message@ && r.error_type == 7u8),
        e.kind matches ErrorKind::Internal { message } ==> (r.error matches ErrorPayload::InvalidArgument(x) && x.message@ == "Unhandled error: "@ + message@ && r.error_type == 7u8),
        e.kind matches ErrorKind::Other { description } ==> (r.error matches ErrorPayload::InvalidArgument(x) && x.message@ == "Unhandled error: "@ + description@ && r.error_type == 7u8),
        e.kind matches ErrorKind::Transaction { message } ==> (r.error matches ErrorPayload::Transaction(x) && x.message@ == message@ && r.error_type == 8u8),
        e.kind matches ErrorKind::IncompatibleServer { message } ==> (r.error matches ErrorPayload::IncompatibleServer(x) && x.message@ == message@ && r.error_type == 9u8),
        e.kind is SessionsNotSupported ==> (r.error matches ErrorPayload::IncompatibleServer(x) && x.message@ == "Attempted to start a session on a deployment that does not support sessions"@ && r.error_type == 9u8),
        e.kind matches ErrorKind::InvalidResponse { message } ==> (r.error matches ErrorPayload::InvalidResponse(x) && x.message@ == message@ && r.error_type == 10u8),
        e.kind is MissingResumeToken ==> (r.error matches ErrorPayload::ChangeStream(x) && x.resumable && x.message@ == "Cannot provide resume functionality when the resume token is missing"@ && r.error_type == 11u8),
        e.kind is Shutdown ==> (r.error is Shutdown && r.error_type == 12u8),
{
}

impl Error {
    /// Reports a driver error to the caller: server-side failures as server
    /// errors, batch failures with their partial results, and every other
    /// kind with its message; kinds with no counterpart are invalid-argument
    /// errors reading "Unhandled error: ..." .
    pub fn from_driver_error(error: &DriverError) -> (r: Error)
        ensures
            reports(r, *error),
    {
        let p = match &error.kind {
            ErrorKind::Command { code, code_name, message } => ErrorPayload::Server(
                ServerError::from_command_error(*code, code_name, message, error),
            ),
            ErrorKind::WriteConcern(w) => ErrorPayload::Server(
                ServerError::from_write_concern_error(w, error),
            ),
            ErrorKind::Write(w) => ErrorPayload::Server(ServerError::from_write_error(w, error)),
            ErrorKind::InsertMany(f) => ErrorPayload::InsertMany(InsertManyError::from_rust(f)),
            ErrorKind::BulkWrite(f) => ErrorPayload::BulkWrite(BulkWriteError::from_rust(f)),
            ErrorKind::Io { message } => ErrorPayload::Io(IoError { message: message.clone() }),
            ErrorKind::ServerSelection { message } => ErrorPayload::ServerSelection(
                ServerSelectionError { message: message.clone(), timeout_ms: -1 },
            ),
            ErrorKind::Authentication { message } => ErrorPayload::Auth(
                AuthError { message: message.clone() },
            ),
            ErrorKind::InvalidArgument { message } => ErrorPayload::InvalidArgument(
                InvalidArgumentError { message: message.clone() },
            ),
            ErrorKind::Transaction { message } => ErrorPayload::Transaction(
                TransactionError { message: message.clone(), labels: copy_strings(&error.labels) },
            ),
            ErrorKind::IncompatibleServer { message } => ErrorPayload::IncompatibleServer(
                IncompatibleServerError { message: message.clone() },
            ),
            ErrorKind::InvalidResponse { message } => ErrorPayload::InvalidResponse(
                InvalidResponseError { message: message.clone() },
            ),
            ErrorKind::MissingResumeToken => ErrorPayload::ChangeStream(
                ChangeStreamError {
                    message: String::from_str(
                        "Cannot provide resume functionality when the resume token is missing",
                    ),
                    resumable: true,
                },
            ),
            ErrorKind::Shutdown => ErrorPayload::Shutdown(ShutdownError::new()),
            ErrorKind::ConnectionPoolCleared { message } => ErrorPayload::Io(
                IoError { message: message.clone() },
            ),
            ErrorKind::SessionsNotSupported => ErrorPayload::IncompatibleServer(
                IncompatibleServerError {
                    message: String::from_str(
                        "Attempted to start a session on a deployment that does not support sessions",
                    ),
                },
            ),
            ErrorKind::BsonDeserialization { message } => ErrorPayload::InvalidArgument(
                InvalidArgumentError { message: message.clone() },
            ),
            ErrorKind::BsonSerialization { message } => ErrorPayload::InvalidArgument(
                InvalidArgumentError { message: message.clone() },
            ),
            ErrorKind::Internal { message } => ErrorPayload::InvalidArgument(
                InvalidArgumentError { message: concat("Unhandled error: ", message.as_str()) },
            ),
            ErrorKind::Other { description } => ErrorPayload::InvalidArgument(
                InvalidArgumentError { message: concat("Unhandled error: ", description.as_str()) },
            ),
        };
        Error::from_payload(p)
    }
}

} // verus!
