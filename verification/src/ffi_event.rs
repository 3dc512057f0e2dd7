//! Command monitoring events as the caller receives them.

use vstd::prelude::*;

use crate::error::DriverError;
use crate::ffi_error::{reports, Error};
use crate::ffi_types::{Bson, OwnedBson};
use crate::options::{ServerAddress, DEFAULT_PORT};
use crate::text::{concat3, decimal};

verus! {

/// The service id of an event: its twelve bytes and `true`, or zeros and
/// `false`.
pub fn service_id_bytes(oid: Option<&[u8; 12]>) -> (r: ([u8; 12], bool))
    ensures
        oid is None ==> r.1 == false && forall|i: int| 0 <= i < 12 ==> r.0@[i] == 0u8,
        oid matches Some(b) ==> r.1 == true && r.0@ == b@,
{
    match oid {
        Some(id) => (*id, true),
        None => {
            let z = [0u8; 12];
            assert(forall|i: int| 0 <= i < 12 ==> z@[i] == 0u8);
            (z, false)
        },
    }
}

/// The text of an address: `host:port` (the default port when none is
/// given), or the socket path.
pub open spec fn address_text(a: ServerAddress) -> Seq<char> {
    match a {
        ServerAddress::Tcp { host, port } => host@ + ":"@ + decimal(
            (match port {
                Some(p) => p,
                None => DEFAULT_PORT,
            }) as nat,
        ),
        ServerAddress::Unix { path } => path@,
    }
}

/// Renders an address as `host:port` or as its socket path.
pub fn format_address(address: &ServerAddress) -> (r: String)
    ensures
        r@ == address_text(*address),
{
    match address {
        ServerAddress::Tcp { host, port } => {
            let p: u16 = match port {
                Some(p) => *p,
                None => DEFAULT_PORT,
            };
            let n = crate::text::u64_to_decimal(p as u64);
            concat3(host.as_str(), ":", n.as_str())
        },
        ServerAddress::Unix { path } => path.clone(),
    }
}

/// The connection a command ran on.
pub struct EventConnection {
    pub id: u32,
    pub server_id: Option<i64>,
    pub address: ServerAddress,
}

/// A command that was sent.
pub struct CommandStarted {
    pub command_name: String,
    pub request_id: i32,
    pub connection: EventConnection,
    /// The bytes of the service's object id, where there is one.
    pub service_id: Option<[u8; 12]>,
    pub db: String,
    /// The encoded command document.
    pub command: Vec<u8>,
}

/// A command that succeeded.
pub struct CommandSucceeded {
    pub command_name: String,
    pub request_id: i32,
    pub connection: EventConnection,
    /// The bytes of the service's object id, where there is one.
    pub service_id: Option<[u8; 12]>,
    pub duration_nanos: u128,
    /// The encoded reply document.
    pub reply: Vec<u8>,
}

/// A command that failed.
pub struct CommandFailed {
    pub command_name: String,
    pub request_id: i32,
    pub connection: EventConnection,
    /// The bytes of the service's object id, where there is one.
    pub service_id: Option<[u8; 12]>,
    pub duration_nanos: u128,
    pub failure: DriverError,
}

/// A started event as the caller receives it.
pub struct FfiCommandStartedEvent {
    pub command_name: String,
    pub request_id: i32,
    pub connection_id: u32,
    /// `-1` when the server gave no id.
    pub connection_server_id: i64,
    pub connection_address: String,
    pub service_id: [u8; 12],
    pub has_service_id: bool,
    pub db: String,
    pub command: OwnedBson,
}

/// A succeeded event as the caller receives it.
pub struct FfiCommandSucceededEvent {
    pub command_name: String,
    pub request_id: i32,
    pub connection_id: u32,
    pub connection_server_id: i64,
    pub connection_address: String,
    pub service_id: [u8; 12],
    pub has_service_id: bool,
    pub duration_nanos: u64,
    pub reply: OwnedBson,
}

/// A failed event as the caller receives it.
pub struct FfiCommandFailedEvent {
    pub command_name: String,
    pub request_id: i32,
    pub connection_id: u32,
    pub connection_server_id: i64,
    pub connection_address: String,
    pub service_id: [u8; 12],
    pub has_service_id: bool,
    pub duration_nanos: u64,
    pub failure: Error,
}

/// The server's connection id, `-1` when absent.
pub open spec fn server_id_or_unset(s: Option<i64>) -> i64 {
    match s {
        Some(x) => x,
        None => -1i64,
    }
}

fn server_id_value(s: Option<i64>) -> (r: i64)
    ensures
        r == server_id_or_unset(s),
{
    match s {
        Some(x) => x,
        None => -1,
    }
}

/// The started event handed to the caller.
pub fn started_event(e: &CommandStarted) -> (r: FfiCommandStartedEvent)
    ensures
        r.command_name == e.command_name,
        r.request_id == e.request_id,
        r.connection_id == e.connection.id,
        r.connection_server_id == server_id_or_unset(e.connection.server_id),
        r.connection_address@ == address_text(e.connection.address),
        r.has_service_id == e.service_id is Some,
        e.service_id matches Some(b) ==> r.service_id@ == b@,
        e.service_id is None ==> forall|i: int| 0 <= i < 12 ==> r.service_id@[i] == 0u8,
        r.db == e.db,
        r.command.0.data@ == e.command@,
{
    let (service_id, has_service_id) = service_id_bytes(e.service_id.as_ref());
    FfiCommandStartedEvent {
        command_name: e.command_name.clone(),
        request_id: e.request_id,
        connection_id: e.connection.id,
        connection_server_id: server_id_value(e.connection.server_id),
        connection_address: format_address(&e.connection.address),
        service_id,
        has_service_id,
        db: e.db.clone(),
        command: OwnedBson::from_raw(e.command.as_slice()),
    }
}

/// The succeeded event handed to the caller; the duration is kept in 64 bits.
pub fn succeeded_event(e: &CommandSucceeded) -> (r: FfiCommandSucceededEvent)
    ensures
        r.command_name == e.command_name,
        r.request_id == e.request_id,
        r.connection_id == e.connection.id,
        r.connection_server_id == server_id_or_unset(e.connection.server_id),
        r.connection_address@ == address_text(e.connection.address),
        r.has_service_id == e.service_id is Some,
        e.service_id matches Some(b) ==> r.service_id@ == b@,
        e.service_id is None ==> forall|i: int| 0 <= i < 12 ==> r.service_id@[i] == 0u8,
        r.duration_nanos == e.duration_nanos as u64,
        r.reply.0.data@ == e.reply@,
{
    let (service_id, has_service_id) = service_id_bytes(e.service_id.as_ref());
    FfiCommandSucceededEvent {
        command_name: e.command_name.clone(),
        request_id: e.request_id,
        connection_id: e.connection.id,
        connection_server_id: server_id_value(e.connection.server_id),
        connection_address: format_address(&e.connection.address),
        service_id,
        has_service_id,
        duration_nanos: e.duration_nanos as u64,
        reply: OwnedBson::from_raw(e.reply.as_slice()),
    }
}

/// The failed event handed to the caller, with the failure reported.
pub fn failed_event(e: &CommandFailed) -> (r: FfiCommandFailedEvent)
    ensures
        r.command_name == e.command_name,
        r.request_id == e.request_id,
        r.connection_id == e.connection.id,
        r.connection_server_id == server_id_or_unset(e.connection.server_id),
        r.connection_address@ == address_text(e.connection.address),
        r.has_service_id == e.service_id is Some,
        e.service_id matches Some(b) ==> r.service_id@ == b@,
        e.service_id is None ==> forall|i: int| 0 <= i < 12 ==> r.service_id@[i] == 0u8,
        r.duration_nanos == e.duration_nanos as u64,
        reports(r.failure, e.failure),
{
    let (service_id, has_service_id) = service_id_bytes(e.service_id.as_ref());
    FfiCommandFailedEvent {
        command_name: e.command_name.clone(),
        request_id: e.request_id,
        connection_id: e.connection.id,
        connection_server_id: server_id_value(e.connection.server_id),
        connection_address: format_address(&e.connection.address),
        service_id,
        has_service_id,
        duration_nanos: e.duration_nanos as u64,
        failure: Error::from_driver_error(&e.failure),
    }
}

/// Which callbacks the caller registered; an unregistered event is ignored.
#[derive(PartialEq, Eq, Structural, Clone, Copy, Debug)]
pub struct MongoCommandEventHandler {
    pub started: bool,
    pub succeeded: bool,
    pub failed: bool,
}

/// The kind of a command event.
#[derive(PartialEq, Eq, Structural, Clone, Copy, Debug)]
pub enum CommandEventKind {
    Started,
    Succeeded,
    Failed,
}

/// Whether an event of kind `k` is delivered to the caller.
pub fn delivers(handler: &MongoCommandEventHandler, k: CommandEventKind) -> (r: bool)
    ensures
        r == match k {
            CommandEventKind::Started => handler.started,
            CommandEventKind::Succeeded => handler.succeeded,
            CommandEventKind::Failed => handler.failed,
        },
{
    match k {
        CommandEventKind::Started => handler.started,
        CommandEventKind::Succeeded => handler.succeeded,
        CommandEventKind::Failed => handler.failed,
    }
}

} // verus!
