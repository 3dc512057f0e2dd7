//! Verified core of a C-facing layer over a MongoDB driver: argument decoding,
//! option building, error classification, cursor and change-stream state.

pub mod ffi_utils;
pub mod text;
pub mod error;
pub mod options;
pub mod address;
pub mod bson_frame;
pub mod ffi_types;
pub mod ffi_context;
pub mod ffi_error;
pub mod ffi_client;
pub mod ffi_operations;
pub mod ffi_cursor;
pub mod ffi_call;
pub mod ffi_event;
pub mod change_stream;
pub mod session_cursor;
pub mod event_buffer;
pub mod sdam_server;
pub mod cmap_options;
pub mod query_text;
pub mod telemetry;
pub mod csfle;
pub mod list_databases;
pub mod watch;
pub mod ecs_pool;
pub mod binary_log;
