use std::time::Duration;

use bson::RawDocumentBuf;
use mongo_ffi_core::binary_log::BinaryLog;
use mongo_ffi_core::cmap_options::{background_thread_interval_from_millis, BackgroundThreadInterval, ConnectionPoolOptions};
use mongo_ffi_core::csfle::{
    check_decrypt_subtype, decrypted_value, key_cache_expiration_millis, AwsMasterKey, KmsProviderKind, LocalMasterKey, MasterKey,
};
use mongo_ffi_core::ecs_pool::ConnectionWorld;
use mongo_ffi_core::ffi_call::{call_step, CallAction, CallEvent, CallPhase};
use mongo_ffi_core::error::{DriverError, ErrorKind};
use mongo_ffi_core::event_buffer::EventLog;
use mongo_ffi_core::ffi_context::SessionHandle;
use mongo_ffi_core::ffi_error::{Error, ErrorPayload, ErrorType, ServerError};
use mongo_ffi_core::list_databases::database_names;
use mongo_ffi_core::options::{ClientOptions, Credential, ServerAddress};
use mongo_ffi_core::sdam_server::{AddressKey, IpAddress, OperationCount, SdamServerAddress, ServerHost};
use mongo_ffi_core::session_cursor::{RawCursor, SessionCursor};
use mongo_ffi_core::telemetry::{
    common_attrs, op_target, otel_enabled, otel_query_text_max_length, parse_usize, AttrValue, OperationTarget,
};
use mongo_ffi_core::watch::{AggregateTarget, Watch};

fn client_options(hosts: Vec<ServerAddress>) -> ClientOptions {
    ClientOptions {
        hosts,
        app_name: None,
        repl_set_name: None,
        srv_service_name: None,
        direct_connection: None,
        load_balanced: Some(true),
        max_pool_size: Some(20),
        min_pool_size: Some(2),
        srv_max_hosts: None,
        max_connecting: Some(3),
        max_idle_time: Some(Duration::from_millis(500)),
        connect_timeout: None,
        server_selection_timeout: None,
        local_threshold: None,
        heartbeat_freq: None,
        credential: Some(Credential {
            username: Some("u".to_string()),
            source: None,
            password: Some("p".to_string()),
            mechanism: None,
        }),
        tls: None,
        selection_criteria: None,
        compressors: None,
    }
}

fn text(v: &AttrValue) -> String {
    match v {
        AttrValue::Str(s) => s.clone(),
        AttrValue::Int(i) => i.to_string(),
    }
}

#[test]
fn session_cursor_stream_lends_and_returns_state() {
    let raw = RawCursor {
        id: 12,
        address: ServerAddress::Tcp { host: "a".to_string(), port: None },
        drop_address: None,
    };
    let mut c: SessionCursor<u8> = SessionCursor::new(raw, vec![vec![1, 2], vec![3]]);
    assert_eq!(c.current(), &vec![1, 2]);
    let s = c.stream(SessionHandle(4));
    assert!(c.state.is_none());
    assert_eq!(s.session.0, 4);
    assert_eq!(s.state.buffer.len(), 2);
    s.finish(&mut c);
    assert_eq!(c.state().buffer, vec![vec![1, 2], vec![3]]);
    c.state_mut().buffer.remove(0);
    assert_eq!(c.current(), &vec![3]);
    c.set_drop_address(ServerAddress::Unix { path: "/tmp/s".to_string() });
    assert!(matches!(c.raw.drop_address, Some(ServerAddress::Unix { .. })));
    assert!(matches!(c.address(), ServerAddress::Tcp { .. }));
}

#[test]
fn cursor_holds_what_the_last_stream_left() {
    let raw = RawCursor {
        id: 3,
        address: ServerAddress::Tcp { host: "b".to_string(), port: Some(1) },
        drop_address: None,
    };
    let mut c: SessionCursor<u8> = SessionCursor::new(raw, vec![vec![1], vec![2], vec![3]]);
    let mut s = c.stream(SessionHandle(1));
    s.state.buffer.remove(0);
    s.finish(&mut c);
    let mut s = c.stream(SessionHandle(2));
    s.state.buffer.remove(0);
    s.finish(&mut c);
    assert_eq!(c.state().buffer, vec![vec![3]]);
    assert_eq!(c.raw.id, 3);
}

#[test]
fn event_log_take_returns_everything_in_order() {
    let mut log: EventLog<u32> = EventLog::new();
    log.push(1);
    log.push(2);
    log.push(3);
    assert_eq!(log.generation, 0);
    assert_eq!(log.get(), vec![1, 2, 3]);
    assert_eq!(log.get_timed().len(), 3);
    assert_eq!(log.filter_map(|x| if x % 2 == 1 { Some(x * 10) } else { None }), vec![10, 30]);
    let taken = log.take();
    assert_eq!(taken, vec![1, 2, 3]);
    assert_eq!(log.generation, 1);
    assert!(log.get().is_empty());
}

#[test]
fn event_log_retain_and_clear_start_new_generations() {
    let mut log: EventLog<u32> = EventLog::new();
    for i in 0..6 {
        log.push(i);
    }
    log.retain(|x| *x >= 3);
    assert_eq!(log.get(), vec![3, 4, 5]);
    assert_eq!(log.generation, 1);
    log.clear();
    assert!(log.get().is_empty());
    assert_eq!(log.generation, 2);
}

#[test]
fn server_addresses_compare_with_default_port() {
    let a = SdamServerAddress::Tcp { host: ServerHost::Name("db".to_string()), port: None };
    let b = SdamServerAddress::Tcp { host: ServerHost::Name("db".to_string()), port: Some(27017) };
    let c = SdamServerAddress::Tcp { host: ServerHost::Name("db".to_string()), port: Some(27018) };
    assert!(a == b);
    assert!(a != c);
    assert_eq!(a.key(), b.key());
    assert_ne!(a.key(), c.key());
    assert_eq!(a.key(), AddressKey::Name("db".to_string(), 27017));

    let ip1 = SdamServerAddress::Tcp {
        host: ServerHost::Ip { addr: IpAddress::V4(0x7f000001), text: "127.0.0.1".to_string() },
        port: Some(1),
    };
    let ip2 = SdamServerAddress::Tcp {
        host: ServerHost::Ip { addr: IpAddress::V4(0x7f000001), text: "127.000.0.1".to_string() },
        port: Some(1),
    };
    assert!(ip1 == ip2);
    let unix = SdamServerAddress::Unix { path: "/s".to_string() };
    assert!(unix != a);
}

#[test]
fn server_address_conversion_and_display() {
    let from_name = SdamServerAddress::from_address(ServerAddress::Tcp { host: "db".to_string(), port: Some(5) }, None);
    match from_name.display() {
        ServerAddress::Tcp { host, port } => {
            assert_eq!(host, "db");
            assert_eq!(port, Some(5));
        }
        _ => panic!("a TCP address stays TCP"),
    }
    let from_ip = SdamServerAddress::from_address(
        ServerAddress::Tcp { host: "::1".to_string(), port: None },
        Some((IpAddress::V6(1), "::1".to_string())),
    );
    assert!(matches!(from_ip, SdamServerAddress::Tcp { host: ServerHost::Ip { .. }, .. }));
    let d = SdamServerAddress::default();
    assert!(d == SdamServerAddress::Tcp { host: ServerHost::Name("localhost".to_string()), port: Some(27017) });
}

#[test]
fn operation_count_wraps_like_the_atomic() {
    let mut c = OperationCount::new(0);
    c.increment();
    c.increment();
    assert_eq!(c.get(), 2);
    c.decrement();
    assert_eq!(c.get(), 1);
    let mut z = OperationCount::new(0);
    z.decrement();
    assert_eq!(z.get(), u32::MAX);
    z.increment();
    assert_eq!(z.get(), 0);
}

#[test]
fn pool_options_follow_the_client() {
    let opts = client_options(vec![ServerAddress::Tcp { host: "h".to_string(), port: Some(1) }]);
    let pool = ConnectionPoolOptions::from_client_options(&opts);
    assert_eq!(pool.max_pool_size, Some(20));
    assert_eq!(pool.min_pool_size, Some(2));
    assert_eq!(pool.max_connecting, Some(3));
    assert_eq!(pool.load_balanced, Some(true));
    assert_eq!(pool.max_idle_time, Some(Duration::from_millis(500)));
    assert!(pool.ready.is_none());
    assert_eq!(pool.credential.as_ref().unwrap().username.as_deref(), Some("u"));
    let ev = pool.to_event_options();
    assert_eq!(ev.max_pool_size, Some(20));
    assert_eq!(ev.min_pool_size, Some(2));
    assert_eq!(ev.max_idle_time, Some(Duration::from_millis(500)));
}

#[test]
fn background_interval_from_millis() {
    assert!(matches!(background_thread_interval_from_millis(-5), Ok(BackgroundThreadInterval::Never)));
    assert_eq!(background_thread_interval_from_millis(0).err().unwrap(), "zero is not allowed");
    match background_thread_interval_from_millis(250) {
        Ok(BackgroundThreadInterval::Every(d)) => assert_eq!(d, Duration::from_millis(250)),
        _ => panic!("a positive interval"),
    }
}

#[test]
fn operation_targets_and_common_attributes() {
    let coll = OperationTarget { database: "db".to_string(), collection: Some("c".to_string()) };
    assert_eq!(op_target(&coll), "db.c");
    let db = OperationTarget { database: "db".to_string(), collection: None };
    assert_eq!(op_target(&db), "db");
    assert_eq!(op_target(&OperationTarget::admin()), "admin");

    let attrs = common_attrs(&coll);
    let pairs: Vec<(String, String)> = attrs.iter().map(|a| (a.key.clone(), text(&a.value))).collect();
    assert_eq!(
        pairs,
        vec![
            ("db.system".to_string(), "mongodb".to_string()),
            ("db.namespace".to_string(), "db".to_string()),
            ("db.collection.name".to_string(), "c".to_string()),
        ]
    );
    assert_eq!(common_attrs(&db).len(), 2);
}

#[test]
fn tracing_settings_fall_back_to_the_environment() {
    assert!(otel_enabled(Some(true), None));
    assert!(!otel_enabled(Some(false), Some("1")));
    assert!(otel_enabled(None, Some("yes")));
    assert!(otel_enabled(None, Some("true")));
    assert!(!otel_enabled(None, Some("TRUE")));
    assert!(!otel_enabled(None, None));

    assert_eq!(otel_query_text_max_length(Some(5), Some("9")), 5);
    assert_eq!(otel_query_text_max_length(None, Some("9")), 9);
    assert_eq!(otel_query_text_max_length(None, Some("nine")), 0);
    assert_eq!(otel_query_text_max_length(None, None), 0);
}

#[test]
fn parse_usize_matches_std() {
    for s in ["0", "42", "+7", "", "+", "-1", "1_0", " 3", "18446744073709551615", "18446744073709551616", "007"] {
        assert_eq!(parse_usize(s), s.parse::<usize>().ok(), "parsing {:?}", s);
    }
}

#[test]
fn master_key_provider_and_name() {
    let k: MasterKey = LocalMasterKey { name: None }.into();
    assert_eq!(k.provider(), (KmsProviderKind::Local, None));
    let aws: MasterKey = AwsMasterKey {
        name: Some("east".to_string()),
        region: "us-east-1".to_string(),
        key: "arn".to_string(),
        endpoint: None,
    }
    .into();
    assert_eq!(aws.provider(), (KmsProviderKind::Aws, Some("east".to_string())));
}

#[test]
fn key_cache_expiration_in_millis() {
    assert_eq!(key_cache_expiration_millis(None).unwrap(), None);
    assert_eq!(key_cache_expiration_millis(Some(Duration::from_secs(60))).unwrap(), Some(60000));
    let err = key_cache_expiration_millis(Some(Duration::MAX)).err().expect("too long");
    match err.kind {
        ErrorKind::InvalidArgument { message } => {
            assert_eq!(
                message,
                format!("key_cache_expiration must not exceed 18446744073709551615 milliseconds, got {:?}", Duration::MAX)
            )
        }
        _ => panic!("expected an invalid-argument error"),
    }
}

#[test]
fn database_names_in_order() {
    let mut a = RawDocumentBuf::new();
    a.append("name", "admin");
    let mut b = RawDocumentBuf::new();
    b.append("name", "local");
    b.append("sizeOnDisk", 1i64);
    let docs = vec![a.into_bytes(), b.into_bytes()];
    assert_eq!(database_names(&docs).unwrap(), vec!["admin".to_string(), "local".to_string()]);

    let mut c = RawDocumentBuf::new();
    c.append("name", 5i32);
    let err = database_names(&vec![c.into_bytes()]).err().expect("name is not a string");
    match err.kind {
        ErrorKind::InvalidResponse { message } => {
            assert_eq!(message, "Expected \"name\" field in server response, but it was not found")
        }
        _ => panic!("expected an invalid-response error"),
    }
}

#[test]
fn cluster_watch_asks_for_all_changes() {
    let w = Watch::new_cluster();
    assert!(matches!(&w.target, AggregateTarget::Database(d) if d == "admin"));
    let opts = w.execution_options().expect("a cluster watch has options");
    assert_eq!(opts.all_changes_for_cluster, Some(true));

    let w = Watch::new(AggregateTarget::Collection { db: "d".to_string(), coll: "c".to_string() })
        .session(SessionHandle(2))
        .pipeline(vec![bson::Document::new()]);
    assert_eq!(w.pipeline.len(), 1);
    assert_eq!(w.session.as_ref().map(|s| s.0), Some(2));
    assert!(w.execution_options().is_none());
}

#[test]
fn connection_world_checks_out_and_in() {
    let mut w = ConnectionWorld::new();
    assert!(w.check_out_connection().is_none());
    let i = w.add_checked_out();
    assert!(w.check_out_connection().is_none());
    w.check_in(i);
    assert_eq!(w.check_out_connection(), Some(i));
    assert!(w.check_out_connection().is_none());

    let opts = client_options(vec![
        ServerAddress::Tcp { host: "h1".to_string(), port: Some(1) },
        ServerAddress::Tcp { host: "h2".to_string(), port: Some(2) },
    ]);
    let p0 = w.new_pending_connection(&opts);
    let p1 = w.new_pending_connection(&opts);
    assert_eq!((p0.id, p1.id), (0, 1));
    assert!(matches!(&p0.address, ServerAddress::Tcp { host, port: Some(1) } if host == "h1"));
}

#[test]
fn binary_log_writes_succeed() {
    let mut log = BinaryLog::new();
    assert!(log.write("label", &5u8).is_ok());
}

#[test]
fn server_error_from_command_error_keeps_labels() {
    let mut e = DriverError::new(ErrorKind::Command { code: 11000, code_name: "DuplicateKey".to_string(), message: "dup".to_string() });
    e.labels.push("RetryableWriteError".to_string());
    let s = ServerError::from_command_error(11000, &"DuplicateKey".to_string(), &"dup".to_string(), &e);
    assert_eq!(s.code, 11000);
    assert_eq!(s.labels, vec!["RetryableWriteError".to_string()]);
    let reported = Error::from_driver_error(&e);
    assert_eq!(reported.error_type, ErrorType::Server.code());
    assert!(matches!(reported.error, ErrorPayload::Server(_)));
}

#[test]
fn unhandled_errors_are_invalid_arguments() {
    let e = DriverError::new(ErrorKind::Internal { message: "boom".to_string() });
    let reported = Error::from_driver_error(&e);
    match reported.error {
        ErrorPayload::InvalidArgument(x) => assert_eq!(x.message, "Unhandled error: boom"),
        _ => panic!("expected an invalid-argument payload"),
    }
    let shut = Error::from_driver_error(&DriverError::new(ErrorKind::Shutdown));
    assert_eq!(shut.error_type, ErrorType::Shutdown.code());
}

#[test]
fn decrypt_accepts_only_encrypted_values() {
    assert!(check_decrypt_subtype(6).is_ok());
    for (t, name) in [(0u8, "Generic"), (4, "Uuid"), (20, "Reserved(20)"), (200, "UserDefined(200)")] {
        match check_decrypt_subtype(t).err().expect("not encrypted").kind {
            ErrorKind::InvalidArgument { message } => {
                assert_eq!(message, format!("Invalid binary subtype for decrypt: expected Encrypted, got {}", name))
            }
            _ => panic!("expected an invalid-argument error"),
        }
    }
}

#[test]
fn decrypted_value_is_the_v_field() {
    let mut d = RawDocumentBuf::new();
    d.append("v", 5i32);
    assert_eq!(decrypted_value(d.as_bytes()).unwrap(), bson::RawBson::Int32(5));
    let empty = RawDocumentBuf::new();
    match decrypted_value(empty.as_bytes()).err().expect("no v").kind {
        ErrorKind::Internal { message } => assert_eq!(message, "invalid decryption result"),
        _ => panic!("expected an internal error"),
    }
}

#[test]
fn a_call_answers_its_callback_exactly_once() {
    let (p, a) = call_step::<u32>(CallPhase::Checking, CallEvent::Checked(Ok(())));
    assert_eq!(p, CallPhase::Running);
    assert!(matches!(a, CallAction::Start));
    let (p, a) = call_step::<u32>(p, CallEvent::Completed(Ok(7)));
    assert_eq!(p, CallPhase::Finished);
    assert!(matches!(a, CallAction::Deliver(Some(7), None)));
    let (p, a) = call_step::<u32>(p, CallEvent::Completed(Ok(8)));
    assert_eq!(p, CallPhase::Finished);
    assert!(matches!(a, CallAction::Ignore));

    let refused = Error::from_driver_error(&DriverError::new(ErrorKind::InvalidArgument {
        message: "client cannot be null".to_string(),
    }));
    let (p, a) = call_step::<u32>(CallPhase::Checking, CallEvent::Checked(Err(refused)));
    assert_eq!(p, CallPhase::Finished);
    assert!(matches!(a, CallAction::Deliver(None, Some(_))));
}
