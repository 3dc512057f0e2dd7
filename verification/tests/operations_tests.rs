use std::time::Duration;

use bson::{RawBson, RawDocumentBuf};
use mongo_ffi_core::error::{DriverError, ErrorKind};
use mongo_ffi_core::ffi_client::{build_client_options, AuthSettings, ConnectionSettings, TlsSettings};
use mongo_ffi_core::ffi_cursor::{
    callback_arguments, cursor_result, dispatcher_update, distinct_result, get_more_check, get_more_outcome,
    insert_many_result, insert_one_result, CursorKind, CursorState, PendingCallback,
};
use mongo_ffi_core::ffi_operations::{
    collection_target, database_target, distinct_target, parse_aggregate_options, pipeline_from_array,
    run_command_args,
    AggregateOptions, Hint,
};
use mongo_ffi_core::ffi_types::{ArrayItem, Bson, BsonValue};
use mongo_ffi_core::options::{AuthMechanism, Compressor, ServerAddress, Tls};

fn message(e: DriverError) -> String {
    match e.kind {
        ErrorKind::InvalidArgument { message } | ErrorKind::InvalidResponse { message } => message,
        _ => panic!("expected an error with a message"),
    }
}

fn settings(hosts: &str) -> ConnectionSettings {
    ConnectionSettings {
        hosts: Some(hosts.as_bytes().to_vec()),
        app_name: None,
        compressors: None,
        direct_connection: false,
        load_balanced: false,
        max_pool_size: -1,
        min_pool_size: -1,
        max_idle_time_ms: -1,
        connect_timeout_ms: -1,
        socket_timeout_ms: -1,
        server_selection_timeout_ms: -1,
        local_threshold_ms: -1,
        heartbeat_frequency_ms: -1,
        replica_set: None,
        read_preference_mode: 255,
        srv_service_name: None,
        srv_max_hosts: -1,
    }
}

fn doc(key: &str, v: i32) -> Vec<u8> {
    let mut d = RawDocumentBuf::new();
    d.append(key, v);
    d.into_bytes()
}

#[test]
fn client_options_minimal() {
    let o = build_client_options(Some(&settings("localhost:27017")), None, None).expect("minimal settings");
    assert!(matches!(&o.hosts[..], [ServerAddress::Tcp { host, port: Some(27017) }] if host == "localhost"));
    assert!(o.max_pool_size.is_none() && o.selection_criteria.is_none() && o.credential.is_none());
    assert_eq!(
        message(build_client_options(None, None, None).err().unwrap()),
        "connection_settings cannot be null"
    );
}

#[test]
fn client_options_maximal() {
    let mut c = settings("localhost:27017,localhost:27018,localhost:27019");
    c.app_name = Some(b"test_app".to_vec());
    c.compressors = Some(b"zstd,zlib,snappy".to_vec());
    c.max_pool_size = 100;
    c.min_pool_size = 10;
    c.max_idle_time_ms = 60000;
    c.connect_timeout_ms = 10000;
    c.server_selection_timeout_ms = 30000;
    c.local_threshold_ms = 15;
    c.replica_set = Some(b"rs0".to_vec());
    c.read_preference_mode = 1;
    let auth = AuthSettings {
        mechanism: Some(b"SCRAM-SHA-256".to_vec()),
        username: Some(b"testuser".to_vec()),
        password: Some(b"testpass".to_vec()),
        source: Some(b"admin".to_vec()),
    };
    let tls = TlsSettings {
        enabled: true,
        allow_invalid_certificates: true,
        allow_invalid_hostnames: false,
        ca_file: None,
        cert_file: None,
        cert_key_file: None,
    };
    let o = build_client_options(Some(&c), Some(&auth), Some(&tls)).expect("maximal settings");
    assert_eq!(o.hosts.len(), 3);
    assert_eq!(o.app_name.as_deref(), Some("test_app"));
    assert_eq!(o.max_pool_size, Some(100));
    assert_eq!(o.min_pool_size, Some(10));
    assert_eq!(o.max_idle_time, Some(Duration::from_millis(60000)));
    assert_eq!(o.local_threshold, Some(Duration::from_millis(15)));
    assert_eq!(o.repl_set_name.as_deref(), Some("rs0"));
    let cred = o.credential.expect("auth settings were given");
    assert_eq!(cred.username.as_deref(), Some("testuser"));
    assert!(matches!(cred.mechanism, Some(AuthMechanism::ScramSha256)));
    assert_eq!(cred.password.as_deref(), Some("testpass"));
    assert_eq!(cred.source.as_deref(), Some("admin"));
    match o.tls {
        Some(Tls::Enabled(t)) => {
            assert_eq!(t.allow_invalid_certificates, Some(true));
            assert!(t.ca_file_path.is_none());
            assert!(t.cert_key_file_path.is_none());
        }
        _ => panic!("expected TLS enabled"),
    }
    let comps = o.compressors.expect("compressors were given");
    assert_eq!(comps.len(), 3);
    assert!(matches!(comps[0], Compressor::Zstd { level: None }));
    assert!(matches!(comps[1], Compressor::Zlib { level: None }));
    assert!(matches!(comps[2], Compressor::Snappy));
}

#[test]
fn client_options_errors() {
    assert!(build_client_options(Some(&settings("")), None, None).is_err());
    let mut c = settings("h:1");
    c.read_preference_mode = 7;
    assert!(build_client_options(Some(&c), None, None).is_err());
    let mut c = settings("h:1");
    c.compressors = Some(b"lz4".to_vec());
    assert!(build_client_options(Some(&c), None, None).is_err());
}

#[test]
fn get_more_checks_in_order() {
    let base = CursorState { kind: CursorKind::Base, in_use: false };
    let with_session = CursorState { kind: CursorKind::Session, in_use: false };
    assert_eq!(message(get_more_check(false, Some(base), false).err().unwrap()), "client cannot be null");
    assert_eq!(message(get_more_check(true, None, false).err().unwrap()), "cursor cannot be null");
    assert_eq!(
        message(get_more_check(true, Some(CursorState { kind: CursorKind::Base, in_use: true }), false).err().unwrap()),
        "cannot iterate on a cursor already in use"
    );
    assert_eq!(
        message(get_more_check(true, Some(base), true).err().unwrap()),
        "cursors created without a session must not be iterated with one"
    );
    assert_eq!(
        message(get_more_check(true, Some(with_session), false).err().unwrap()),
        "cursors created with a session must be iterated with that session"
    );
    assert!(get_more_check(true, Some(base), false).is_ok());
    assert!(get_more_check(true, Some(with_session), true).is_ok());
}

#[test]
fn get_more_outcome_requires_a_batch() {
    assert_eq!(message(get_more_outcome(None, false).err().unwrap()), "no batch returned for unexhausted cursor");
    let (exhausted, b) = get_more_outcome(Some(Ok(doc("a", 1))), true).unwrap();
    assert!(exhausted);
    assert_eq!(b.data, doc("a", 1));
}

#[test]
fn cursor_result_drops_an_exhausted_cursor() {
    let (docs, res) = cursor_result(5u8, true, Some(Ok(vec![ArrayItem::Document(doc("a", 1))]))).unwrap();
    assert_eq!(docs.len(), 1);
    assert!(res.cursor.is_none() && res.exhausted);
    let (docs, res) = cursor_result(5u8, false, None).unwrap();
    assert!(docs.is_empty());
    assert_eq!(res.cursor, Some(5));
    assert!(res.first_batch.data.is_null());
}

#[test]
fn targets_and_names() {
    assert_eq!(message(collection_target(false, None, None).err().unwrap()), "client cannot be null");
    assert_eq!(message(collection_target(true, None, None).err().unwrap()), "db_name cannot be null");
    assert_eq!(
        message(collection_target(true, Some(b"db".as_slice()), None).err().unwrap()),
        "coll_name cannot be null"
    );
    let t = collection_target(true, Some(b"db".as_slice()), Some(b"c".as_slice())).unwrap();
    assert_eq!((t.db_name.as_str(), t.coll_name.as_str()), ("db", "c"));
    assert_eq!(database_target(true, Some(b"x".as_slice())).unwrap(), "x");
}

#[test]
fn run_command_arguments() {
    let cmd = Bson { data: doc("ping", 1) };
    assert_eq!(message(run_command_args(false, None, None, None).err().unwrap()), "client cannot be null");
    assert_eq!(message(run_command_args(true, None, Some(b"test".as_slice()), None).err().unwrap()), "command cannot be null");
    assert!(run_command_args(true, None, None, Some(&cmd)).is_err());
    let a = run_command_args(true, None, Some(b"test".as_slice()), Some(&cmd)).unwrap();
    assert_eq!(a.db_name, "test");
    assert_eq!(a.command, doc("ping", 1));
    assert!(a.session.is_none());
}

#[test]
fn aggregate_options_defaults_and_values() {
    let s = parse_aggregate_options(None, None).unwrap();
    assert!(s.batch_size.is_none() && s.max_time.is_none() && s.hint.is_none());
    let o = AggregateOptions {
        allow_disk_use: 1,
        batch_size: 10,
        bypass_document_validation: -1,
        collation: None,
        comment: None,
        hint_name: Some(b"idx".to_vec()),
        hint_keys: None,
        max_time_ms: 500,
        let_vars: None,
    };
    let s = parse_aggregate_options(Some(&o), None).unwrap();
    assert_eq!(s.allow_disk_use, Some(true));
    assert_eq!(s.batch_size, Some(10));
    assert_eq!(s.bypass_document_validation, None);
    assert_eq!(s.max_time, Some(Duration::from_millis(500)));
    assert!(s.hint.is_some());
}

#[test]
fn pipeline_stages_must_be_documents() {
    let ok = vec![Bson { data: doc("$match", 1) }];
    assert_eq!(pipeline_from_array(&ok).unwrap().len(), 1);
    let bad = vec![Bson { data: vec![1, 2, 3] }];
    assert!(pipeline_from_array(&bad).is_err());
    let two = vec![Bson { data: doc("$match", 1) }, Bson { data: doc("$limit", 2) }];
    let stages = pipeline_from_array(&two).unwrap();
    assert_eq!(stages[0].data, doc("$match", 1));
    assert_eq!(stages[1].data, doc("$limit", 2));
}

#[test]
fn callbacks_get_exactly_one_argument() {
    let ok: Result<u8, String> = Ok(3);
    assert_eq!(callback_arguments(&ok), (Some(&3), None));
    let err: Result<u8, String> = Err("e".to_string());
    assert_eq!(callback_arguments(&err), (None, Some(&"e".to_string())));
    let pending = PendingCallback::new(ok);
    assert_eq!(pending.invoke(), (Some(3), None));
    assert!(dispatcher_update(0, 9).is_none());
    assert_eq!(dispatcher_update(4, 9).map(|d| (d.dispatch_fn, d.context)), Some((4, 9)));
}

#[test]
fn insert_and_distinct_results_encode_values() {
    let one = insert_one_result(&RawBson::Int32(4));
    assert_eq!(one.inserted_id.0.bson_type, 0x10);
    assert_eq!(one.inserted_id.0.data, vec![4, 0, 0, 0]);

    let many = insert_many_result(&vec![(0, RawBson::Int32(1)), (2, RawBson::String("x".to_string()))]);
    assert_eq!(many.inserted_ids.len(), 2);
    assert_eq!(many.inserted_ids[1].index, 2);
    assert_eq!(many.inserted_ids[1].id.0.to_bson().unwrap(), Some(RawBson::String("x".to_string())));

    let d = distinct_result(&vec![RawBson::Boolean(false), RawBson::Int64(9)]);
    assert_eq!(d.values.len(), 2);
    assert_eq!(d.values[1].0.to_bson().unwrap(), Some(RawBson::Int64(9)));
}

#[test]
fn test_client_new_error_handling() {
    let err = build_client_options(Some(&settings("invalid:host:port:format")), None, None)
        .err()
        .expect("Client creation should fail with invalid hosts");
    assert!(matches!(err.kind, ErrorKind::InvalidArgument { .. }));
}

#[test]
fn server_addresses_parse() {
    let a = ServerAddress::parse("LocalHost:27017").unwrap();
    assert!(matches!(&a, ServerAddress::Tcp { host, port: Some(27017) } if host == "localhost"));
    let b = ServerAddress::parse("db").unwrap();
    assert!(matches!(&b, ServerAddress::Tcp { host, port: None } if host == "db"));
    let c = ServerAddress::parse("[::1]:5").unwrap();
    assert!(matches!(&c, ServerAddress::Tcp { host, port: Some(5) } if host == "::1"));
    let d = ServerAddress::parse("/tmp/mongodb-27017.sock").unwrap();
    assert!(matches!(&d, ServerAddress::Unix { path } if path == "/tmp/mongodb-27017.sock"));
    for bad in ["h:0", "h:70000", "h:x", ":1", "[::1", "[::1]x", "a:b:c"] {
        assert!(matches!(ServerAddress::parse(bad).err().unwrap().kind, ErrorKind::InvalidArgument { .. }), "{}", bad);
    }
    assert_eq!(
        message(ServerAddress::parse(":1").err().unwrap()),
        "invalid server address :1: the hostname cannot be empty"
    );
}

#[test]
fn name_failures_are_invalid_arguments() {
    let err = collection_target(true, Some([0xffu8].as_slice()), None).err().unwrap();
    assert!(message(err).starts_with("Invalid UTF-8 in C string: "));
    let cmd = Bson { data: doc("ping", 1) };
    assert_eq!(message(run_command_args(true, None, None, Some(&cmd)).err().unwrap()), "db_name cannot be null");
    assert_eq!(
        message(distinct_target(true, Some(b"d".as_slice()), Some(b"c".as_slice()), None).err().unwrap()),
        "field_name cannot be null"
    );
    let t = distinct_target(true, Some(b"d".as_slice()), Some(b"c".as_slice()), Some(b"f".as_slice())).unwrap();
    assert_eq!(t.field_name, "f");
}

#[test]
fn well_formed_options_are_accepted() {
    let o = AggregateOptions {
        allow_disk_use: -1,
        batch_size: -1,
        bypass_document_validation: -1,
        collation: Some(Bson { data: doc("locale", 1) }),
        comment: None,
        hint_name: None,
        hint_keys: Some(Bson { data: doc("a", 1) }),
        max_time_ms: -1,
        let_vars: Some(Bson { data: vec![5, 0, 0, 0, 0] }),
    };
    let settings = parse_aggregate_options(Some(&o), None).expect("well-formed options");
    assert_eq!(settings.collation.expect("collation given").data, doc("locale", 1));
    assert_eq!(settings.let_vars.expect("let given").data, vec![5, 0, 0, 0, 0]);
    match settings.hint {
        Some(Hint::Keys(k)) => assert_eq!(k.data, doc("a", 1)),
        _ => panic!("expected a key-pattern hint"),
    }
    let with_comment = AggregateOptions {
        allow_disk_use: -1,
        batch_size: -1,
        bypass_document_validation: -1,
        collation: None,
        comment: Some(BsonValue { data: vec![3, 0, 0, 0, b'h', b'i', 0], bson_type: 0x02 }),
        hint_name: None,
        hint_keys: None,
        max_time_ms: -1,
        let_vars: None,
    };
    let c = parse_aggregate_options(Some(&with_comment), None).expect("a string comment").comment;
    assert_eq!(c, Some(RawBson::String("hi".to_string())));
    let bad = AggregateOptions { let_vars: Some(Bson { data: vec![9, 9] }), ..o };
    assert!(parse_aggregate_options(Some(&bad), None).is_err());
}
