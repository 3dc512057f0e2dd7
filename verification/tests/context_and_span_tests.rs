use std::time::Duration;

use mongo_ffi_core::error::{DriverError, ErrorKind};
use mongo_ffi_core::ffi_context::{
    read_concern_create, write_concern_create, ReadConcernOptions, WriteConcernOptions,
};
use mongo_ffi_core::ffi_error::ErrorType;
use mongo_ffi_core::csfle::{key_vault_collection, Namespace};
use mongo_ffi_core::ffi_event::{
    delivers, format_address, service_id_bytes, started_event, CommandEventKind, CommandStarted, EventConnection,
    MongoCommandEventHandler,
};
use mongo_ffi_core::ffi_types::value_encodable;
use mongo_ffi_core::ffi_operations::filter_document;
use mongo_ffi_core::options::{Acknowledgment, ReadConcernLevel, ServerAddress};
use mongo_ffi_core::telemetry::{
    command_span, error_attrs, operation_span, transaction_span, AttrValue, CommandAttributes,
    CommandInfo, ConnectionDetails, OperationTarget,
};
use mongo_ffi_core::query_text::{query_text, redact_fields, truncate_text};
use mongo_ffi_core::watch::{operation_target, AggregateTarget, Watch};

fn document_bytes(doc: &bson::Document) -> Vec<u8> {
    let mut bytes = Vec::new();
    doc.to_writer(&mut bytes).unwrap();
    bytes
}

fn ping_command() -> Vec<u8> {
    let mut lsid = bson::Document::new();
    lsid.insert("id", 5i32);
    let mut doc = bson::Document::new();
    doc.insert("ping", 1i32);
    doc.insert("lsid", lsid);
    doc.insert("$db", "admin");
    document_bytes(&doc)
}

fn pairs(attrs: &[mongo_ffi_core::telemetry::Attr]) -> Vec<(String, String)> {
    attrs
        .iter()
        .map(|a| {
            let v = match &a.value {
                AttrValue::Str(s) => s.clone(),
                AttrValue::Int(i) => format!("#{}", i),
            };
            (a.key.clone(), v)
        })
        .collect()
}

fn kv(k: &str, v: &str) -> (String, String) {
    (k.to_string(), v.to_string())
}

#[test]
fn error_type_codes_round_trip() {
    let all = [
        ErrorType::Server,
        ErrorType::InsertMany,
        ErrorType::BulkWrite,
        ErrorType::Io,
        ErrorType::ServerSelection,
        ErrorType::Timeout,
        ErrorType::Auth,
        ErrorType::InvalidArgument,
        ErrorType::Transaction,
        ErrorType::IncompatibleServer,
        ErrorType::InvalidResponse,
        ErrorType::ChangeStream,
        ErrorType::Shutdown,
    ];
    for (i, t) in all.iter().enumerate() {
        assert_eq!(t.code() as usize, i);
        assert_eq!(ErrorType::from_code(t.code()), Some(*t));
    }
    assert_eq!(ErrorType::from_code(13), None);
}

#[test]
fn read_concern_levels_by_name() {
    let rc = read_concern_create(Some(&ReadConcernOptions { level: Some(b"majority".to_vec()) })).unwrap();
    assert!(matches!(rc.level, ReadConcernLevel::Majority));
    let rc = read_concern_create(Some(&ReadConcernOptions { level: Some(b"mine".to_vec()) })).unwrap();
    assert!(matches!(rc.level, ReadConcernLevel::Custom(ref s) if s == "mine"));
    assert!(read_concern_create(Some(&ReadConcernOptions { level: None })).is_none());
    assert!(read_concern_create(None).is_none());
    assert!(read_concern_create(Some(&ReadConcernOptions { level: Some(vec![0xff]) })).is_none());
}

#[test]
fn write_concern_from_options() {
    let wc = write_concern_create(Some(&WriteConcernOptions { w: 2, w_tag: None, journal: 1, w_timeout_ms: 5000 })).unwrap();
    assert!(matches!(wc.w, Some(Acknowledgment::Nodes(2))));
    assert_eq!(wc.journal, Some(true));
    assert_eq!(wc.w_timeout, Some(Duration::from_millis(5000)));

    let wc = write_concern_create(Some(&WriteConcernOptions {
        w: 2,
        w_tag: Some(b"majority".to_vec()),
        journal: 0,
        w_timeout_ms: -1,
    }))
    .unwrap();
    assert!(matches!(wc.w, Some(Acknowledgment::Majority)));
    assert_eq!(wc.journal, Some(false));
    assert_eq!(wc.w_timeout, None);

    let wc = write_concern_create(Some(&WriteConcernOptions { w: -1, w_tag: None, journal: -1, w_timeout_ms: -1 })).unwrap();
    assert!(wc.w.is_none() && wc.journal.is_none());
    assert!(write_concern_create(None).is_none());
}

#[test]
fn operation_span_name_and_attributes() {
    let t = OperationTarget { database: "db".to_string(), collection: Some("c".to_string()) };
    assert!(operation_span(false, "find", &t).is_none());
    let (name, attrs) = operation_span(true, "find", &t).unwrap();
    assert_eq!(name, "find db.c");
    assert_eq!(
        pairs(&attrs),
        vec![
            kv("db.system", "mongodb"),
            kv("db.namespace", "db"),
            kv("db.collection.name", "c"),
            kv("db.operation.name", "find"),
            kv("db.operation.summary", "find db.c"),
        ]
    );
    let (name, attrs) = transaction_span(true).unwrap();
    assert_eq!(name, "transaction");
    assert_eq!(pairs(&attrs), vec![kv("db.system", "mongodb")]);
    assert!(transaction_span(false).is_none());
}

#[test]
fn command_span_attributes_in_order() {
    let t = OperationTarget { database: "db".to_string(), collection: None };
    let cmd = CommandAttributes::new(&CommandInfo {
        name: "ping".to_string(),
        lsid: None,
        txn_number: Some(3),
        should_redact: false,
    });
    let conn = ConnectionDetails {
        driver_connection_id: 7,
        server_connection_id: Some(70),
        address: ServerAddress::Tcp { host: "h".to_string(), port: None },
        server_type: "Standalone".to_string(),
    };
    let (name, attrs) = command_span(true, &t, cmd, &conn, 100, &ping_command(), Some(99)).unwrap();
    assert_eq!(name, "ping");
    assert_eq!(
        pairs(&attrs),
        vec![
            kv("db.system", "mongodb"),
            kv("db.namespace", "db"),
            kv("db.command.name", "ping"),
            kv("db.mongodb.txn_number", "#3"),
            kv("db.query.summary", "ping db"),
            kv("db.mongodb.driver_connection_id", "#7"),
            kv("server.type", "Standalone"),
            kv("server.port", "#27017"),
            kv("server.address", "h"),
            kv("network.transport", "tcp"),
            kv("db.mongodb.server_connection_id", "#70"),
            kv("db.query.text", "{\"ping\":1}"),
            kv("db.mongodb.cursor_id", "#99"),
        ]
    );

    let redacted = CommandAttributes::new(&CommandInfo {
        name: "saslStart".to_string(),
        lsid: None,
        txn_number: None,
        should_redact: true,
    });
    assert!(command_span(true, &t, redacted, &conn, 0, &[], None).is_none());

    let unix = ConnectionDetails {
        driver_connection_id: 1,
        server_connection_id: None,
        address: ServerAddress::Unix { path: "/s".to_string() },
        server_type: "Mongos".to_string(),
    };
    let plain = CommandAttributes::new(&CommandInfo {
        name: "find".to_string(),
        lsid: Some(document_bytes(&bson::Document::new())),
        txn_number: None,
        should_redact: false,
    });
    assert_eq!(plain.attrs.len(), 2);
    assert_eq!(plain.attrs[1].key, "db.mongodb.lsid");
    let (_, attrs) = command_span(true, &t, plain, &unix, 0, &ping_command(), None).unwrap();
    let p = pairs(&attrs);
    assert!(p.contains(&kv("network.transport", "unix")));
    assert!(p.contains(&kv("server.address", "/s")));
    assert!(!p.iter().any(|(k, _)| k == "db.query.text" || k == "server.port"));
}

#[test]
fn error_attributes_carry_the_status_code() {
    let e = DriverError::new(ErrorKind::Command { code: -2, code_name: "X".to_string(), message: "m".to_string() });
    let attrs = error_attrs("boom".to_string(), "Command".to_string(), &e);
    assert_eq!(
        pairs(&attrs),
        vec![kv("exception.message", "boom"), kv("exception.type", "Command"), kv("db.response.status_code", "-2")]
    );
    let io = DriverError::new(ErrorKind::Io { message: "x".to_string() });
    assert_eq!(error_attrs("a".to_string(), "Io".to_string(), &io).len(), 2);
}

#[test]
fn watch_resume_after_keeps_the_cluster_flag() {
    let w = Watch::new_cluster();
    let opts = w.execution_options().unwrap();
    assert_eq!(opts.all_changes_for_cluster, Some(true));
    let w = Watch::new(AggregateTarget::Database("d".to_string()))
        .resume_after(Some(mongo_ffi_core::change_stream::ResumeToken(bson::RawBson::Int32(1))));
    let o = w.execution_options().unwrap();
    assert!(o.resume_after.is_some());
    assert_eq!(o.all_changes_for_cluster, None);
    let t = operation_target(&AggregateTarget::Collection { db: "a".to_string(), coll: "b".to_string() });
    assert_eq!((t.database.as_str(), t.collection.as_deref()), ("a", Some("b")));
}

#[test]
fn lsid_attribute_is_relaxed_json() {
    let mut lsid = bson::Document::new();
    lsid.insert("id", 1i32);
    let attrs = CommandAttributes::new(&CommandInfo {
        name: "find".to_string(),
        lsid: Some(document_bytes(&lsid)),
        txn_number: None,
        should_redact: false,
    });
    assert_eq!(pairs(&attrs.attrs), vec![kv("db.command.name", "find"), kv("db.mongodb.lsid", "{\"id\":1}")]);
}

#[test]
fn started_event_carries_the_command() {
    let oid = bson::oid::ObjectId::parse_str("0123456789abcdef01234567").unwrap();
    let started = CommandStarted {
        command_name: "ping".to_string(),
        request_id: 42,
        connection: EventConnection {
            id: 1,
            server_id: Some(100),
            address: ServerAddress::Tcp { host: "localhost".to_string(), port: Some(27017) },
        },
        service_id: Some(oid.bytes()),
        db: "testdb".to_string(),
        command: vec![5, 0, 0, 0, 0],
    };
    let e = started_event(&started);
    assert_eq!(e.command_name, "ping");
    assert_eq!(e.request_id, 42);
    assert_eq!(e.connection_server_id, 100);
    assert_eq!(e.connection_address, "localhost:27017");
    assert!(e.has_service_id);
    assert_eq!(e.service_id, oid.bytes());
    assert_eq!(e.db, "testdb");
    assert!(e.command.0.len() > 0);
    let (zeros, has) = service_id_bytes(None);
    assert_eq!((zeros, has), ([0u8; 12], false));
    assert_eq!(format_address(&ServerAddress::Tcp { host: "h".to_string(), port: None }), "h:27017");
}

#[test]
fn absent_filter_is_the_empty_document() {
    let d = filter_document(None).unwrap();
    assert_eq!(d.data, vec![5, 0, 0, 0, 0]);
    let mut given = bson::RawDocumentBuf::new();
    given.append("x", 1i32);
    let f = filter_document(Some(&mongo_ffi_core::ffi_types::Bson { data: given.as_bytes().to_vec() })).unwrap();
    assert_eq!(f.data.as_slice(), given.as_bytes());
}

#[test]
fn test_handler_struct_null_callbacks() {
    let handler = MongoCommandEventHandler { started: false, succeeded: false, failed: false };
    assert!(!handler.started);
    assert!(!handler.succeeded);
    assert!(!handler.failed);
}

#[test]
fn test_build_handler_null_started_no_crash() {
    let handler = MongoCommandEventHandler { started: false, succeeded: true, failed: true };
    assert!(!delivers(&handler, CommandEventKind::Started));
    assert!(delivers(&handler, CommandEventKind::Succeeded));
    assert!(delivers(&handler, CommandEventKind::Failed));
}

#[test]
fn key_vault_uses_majority_concerns() {
    let kv = key_vault_collection(&Namespace { db: "keys".to_string(), coll: "vault".to_string() });
    assert_eq!((kv.db.as_str(), kv.coll.as_str()), ("keys", "vault"));
    assert!(matches!(kv.write_concern.w, Some(Acknowledgment::Majority)));
    assert!(matches!(kv.read_concern.level, ReadConcernLevel::Majority));
}

#[test]
fn regular_expressions_with_zero_are_not_encodable() {
    let ok = bson::RawBson::RegularExpression(bson::Regex { pattern: "a.*".to_string(), options: "i".to_string() });
    assert!(value_encodable(&ok));
    let bad = bson::RawBson::RegularExpression(bson::Regex { pattern: "a\0b".to_string(), options: String::new() });
    assert!(!value_encodable(&bad));
    assert!(value_encodable(&bson::RawBson::Int32(1)));
}

#[test]
fn query_text_leaves_out_session_and_cluster_fields() {
    let mut inner = bson::Document::new();
    inner.insert("x", 1i32);
    let mut doc = bson::Document::new();
    doc.insert("find", "c");
    doc.insert("lsid", inner.clone());
    doc.insert("filter", inner.clone());
    doc.insert("$db", "db");
    doc.insert("$clusterTime", inner.clone());
    doc.insert("signature", inner);
    let text = query_text(&document_bytes(&doc), 1000).unwrap();
    assert_eq!(text, "{\"find\":\"c\",\"filter\":{\"x\":1}}");
    assert_eq!(query_text(&document_bytes(&doc), 5).unwrap(), "{\"fin...");
    assert!(query_text(&[1, 2, 3], 1000).is_none());
}

#[test]
fn query_text_is_cut_on_character_boundaries() {
    assert_eq!(truncate_text("abcdef".to_string(), 3), "abc...");
    assert_eq!(truncate_text("abc".to_string(), 3), "abc");
    assert_eq!(truncate_text("abcd".to_string(), 3), "abc...");
    assert_eq!(truncate_text("a\u{e9}".to_string(), 2), "a\u{e9}");
    assert_eq!(truncate_text("a\u{e9}b".to_string(), 2), "a\u{e9}...");
    assert_eq!(truncate_text("".to_string(), 0), "");
}

#[test]
fn redacted_fields_are_dropped_in_order() {
    let fields = vec![
        ("lsid".to_string(), bson::RawBson::Int32(1)),
        ("a".to_string(), bson::RawBson::Int32(2)),
        ("signature".to_string(), bson::RawBson::Int32(3)),
        ("b".to_string(), bson::RawBson::Int32(4)),
        ("$db".to_string(), bson::RawBson::String("x".to_string())),
    ];
    let kept = redact_fields(&fields);
    assert_eq!(
        kept,
        vec![("a".to_string(), bson::RawBson::Int32(2)), ("b".to_string(), bson::RawBson::Int32(4))]
    );
}

#[test]
fn lsid_that_does_not_decode_is_left_out() {
    let attrs = CommandAttributes::new(&CommandInfo {
        name: "find".to_string(),
        lsid: Some(vec![1, 2, 3]),
        txn_number: Some(2),
        should_redact: false,
    });
    assert_eq!(pairs(&attrs.attrs), vec![kv("db.command.name", "find"), kv("db.mongodb.txn_number", "#2")]);
}

#[test]
fn query_text_is_reported_whenever_the_budget_is_positive() {
    let t = OperationTarget { database: "db".to_string(), collection: None };
    let conn = ConnectionDetails {
        driver_connection_id: 1,
        server_connection_id: None,
        address: ServerAddress::Tcp { host: "h".to_string(), port: Some(1) },
        server_type: "Standalone".to_string(),
    };
    let cmd = CommandAttributes::new(&CommandInfo {
        name: "ping".to_string(),
        lsid: None,
        txn_number: None,
        should_redact: false,
    });
    let (_, attrs) = command_span(true, &t, cmd, &conn, 10, &[1, 2, 3], None).unwrap();
    assert!(pairs(&attrs).contains(&kv("db.query.text", "")));
}
