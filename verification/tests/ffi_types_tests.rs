use bson::{RawArrayBuf, RawBson, RawDocumentBuf};
use mongo_ffi_core::bson_frame::check_document_frame;
use mongo_ffi_core::error::ErrorKind;
use mongo_ffi_core::ffi_types::{
    parse_read_preference_options, read_preference_create, wrap_value, Bson, BsonArray, BsonValue,
    OwnedBson, OwnedBsonValue, RawBatch, ReadPreferenceOptions,
};
use mongo_ffi_core::options::ReadPreference;

fn one_field(key: &str, value: i32) -> RawDocumentBuf {
    let mut d = RawDocumentBuf::new();
    d.append(key, value);
    d
}

fn encode_tags() -> Vec<u8> {
    let mut tag = RawDocumentBuf::new();
    tag.append("dc", "east");
    let mut arr = RawArrayBuf::new();
    arr.push(tag);
    let mut outer = RawDocumentBuf::new();
    outer.append("", arr);
    outer.into_bytes()
}

fn encode_hedge(enabled: bool) -> Vec<u8> {
    let mut d = RawDocumentBuf::new();
    d.append("enabled", enabled);
    d.into_bytes()
}

#[test]
fn test_bson_array_from_array() {
    let doc1 = one_field("a", 1);
    let doc2 = one_field("b", 2);
    let doc3 = one_field("c", 3);

    let mut arr = RawArrayBuf::new();
    arr.push(doc1.clone());
    arr.push(doc2.clone());
    arr.push(doc3.clone());

    let (docs, bson_array) = BsonArray::from_array(arr.as_bytes()).expect("from_array should succeed");

    assert_eq!(bson_array.len, 3);
    assert!(!bson_array.data.is_null());
    assert_eq!(docs.len(), 3);
    assert_eq!(docs[0].as_slice(), doc1.as_bytes());
    assert_eq!(docs[1].as_slice(), doc2.as_bytes());
    assert_eq!(docs[2].as_slice(), doc3.as_bytes());
}

#[test]
fn test_bson_array_from_empty_array() {
    let arr = RawArrayBuf::new();
    let (ptrs, bson_array) = BsonArray::from_array(arr.as_bytes()).expect("from_array should succeed");

    assert!(bson_array.data.is_null());
    assert_eq!(bson_array.len, 0);
    assert!(ptrs.is_empty());
}

#[test]
fn test_bson_array_null() {
    let bson_array = BsonArray::null();
    assert!(bson_array.data.is_null());
    assert_eq!(bson_array.len, 0);
}

#[test]
fn bson_array_rejects_a_non_document() {
    let mut arr = RawArrayBuf::new();
    arr.push(one_field("a", 1));
    arr.push(5i32);
    let err = BsonArray::from_array(arr.as_bytes()).err().expect("a number is not a document");
    match err.kind {
        ErrorKind::InvalidResponse { message } => {
            assert_eq!(message, "unexpected non-document in cursor batch array")
        }
        _ => panic!("expected an invalid-response error"),
    }
}

#[test]
fn bson_array_from_batch_reads_the_batch() {
    let mut arr = RawArrayBuf::new();
    arr.push(one_field("x", 7));
    let batch = RawBatch { docs: arr.as_bytes().to_vec() };
    let (docs, descriptor) = BsonArray::from_batch(&batch).expect("a batch of documents");
    assert_eq!(descriptor.len, 1);
    assert_eq!(docs[0].as_slice(), one_field("x", 7).as_bytes());
    assert!(!descriptor.is_empty());
}

#[test]
fn wrap_value_writes_the_one_field_document() {
    let bytes = wrap_value(0x10, &[5, 0, 0, 0]);
    assert_eq!(bytes, vec![11, 0, 0, 0, 0x10, 0, 5, 0, 0, 0, 0]);
    let mut expected = RawDocumentBuf::new();
    expected.append("", 5i32);
    assert_eq!(bytes.as_slice(), expected.as_bytes());
}

#[test]
fn owned_value_from_bson_reads_type_and_bytes() {
    let v = OwnedBsonValue::from_bson(&RawBson::Int32(5));
    assert_eq!(v.0.bson_type, 0x10);
    assert_eq!(v.0.data, vec![5, 0, 0, 0]);

    let s = OwnedBsonValue::from_bson(&RawBson::String("hi".to_string()));
    assert_eq!(s.0.bson_type, 0x02);
    assert_eq!(s.0.data, vec![3, 0, 0, 0, b'h', b'i', 0]);
}

#[test]
fn value_round_trips_through_wrapping() {
    let v = OwnedBsonValue::from_bson(&RawBson::Boolean(true));
    let back = v.0.to_bson().expect("a wrapped value decodes");
    assert_eq!(back, Some(RawBson::Boolean(true)));

    let none = BsonValue { data: Vec::new(), bson_type: 0x10 }.to_bson().expect("no bytes is no value");
    assert_eq!(none, None);

    let mut inner = RawDocumentBuf::new();
    inner.append("k", "v");
    for v in [RawBson::Int64(-7), RawBson::String("text".to_string()), RawBson::Document(inner)] {
        let encoded = OwnedBsonValue::from_bson(&v);
        assert_eq!(encoded.0.to_bson().expect("decodes"), Some(v));
    }
    let null = OwnedBsonValue::from_bson(&RawBson::Null);
    assert!(null.0.data.is_empty());
    assert_eq!(null.0.to_bson().expect("no bytes"), None);
}

#[test]
fn malformed_value_is_an_invalid_response() {
    let v = BsonValue { data: vec![1, 2], bson_type: 0x10 };
    let wrapped = wrap_value(0x10, &[1, 2]);
    assert!(check_document_frame(&wrapped).is_ok());
    let err = v.to_bson().err().expect("a two-byte int32 is malformed");
    assert!(matches!(err.kind, ErrorKind::InvalidResponse { .. }));
}

#[test]
fn owned_bson_from_raw_copies_bytes() {
    let d = one_field("k", 9);
    let owned = OwnedBson::from_raw(d.as_bytes());
    assert_eq!(owned.0.data.as_slice(), d.as_bytes());
    assert_eq!(OwnedBson::empty().0.len(), 0);
}

#[test]
fn owned_bson_from_doc_encodes() {
    let mut doc = bson::Document::new();
    doc.insert("a", 1i32);
    let owned = OwnedBson::from_doc(&doc).expect("a plain document encodes");
    assert_eq!(owned.0.data.as_slice(), one_field("a", 1).as_bytes());
}

#[test]
fn check_document_frame_reports_bad_length() {
    assert!(check_document_frame(&[5, 0, 0, 0, 0]).is_ok());
    let err = check_document_frame(&[6, 0, 0, 0, 0]).err().expect("length mismatch");
    match err.kind {
        ErrorKind::InvalidResponse { message } => assert!(message.contains("length")),
        _ => panic!("expected an invalid-response error"),
    }
    assert!(check_document_frame(&[1, 2]).is_err());
}

#[test]
fn to_doc_of_null_is_none() {
    assert!(Bson::to_doc(None).expect("null is no document").is_none());
    let b = Bson { data: one_field("z", 1).into_bytes() };
    let d = Bson::to_doc(Some(&b)).expect("a framed document").expect("present");
    assert_eq!(d.get_i32("z").unwrap(), 1);
}

#[test]
fn test_read_preference_all_modes() {
    for mode in 0..=4u8 {
        let rp = read_preference_create(mode, None);
        assert!(rp.is_some(), "Mode {} should create valid read preference", mode);
    }
    assert!(matches!(read_preference_create(0, None), Some(ReadPreference::Primary)));
    assert!(matches!(read_preference_create(4, None), Some(ReadPreference::Nearest { options: None })));
}

#[test]
fn test_read_preference_invalid_mode() {
    let rp = read_preference_create(5, None);
    assert!(rp.is_none(), "Invalid mode 5 should return null");
    let rp = read_preference_create(255, None);
    assert!(rp.is_none(), "Invalid mode 255 should return null");
}

#[test]
fn test_read_preference_with_all_options() {
    let options = ReadPreferenceOptions {
        tags: Some(Bson { data: encode_tags() }),
        max_staleness_seconds: 120,
        hedge: Some(Bson { data: encode_hedge(false) }),
    };
    let rp = read_preference_create(1, Some(&options));
    assert!(rp.is_some(), "Read preference with all options should be created");
    match rp.unwrap() {
        ReadPreference::PrimaryPreferred { options: Some(s) } => {
            let tags = s.tag_sets.expect("tag sets were given");
            assert_eq!(tags.len(), 1);
            assert_eq!(tags[0], vec![("dc".to_string(), "east".to_string())]);
            assert_eq!(s.max_staleness, Some(std::time::Duration::from_secs(120)));
            assert_eq!(s.hedge, Some(false));
        }
        _ => panic!("expected primary-preferred with options"),
    }
}

#[test]
fn read_preference_options_without_values_give_none() {
    let options = ReadPreferenceOptions { tags: None, max_staleness_seconds: -1, hedge: None };
    let parsed = parse_read_preference_options(&options).expect("nothing to read");
    assert!(parsed.is_none());
}

#[test]
fn a_tag_set_keeps_the_last_value_of_a_repeated_key() {
    let mut tag = RawDocumentBuf::new();
    tag.append("dc", "east");
    tag.append("rack", "r1");
    tag.append("dc", "west");
    let mut arr = RawArrayBuf::new();
    arr.push(tag);
    let mut outer = RawDocumentBuf::new();
    outer.append("", arr);
    let options = ReadPreferenceOptions {
        tags: Some(Bson { data: outer.into_bytes() }),
        max_staleness_seconds: -1,
        hedge: None,
    };
    let parsed = parse_read_preference_options(&options).expect("tags read").expect("options present");
    let tags = parsed.tag_sets.expect("tag sets were given");
    assert_eq!(tags.len(), 1);
    assert_eq!(
        tags[0],
        vec![("dc".to_string(), "west".to_string()), ("rack".to_string(), "r1".to_string())]
    );
}

#[test]
fn regular_expression_options_are_written_as_given_and_read_sorted() {
    let re = RawBson::RegularExpression(bson::Regex { pattern: "a".to_string(), options: "xi".to_string() });
    let v = OwnedBsonValue::from_bson(&re);
    assert_eq!(v.0.bson_type, 0x0B);
    assert_eq!(v.0.data, b"a\0xi\0".to_vec());
    match v.0.to_bson().expect("reads back").expect("has bytes") {
        RawBson::RegularExpression(r) => {
            assert_eq!(r.pattern, "a");
            assert_eq!(r.options, "ix");
        }
        _ => panic!("expected a regular expression"),
    }
}
