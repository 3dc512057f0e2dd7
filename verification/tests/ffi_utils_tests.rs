use std::time::Duration;

use mongo_ffi_core::error::ErrorKind;
use mongo_ffi_core::ffi_utils::{
    c_char_to_string, compressor_from_str, i32_to_option_u32, i64_to_duration_ms, i8_to_option_bool,
    parse_auth_mechanism, parse_compressors, parse_hosts, parse_read_preference_mode,
};
use mongo_ffi_core::options::{AuthMechanism, Compressor, ReadPreference};

fn invalid_argument_message(kind: ErrorKind) -> String {
    match kind {
        ErrorKind::InvalidArgument { message } => message,
        _ => panic!("expected an invalid-argument error"),
    }
}

#[test]
fn test_c_char_to_string() {
    let result = c_char_to_string(Some(b"hello".as_slice()));
    assert_eq!(result.unwrap(), Some("hello".to_string()));

    let result = c_char_to_string(None);
    assert_eq!(result.unwrap(), None);
}

#[test]
fn c_char_to_string_rejects_bad_utf8() {
    let err = c_char_to_string(Some([0xffu8, 0xfe].as_slice())).err().expect("not UTF-8");
    assert!(invalid_argument_message(err.kind).starts_with("Invalid UTF-8 in C string: "));
}

#[test]
fn test_i64_to_duration_ms() {
    assert_eq!(i64_to_duration_ms(-1), None);
    assert_eq!(i64_to_duration_ms(0), Some(Duration::from_millis(0)));
    assert_eq!(i64_to_duration_ms(1000), Some(Duration::from_millis(1000)));
}

#[test]
fn test_i32_to_option_u32() {
    assert_eq!(i32_to_option_u32(-1), None);
    assert_eq!(i32_to_option_u32(0), Some(0));
    assert_eq!(i32_to_option_u32(100), Some(100));
}

#[test]
fn i8_to_option_bool_maps_zero_one_and_unset() {
    assert_eq!(i8_to_option_bool(0), Some(false));
    assert_eq!(i8_to_option_bool(1), Some(true));
    assert_eq!(i8_to_option_bool(-1), None);
    assert_eq!(i8_to_option_bool(7), None);
}

#[test]
fn test_parse_hosts() {
    let result = parse_hosts(Some(b"localhost:27017".as_slice())).unwrap();
    assert_eq!(result, vec!["localhost:27017"]);

    let result = parse_hosts(Some(b"host1:27017,host2:27018,host3:27019".as_slice())).unwrap();
    assert_eq!(result, vec!["host1:27017", "host2:27018", "host3:27019"]);

    let result = parse_hosts(Some(b"".as_slice()));
    assert!(result.is_err());

    let result = parse_hosts(None);
    assert!(result.is_err());
}

#[test]
fn parse_hosts_trims_and_skips_empty_entries() {
    let result = parse_hosts(Some(b" a:1 , ,b:2,".as_slice())).unwrap();
    assert_eq!(result, vec!["a:1", "b:2"]);
    let err = parse_hosts(Some(b" , ".as_slice())).err().expect("only separators");
    assert_eq!(invalid_argument_message(err.kind), "No hosts provided");
}

#[test]
fn compressors_ignore_case() {
    assert!(matches!(compressor_from_str("ZSTD"), Ok(Compressor::Zstd { level: None })));
    assert!(matches!(compressor_from_str("Snappy"), Ok(Compressor::Snappy)));
    assert!(matches!(compressor_from_str("zlib"), Ok(Compressor::Zlib { level: None })));
    assert!(compressor_from_str("lz4").is_err());
    let list = parse_compressors(Some(b"zstd,snappy".as_slice())).unwrap().unwrap();
    assert_eq!(list.len(), 2);
    assert!(parse_compressors(None).unwrap().is_none());
}

#[test]
fn auth_mechanism_names_are_exact() {
    assert!(matches!(parse_auth_mechanism(Some(b"SCRAM-SHA-256".as_slice())), Ok(Some(AuthMechanism::ScramSha256))));
    assert!(matches!(parse_auth_mechanism(Some(b"SCRAM-SHA-1".as_slice())), Ok(Some(AuthMechanism::ScramSha1))));
    assert!(matches!(parse_auth_mechanism(None), Ok(None)));
    assert!(parse_auth_mechanism(Some(b"scram-sha-256".as_slice())).is_err());
}

#[test]
fn read_preference_modes_by_number() {
    assert!(matches!(parse_read_preference_mode(0), Ok(Some(ReadPreference::Primary))));
    assert!(matches!(parse_read_preference_mode(2), Ok(Some(ReadPreference::Secondary { options: None }))));
    assert!(matches!(parse_read_preference_mode(255), Ok(None)));
    let err = parse_read_preference_mode(9).err().expect("9 is no mode");
    assert_eq!(
        invalid_argument_message(err.kind),
        "Invalid read preference mode: 9. Valid values are 0-4 or 255 for not set."
    );
}
