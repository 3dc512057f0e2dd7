//! Decoding of the values that cross the C boundary: sentinel-encoded
//! numbers, nullable UTF-8 strings, and the comma-separated lists and names
//! that client settings carry.

use std::time::Duration;
use vstd::prelude::*;
use vstd::utf8::{decode_utf8, valid_utf8};

use crate::error::{is_invalid_argument, DriverError};
use crate::options::{AuthMechanism, Compressor, ReadPreference};
use crate::text::{
    comma_list, concat, concat3, decimal, lowercase, split_comma_list, str_equal, string_views,
    to_lowercase,
};

verus! {

/// The duration of `ms` milliseconds, as `Duration::from_millis` gives it.
pub uninterp spec fn millis_duration(ms: u64) -> Duration;

/// The duration of `s` seconds, as `Duration::from_secs` gives it.
pub uninterp spec fn secs_duration(s: u64) -> Duration;

/// `Duration::from_millis`: the duration of `ms` milliseconds.
#[verifier::external_body]
pub(crate) fn duration_from_millis(ms: u64) -> (d: Duration)
    ensures
        d == millis_duration(ms),
{
    Duration::from_millis(ms)
}

/// `Duration::from_secs`: the duration of `s` seconds.
#[verifier::external_body]
pub(crate) fn duration_from_secs(s: u64) -> (d: Duration)
    ensures
        d == secs_duration(s),
{
    Duration::from_secs(s)
}

/// Decodes a tri-state flag: `0` is `false`, `1` is `true`, anything else is unset.
pub fn i8_to_option_bool(value: i8) -> (r: Option<bool>)
    ensures
        r == (if value == 0 {
            Some(false)
        } else if value == 1 {
            Some(true)
        } else {
            None::<bool>
        }),
{
    match value {
        0 => Some(false),
        1 => Some(true),
        _ => None,
    }
}

/// Decodes a count where a negative value means "not set".
pub fn i32_to_option_u32(value: i32) -> (r: Option<u32>)
    ensures
        value < 0 ==> r is None,
        value >= 0 ==> r == Some(value as u32),
{
    if value < 0 {
        None
    } else {
        Some(value as u32)
    }
}

/// Decodes a millisecond count where a negative value means "not set".
pub fn i64_to_duration_ms(ms: i64) -> (r: Option<Duration>)
    ensures
        ms < 0 ==> r is None,
        ms >= 0 ==> r == Some(millis_duration(ms as u64)),
{
    if ms < 0 {
        None
    } else {
        Some(duration_from_millis(ms as u64))
    }
}

/// The text of the error `std::str::from_utf8` reports for `bytes`.
pub uninterp spec fn utf8_error_text(bytes: Seq<u8>) -> Seq<char>;

/// `std::str::from_utf8`: the string `bytes` encode, or the rendered error.
#[verifier::external_body]
fn utf8_to_string(bytes: &[u8]) -> (r: Result<String, String>)
    ensures
        r is Ok <==> valid_utf8(bytes@),
        r matches Ok(s) ==> s@ == decode_utf8(bytes@),
        r matches Err(m) ==> m@ == utf8_error_text(bytes@),
{
    match std::str::from_utf8(bytes) {
        Ok(s) => Ok(s.to_string()),
        Err(e) => Err(e.to_string()),
    }
}

/// The message of the error for a C string that is not UTF-8.
pub open spec fn bad_utf8_message(bytes: Seq<u8>) -> Seq<char> {
    "Invalid UTF-8 in C string: "@ + utf8_error_text(bytes)
}

/// What decoding the nullable C string with bytes `bytes` gives.
pub open spec fn c_string_ok(bytes: Option<Seq<u8>>, r: Result<Option<String>, DriverError>) -> bool {
    match bytes {
        None => r matches Ok(None),
        Some(b) => if valid_utf8(b) {
            r matches Ok(Some(s)) && s@ == decode_utf8(b)
        } else {
            r matches Err(e) && is_invalid_argument(e, bad_utf8_message(b))
        },
    }
}

/// The view of an optional byte slice.
pub open spec fn opt_bytes(b: Option<&[u8]>) -> Option<Seq<u8>> {
    match b {
        Some(x) => Some(x@),
        None => None,
    }
}

/// Decodes a nullable C string (given by its bytes, without the terminator):
/// absent is `None`, and bytes that are not UTF-8 are an invalid-argument error.
pub fn c_char_to_string(bytes: Option<&[u8]>) -> (r: Result<Option<String>, DriverError>)
    ensures
        c_string_ok(opt_bytes(bytes), r),
{
    match bytes {
        None => Ok(None),
        Some(b) => match utf8_to_string(b) {
            Ok(s) => Ok(Some(s)),
            Err(m) => {
                let msg = concat("Invalid UTF-8 in C string: ", m.as_str());
                Err(DriverError::invalid_argument(msg))
            },
        },
    }
}

/// Parses the comma-separated `host:port` list of the connection settings.
/// Each entry is trimmed and empty entries are dropped; an absent list, or one
/// with no entry left, is an invalid-argument error.
pub fn parse_hosts(hosts: Option<&[u8]>) -> (r: Result<Vec<String>, DriverError>)
    ensures
        match opt_bytes(hosts) {
            None => r matches Err(e) && is_invalid_argument(e, "No hosts provided"@),
            Some(b) => if !valid_utf8(b) {
                r matches Err(e) && is_invalid_argument(e, bad_utf8_message(b))
            } else if comma_list(decode_utf8(b)).len() == 0 {
                r matches Err(e) && is_invalid_argument(e, "No hosts provided"@)
            } else {
                r matches Ok(v) && string_views(v@) == comma_list(decode_utf8(b))
            },
        },
{
    let s = match c_char_to_string(hosts) {
        Ok(Some(s)) => s,
        Ok(None) => return Err(DriverError::invalid_argument_str("No hosts provided")),
        Err(e) => return Err(e),
    };
    let list = split_comma_list(s.as_str());
    if list.len() == 0 {
        assert(string_views(list@).len() == 0);
        return Err(DriverError::invalid_argument_str("No hosts provided"));
    }
    Ok(list)
}

/// The compressor named `name` once lower-cased, if there is one.
pub open spec fn compressor_named(name: Seq<char>) -> Option<Compressor> {
    let l = lowercase(name);
    if l == "zstd"@ {
        Some(Compressor::Zstd { level: None })
    } else if l == "zlib"@ {
        Some(Compressor::Zlib { level: None })
    } else if l == "snappy"@ {
        Some(Compressor::Snappy)
    } else {
        None
    }
}

/// The compressor names, read without regard to case: `zstd` is zstd,
/// `zlib` is zlib and `snappy` is snappy, each with no level; every other
/// name is refused.
pub proof fn compressor_names_are_exact(name: Seq<char>)
    ensures
        compressor_named(name) == Some(Compressor::Zstd { level: None }) <==> lowercase(name) == "zstd"@,
        compressor_named(name) == Some(Compressor::Zlib { level: None }) <==> lowercase(name) == "zlib"@,
        compressor_named(name) == Some(Compressor::Snappy) <==> lowercase(name) == "snappy"@,
        compressor_named(name) is None <==> (lowercase(name) != "zstd"@ && lowercase(name) != "zlib"@
            && lowercase(name) != "snappy"@),
{
    reveal_strlit("zstd");
    reveal_strlit("zlib");
    reveal_strlit("snappy");
    assert("zstd"@ != "zlib"@) by { assert("zstd"@[1] != "zlib"@[1]); }
    assert("zstd"@ != "snappy"@) by { assert("zstd"@.len() != "snappy"@.len()); }
    assert("zlib"@ != "snappy"@) by { assert("zlib"@.len() != "snappy"@.len()); }
}

/// Parses one compressor name, ignoring case.
pub fn compressor_from_str(name: &str) -> (r: Result<Compressor, DriverError>)
    ensures
        match compressor_named(name@) {
            Some(c) => r == Ok::<Compressor, DriverError>(c),
            None => r matches Err(e) && is_invalid_argument(
                e,
                "Received invalid compressor: "@ + lowercase(name@),
            ),
        },
{
    let l = to_lowercase(name);
    if str_equal(l.as_str(), "zstd") {
        Ok(Compressor::Zstd { level: None })
    } else if str_equal(l.as_str(), "zlib") {
        Ok(Compressor::Zlib { level: None })
    } else if str_equal(l.as_str(), "snappy") {
        Ok(Compressor::Snappy)
    } else {
        Err(DriverError::invalid_argument(concat("Received invalid compressor: ", l.as_str())))
    }
}

/// Whether every name in `names` is a known compressor.
pub open spec fn all_compressors_known(names: Seq<Seq<char>>) -> bool {
    forall|i: int| 0 <= i < names.len() ==> #[trigger] compressor_named(names[i]) is Some
}

/// Parses the comma-separated compressor list of the connection settings.
/// Absent or empty is `None`; an unknown name is an invalid-argument error
/// naming the first unknown entry.
pub fn parse_compressors(compressors: Option<&[u8]>) -> (r: Result<Option<Vec<Compressor>>, DriverError>)
    ensures
        match opt_bytes(compressors) {
            None => r matches Ok(None),
            Some(b) => if !valid_utf8(b) {
                r matches Err(e) && is_invalid_argument(e, bad_utf8_message(b))
            } else {
                let names = comma_list(decode_utf8(b));
                if all_compressors_known(names) {
                    if names.len() == 0 {
                        r matches Ok(None)
                    } else {
                        r matches Ok(Some(v)) && v@.len() == names.len() && forall|i: int|
                            0 <= i < names.len() ==> Some(#[trigger] v@[i]) == compressor_named(
                                names[i],
                            )
                    }
                } else {
                    exists|k: int|
                        0 <= k < names.len() && compressor_named(#[trigger] names[k]) is None
                            && (forall|j: int|
                            0 <= j < k ==> #[trigger] compressor_named(names[j]) is Some) && (
                        r matches Err(e) && is_invalid_argument(
                            e,
                            "Received invalid compressor: "@ + lowercase(names[k]),
                        ))
                }
            },
        },
{
    let s = match c_char_to_string(compressors) {
        Ok(Some(s)) => s,
        Ok(None) => return Ok(None),
        Err(e) => return Err(e),
    };
    let names = split_comma_list(s.as_str());
    let ghost names_v = string_views(names@);
    assert(names_v == comma_list(s@));
    let mut out: Vec<Compressor> = Vec::new();
    let mut i: usize = 0;
    while i < names.len()
        invariant
            i <= names@.len(),
            names_v == string_views(names@),
            names_v == comma_list(s@),
            opt_bytes(compressors) matches Some(b) && valid_utf8(b) && s@ == decode_utf8(b),
            names_v.len() == names@.len(),
            out@.len() == i,
            forall|j: int| 0 <= j < i ==> #[trigger] compressor_named(names_v[j]) is Some,
            forall|j: int| 0 <= j < i ==> Some(#[trigger] out@[j]) == compressor_named(names_v[j]),
        decreases names@.len() - i,
    {
        assert(names_v[i as int] == names@[i as int]@);
        match compressor_from_str(names[i].as_str()) {
            Ok(c) => out.push(c),
            Err(e) => {
                assert(compressor_named(names_v[i as int]) is None);
                assert(!all_compressors_known(names_v));
                assert(compressor_named(names_v[i as int]) is None && (forall|j: int|
                    0 <= j < i ==> #[trigger] compressor_named(names_v[j]) is Some));
                return Err(e);
            },
        }
        i = i + 1;
    }
    if out.len() == 0 {
        Ok(None)
    } else {
        Ok(Some(out))
    }
}

/// The authentication mechanism named `name`, if it is one this layer accepts.
pub open spec fn auth_mechanism_named(name: Seq<char>) -> Option<AuthMechanism> {
    if name == "SCRAM-SHA-1"@ {
        Some(AuthMechanism::ScramSha1)
    } else if name == "SCRAM-SHA-256"@ {
        Some(AuthMechanism::ScramSha256)
    } else if name == "MONGODB-CR"@ {
        Some(AuthMechanism::MongoDbCr)
    } else if name == "MONGODB-X509"@ {
        Some(AuthMechanism::MongoDbX509)
    } else if name == "PLAIN"@ {
        Some(AuthMechanism::Plain)
    } else if name == "MONGODB-OIDC"@ {
        Some(AuthMechanism::MongoDbOidc)
    } else {
        None
    }
}

/// Each accepted name gives the mechanism of that name, and only that name
/// gives it: `SCRAM-SHA-1`, `SCRAM-SHA-256`, `MONGODB-CR`, `MONGODB-X509`,
/// `PLAIN` and `MONGODB-OIDC`; every other name is refused.
pub proof fn mechanism_names_are_exact(name: Seq<char>)
    ensures
        auth_mechanism_named(name) == Some(AuthMechanism::ScramSha1) <==> name == "SCRAM-SHA-1"@,
        auth_mechanism_named(name) == Some(AuthMechanism::ScramSha256) <==> name == "SCRAM-SHA-256"@,
        auth_mechanism_named(name) == Some(AuthMechanism::MongoDbCr) <==> name == "MONGODB-CR"@,
        auth_mechanism_named(name) == Some(AuthMechanism::MongoDbX509) <==> name == "MONGODB-X509"@,
        auth_mechanism_named(name) == Some(AuthMechanism::Plain) <==> name == "PLAIN"@,
        auth_mechanism_named(name) == Some(AuthMechanism::MongoDbOidc) <==> name == "MONGODB-OIDC"@,
        auth_mechanism_named(name) is None <==> (name != "SCRAM-SHA-1"@ && name != "SCRAM-SHA-256"@
            && name != "MONGODB-CR"@ && name != "MONGODB-X509"@ && name != "PLAIN"@ && name
            != "MONGODB-OIDC"@),
{
    reveal_strlit("SCRAM-SHA-1");
    reveal_strlit("SCRAM-SHA-256");
    reveal_strlit("MONGODB-CR");
    reveal_strlit("MONGODB-X509");
    reveal_strlit("PLAIN");
    reveal_strlit("MONGODB-OIDC");
    assert("SCRAM-SHA-1"@ != "SCRAM-SHA-256"@) by { assert("SCRAM-SHA-1"@.len() != "SCRAM-SHA-256"@.len()); }
    assert("SCRAM-SHA-1"@ != "MONGODB-CR"@) by { assert("SCRAM-SHA-1"@.len() != "MONGODB-CR"@.len()); }
    assert("SCRAM-SHA-1"@ != "MONGODB-X509"@) by { assert("SCRAM-SHA-1"@.len() != "MONGODB-X509"@.len()); }
    assert("SCRAM-SHA-1"@ != "PLAIN"@) by { assert("SCRAM-SHA-1"@.len() != "PLAIN"@.len()); }
    assert("SCRAM-SHA-1"@ != "MONGODB-OIDC"@) by { assert("SCRAM-SHA-1"@.len() != "MONGODB-OIDC"@.len()); }
    assert("SCRAM-SHA-256"@ != "MONGODB-CR"@) by { assert("SCRAM-SHA-256"@.len() != "MONGODB-CR"@.len()); }
    assert("SCRAM-SHA-256"@ != "MONGODB-X509"@) by { assert("SCRAM-SHA-256"@.len() != "MONGODB-X509"@.len()); }
    assert("SCRAM-SHA-256"@ != "PLAIN"@) by { assert("SCRAM-SHA-256"@.len() != "PLAIN"@.len()); }
    assert("SCRAM-SHA-256"@ != "MONGODB-OIDC"@) by { assert("SCRAM-SHA-256"@.len() != "MONGODB-OIDC"@.len()); }
    assert("MONGODB-CR"@ != "MONGODB-X509"@) by { assert("MONGODB-CR"@.len() != "MONGODB-X509"@.len()); }
    assert("MONGODB-CR"@ != "PLAIN"@) by { assert("MONGODB-CR"@.len() != "PLAIN"@.len()); }
    assert("MONGODB-CR"@ != "MONGODB-OIDC"@) by { assert("MONGODB-CR"@.len() != "MONGODB-OIDC"@.len()); }
    assert("MONGODB-X509"@ != "PLAIN"@) by { assert("MONGODB-X509"@.len() != "PLAIN"@.len()); }
    assert("MONGODB-X509"@ != "MONGODB-OIDC"@) by { assert("MONGODB-X509"@[8] != "MONGODB-OIDC"@[8]); }
    assert("PLAIN"@ != "MONGODB-OIDC"@) by { assert("PLAIN"@.len() != "MONGODB-OIDC"@.len()); }
}

/// Two names that give a mechanism give the same one only when they are the
/// same name.
pub proof fn mechanism_names_are_distinct(a: Seq<char>, b: Seq<char>)
    requires
        auth_mechanism_named(a) is Some,
        auth_mechanism_named(a) == auth_mechanism_named(b),
    ensures
        a == b,
{
    mechanism_names_are_exact(a);
    mechanism_names_are_exact(b);
}

/// Parses a nullable authentication mechanism name (exact, case-sensitive).
pub fn parse_auth_mechanism(mechanism: Option<&[u8]>) -> (r: Result<Option<AuthMechanism>, DriverError>)
    ensures
        match opt_bytes(mechanism) {
            None => r matches Ok(None),
            Some(b) => if !valid_utf8(b) {
                r matches Err(e) && is_invalid_argument(e, bad_utf8_message(b))
            } else {
                match auth_mechanism_named(decode_utf8(b)) {
                    Some(m) => r matches Ok(Some(x)) && x == m,
                    None => r matches Err(e) && is_invalid_argument(
                        e,
                        "Unknown or unsupported authentication mechanism: "@ + decode_utf8(b),
                    ),
                }
            },
        },
{
    let s = match c_char_to_string(mechanism) {
        Ok(Some(s)) => s,
        Ok(None) => return Ok(None),
        Err(e) => return Err(e),
    };
    let m = s.as_str();
    let mech = if str_equal(m, "SCRAM-SHA-1") {
        AuthMechanism::ScramSha1
    } else if str_equal(m, "SCRAM-SHA-256") {
        AuthMechanism::ScramSha256
    } else if str_equal(m, "MONGODB-CR") {
        AuthMechanism::MongoDbCr
    } else if str_equal(m, "MONGODB-X509") {
        AuthMechanism::MongoDbX509
    } else if str_equal(m, "PLAIN") {
        AuthMechanism::Plain
    } else if str_equal(m, "MONGODB-OIDC") {
        AuthMechanism::MongoDbOidc
    } else {
        return Err(
            DriverError::invalid_argument(
                concat("Unknown or unsupported authentication mechanism: ", m),
            ),
        );
    };
    Ok(Some(mech))
}

/// The read preference with mode number `mode` and no further settings.
pub open spec fn read_preference_of_mode(mode: u8) -> Option<ReadPreference> {
    if mode == 0 {
        Some(ReadPreference::Primary)
    } else if mode == 1 {
        Some(ReadPreference::PrimaryPreferred { options: None })
    } else if mode == 2 {
        Some(ReadPreference::Secondary { options: None })
    } else if mode == 3 {
        Some(ReadPreference::SecondaryPreferred { options: None })
    } else if mode == 4 {
        Some(ReadPreference::Nearest { options: None })
    } else {
        None
    }
}

/// The mode numbers of the connection settings name the read preferences,
/// one each and without further settings: 0 primary, 1 primary-preferred,
/// 2 secondary, 3 secondary-preferred, 4 nearest; no other number names one.
pub proof fn connection_modes_are_numbered_by_variant(mode: u8)
    ensures
        read_preference_of_mode(mode) is None <==> mode > 4,
        read_preference_of_mode(mode) matches Some(p) ==> (mode == 0 <==> p is Primary),
        read_preference_of_mode(mode) == Some(ReadPreference::PrimaryPreferred { options: None }) <==> mode == 1,
        read_preference_of_mode(mode) == Some(ReadPreference::Secondary { options: None }) <==> mode == 2,
        read_preference_of_mode(mode) == Some(ReadPreference::SecondaryPreferred { options: None }) <==> mode == 3,
        read_preference_of_mode(mode) == Some(ReadPreference::Nearest { options: None }) <==> mode == 4,
{
}

/// Parses the read preference mode of the connection settings: `0` to `4`
/// name a mode, `255` is "not set", anything else is an invalid-argument error.
pub fn parse_read_preference_mode(mode: u8) -> (r: Result<Option<ReadPreference>, DriverError>)
    ensures
        mode <= 4 ==> (r matches Ok(Some(p)) && Some(p) == read_preference_of_mode(mode)),
        mode == 255 ==> r matches Ok(None),
        4 < mode < 255 ==> (r matches Err(e) && is_invalid_argument(
            e,
            "Invalid read preference mode: "@ + decimal(mode as nat)
                + ". Valid values are 0-4 or 255 for not set."@,
        )),
{
    match mode {
        0 => Ok(Some(ReadPreference::Primary)),
        1 => Ok(Some(ReadPreference::PrimaryPreferred { options: None })),
        2 => Ok(Some(ReadPreference::Secondary { options: None })),
        3 => Ok(Some(ReadPreference::SecondaryPreferred { options: None })),
        4 => Ok(Some(ReadPreference::Nearest { options: None })),
        255 => Ok(None),
        _ => {
            let n = crate::text::u64_to_decimal(mode as u64);
            Err(
                DriverError::invalid_argument(
                    concat3(
                        "Invalid read preference mode: ",
                        n.as_str(),
                        ". Valid values are 0-4 or 255 for not set.",
                    ),
                ),
            )
        },
    }
}

} // verus!
