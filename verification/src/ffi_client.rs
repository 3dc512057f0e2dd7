//! Building the client options from the caller's connection, authentication
//! and TLS settings.

use vstd::prelude::*;
use vstd::utf8::valid_utf8;

use crate::address::{all_parse, parse_address, parse_addresses};
use crate::error::{is_invalid_argument, DriverError};
use crate::sdam_server::{address_view, ServerAddressView};
use crate::ffi_utils::{
    c_char_to_string, c_string_ok, i32_to_option_u32, i64_to_duration_ms, millis_duration,
    opt_bytes, parse_auth_mechanism, parse_compressors, parse_hosts, parse_read_preference_mode,
};
use crate::options::{ClientOptions, Compressor, Credential, Tls, TlsOptions};

verus! {

/// Connection settings; absent strings and negative numbers mean "not set".
pub struct ConnectionSettings {
    pub hosts: Option<Vec<u8>>,
    pub app_name: Option<Vec<u8>>,
    pub compressors: Option<Vec<u8>>,
    pub direct_connection: bool,
    pub load_balanced: bool,
    pub max_pool_size: i32,
    pub min_pool_size: i32,
    pub max_idle_time_ms: i64,
    pub connect_timeout_ms: i64,
    /// Accepted and ignored: the driver no longer has a socket timeout.
    pub socket_timeout_ms: i64,
    pub server_selection_timeout_ms: i64,
    pub local_threshold_ms: i64,
    pub heartbeat_frequency_ms: i64,
    pub replica_set: Option<Vec<u8>>,
    pub read_preference_mode: u8,
    pub srv_service_name: Option<Vec<u8>>,
    pub srv_max_hosts: i32,
}

/// Authentication settings; every field may be absent.
pub struct AuthSettings {
    pub mechanism: Option<Vec<u8>>,
    pub username: Option<Vec<u8>>,
    pub password: Option<Vec<u8>>,
    pub source: Option<Vec<u8>>,
}

/// TLS settings.
pub struct TlsSettings {
    pub enabled: bool,
    pub allow_invalid_certificates: bool,
    /// Accepted and ignored.
    pub allow_invalid_hostnames: bool,
    pub ca_file: Option<Vec<u8>>,
    pub cert_file: Option<Vec<u8>>,
    /// Accepted and ignored.
    pub cert_key_file: Option<Vec<u8>>,
}

/// The view of an optional owned byte string.
pub open spec fn ob(b: Option<Vec<u8>>) -> Option<Seq<u8>> {
    match b {
        Some(x) => Some(x@),
        None => None,
    }
}

/// Whether an optional byte string is absent or UTF-8.
pub open spec fn text_ok(b: Option<Vec<u8>>) -> bool {
    match b {
        Some(x) => valid_utf8(x@),
        None => true,
    }
}

/// Decodes an optional owned byte string.
fn opt_text(b: &Option<Vec<u8>>) -> (r: Result<Option<String>, DriverError>)
    ensures
        c_string_ok(ob(*b), r),
{
    match b {
        None => c_char_to_string(None),
        Some(x) => c_char_to_string(Some(x.as_slice())),
    }
}

/// `c` is the credential built from `a`: the named mechanism, and the user
/// name, source and password decoded from UTF-8.
pub open spec fn credential_from(a: AuthSettings, c: Credential) -> bool {
    &&& c.mechanism == (match a.mechanism {
        None => None,
        Some(m) => crate::ffi_utils::auth_mechanism_named(vstd::utf8::decode_utf8(m@)),
    })
    &&& c_string_ok(ob(a.username), Ok::<Option<String>, DriverError>(c.username))
    &&& c_string_ok(ob(a.source), Ok::<Option<String>, DriverError>(c.source))
    &&& c_string_ok(ob(a.password), Ok::<Option<String>, DriverError>(c.password))
}

/// `tls` is the TLS configuration built from `t`: disabled, or enabled with
/// the certificate flag and the decoded CA and certificate file paths.
pub open spec fn tls_from(t: TlsSettings, tls: Tls) -> bool {
    if !t.enabled {
        tls is Disabled
    } else {
        tls matches Tls::Enabled(o) && o.allow_invalid_certificates == Some(t.allow_invalid_certificates)
            && c_string_ok(ob(t.ca_file), Ok::<Option<String>, DriverError>(o.ca_file_path))
            && c_string_ok(ob(t.cert_file), Ok::<Option<String>, DriverError>(o.cert_key_file_path))
    }
}

/// `v` is the compressor list read from the bytes `b`: none when absent or
/// empty, else one compressor per listed name, in order.
pub open spec fn compressors_from(b: Option<Seq<u8>>, v: Option<Vec<Compressor>>) -> bool {
    match b {
        None => v is None,
        Some(x) => {
            let names = crate::text::comma_list(vstd::utf8::decode_utf8(x));
            if names.len() == 0 {
                v is None
            } else {
                v matches Some(l) && l@.len() == names.len() && forall|i: int|
                    0 <= i < names.len() ==> Some(#[trigger] l@[i]) == crate::ffi_utils::compressor_named(names[i])
            }
        },
    }
}

/// Builds the credential from authentication settings.
pub fn build_credential(a: &AuthSettings) -> (r: Result<Credential, DriverError>)
    ensures
        r is Ok <==> (text_ok(a.username) && text_ok(a.source) && text_ok(a.password) && text_ok(
            a.mechanism,
        ) && (a.mechanism matches Some(m) ==> crate::ffi_utils::auth_mechanism_named(
            vstd::utf8::decode_utf8(m@),
        ) is Some)),
        r matches Err(e) ==> e.kind is InvalidArgument,
        r matches Ok(c) ==> c.mechanism == (match a.mechanism {
            None => None,
            Some(m) => crate::ffi_utils::auth_mechanism_named(vstd::utf8::decode_utf8(m@)),
        }),
        r matches Ok(c) ==> c_string_ok(ob(a.username), Ok::<Option<String>, DriverError>(c.username))
            && c_string_ok(ob(a.source), Ok::<Option<String>, DriverError>(c.source))
            && c_string_ok(ob(a.password), Ok::<Option<String>, DriverError>(c.password)),
        r matches Ok(c) ==> credential_from(*a, c),
{
    let username = match opt_text(&a.username) {
        Ok(x) => x,
        Err(e) => return Err(e),
    };
    let source = match opt_text(&a.source) {
        Ok(x) => x,
        Err(e) => return Err(e),
    };
    let password = match opt_text(&a.password) {
        Ok(x) => x,
        Err(e) => return Err(e),
    };
    let mech_bytes: Option<&[u8]> = match &a.mechanism {
        None => None,
        Some(m) => Some(m.as_slice()),
    };
    let mechanism = match parse_auth_mechanism(mech_bytes) {
        Ok(x) => x,
        Err(e) => return Err(e),
    };
    Ok(Credential { username, source, password, mechanism })
}

/// Builds the TLS configuration from TLS settings: disabled, or enabled with
/// the certificate options and file paths given.
pub fn build_tls(t: &TlsSettings) -> (r: Result<Tls, DriverError>)
    ensures
        !t.enabled ==> r matches Ok(Tls::Disabled),
        t.enabled ==> (r is Ok <==> text_ok(t.ca_file) && text_ok(t.cert_file)),
        t.enabled ==> !(r matches Ok(Tls::Disabled)),
        r matches Err(e) ==> e.kind is InvalidArgument,
        r matches Ok(Tls::Enabled(o)) ==> t.enabled && o.allow_invalid_certificates == Some(
            t.allow_invalid_certificates,
        ) && c_string_ok(ob(t.ca_file), Ok::<Option<String>, DriverError>(o.ca_file_path))
            && c_string_ok(ob(t.cert_file), Ok::<Option<String>, DriverError>(o.cert_key_file_path)),
        r matches Ok(x) ==> tls_from(*t, x),
{
    if !t.enabled {
        return Ok(Tls::Disabled);
    }
    let ca_file_path = match opt_text(&t.ca_file) {
        Ok(x) => x,
        Err(e) => return Err(e),
    };
    let cert_key_file_path = match opt_text(&t.cert_file) {
        Ok(x) => x,
        Err(e) => return Err(e),
    };
    Ok(
        Tls::Enabled(
            TlsOptions {
                allow_invalid_certificates: Some(t.allow_invalid_certificates),
                ca_file_path,
                cert_key_file_path,
            },
        ),
    )
}

/// The view of an optional owned byte string as a borrowed slice.
fn as_opt_slice(b: &Option<Vec<u8>>) -> (r: Option<&[u8]>)
    ensures
        opt_bytes(r) == ob(*b),
{
    match b {
        None => None,
        Some(x) => Some(x.as_slice()),
    }
}

/// Whether the credential can be built from `a`.
pub open spec fn auth_settings_valid(a: AuthSettings) -> bool {
    &&& text_ok(a.username)
    &&& text_ok(a.source)
    &&& text_ok(a.password)
    &&& text_ok(a.mechanism)
    &&& (a.mechanism matches Some(m) ==> crate::ffi_utils::auth_mechanism_named(
        vstd::utf8::decode_utf8(m@),
    ) is Some)
}

/// Whether the TLS configuration can be built from `t`.
pub open spec fn tls_settings_valid(t: TlsSettings) -> bool {
    t.enabled ==> text_ok(t.ca_file) && text_ok(t.cert_file)
}

/// Whether the client options can be built from the given settings.
pub open spec fn client_settings_valid(
    c: ConnectionSettings,
    auth: Option<&AuthSettings>,
    tls: Option<&TlsSettings>,
) -> bool {
    &&& c.hosts matches Some(h) && valid_utf8(h@) && crate::text::comma_list(
        vstd::utf8::decode_utf8(h@),
    ).len() > 0 && all_parse(crate::text::comma_list(vstd::utf8::decode_utf8(h@)))
    &&& (auth matches Some(a) ==> auth_settings_valid(*a))
    &&& (tls matches Some(t) ==> tls_settings_valid(*t))
    &&& text_ok(c.compressors)
    &&& (c.compressors matches Some(b) ==> crate::ffi_utils::all_compressors_known(
        crate::text::comma_list(vstd::utf8::decode_utf8(b@)),
    ))
    &&& (c.read_preference_mode <= 4 || c.read_preference_mode == 255)
    &&& text_ok(c.app_name)
    &&& text_ok(c.replica_set)
    &&& text_ok(c.srv_service_name)
}

/// Builds the client options from the caller's settings.  Absent connection
/// settings are an invalid-argument error; so is any string that is not
/// UTF-8, a host list with no entry or with an entry that is not a server
/// address, an unknown mechanism or compressor, or a
/// read-preference mode other than `0` to `4` and `255`.  Sentinel numbers
/// become unset options; the socket timeout, the hostname check flag and the
/// key file are not used.
pub fn build_client_options(
    connection_settings: Option<&ConnectionSettings>,
    auth_settings: Option<&AuthSettings>,
    tls_settings: Option<&TlsSettings>,
) -> (r: Result<ClientOptions, DriverError>)
    ensures
        connection_settings is None ==> (r matches Err(e) && is_invalid_argument(
            e,
            "connection_settings cannot be null"@,
        )),
        connection_settings matches Some(c) ==> (r is Ok <==> client_settings_valid(
            *c,
            auth_settings,
            tls_settings,
        )),
        r matches Err(e) ==> e.kind is InvalidArgument,
        r matches Ok(o) ==> connection_settings matches Some(c) && ({
            &&& o.hosts@.len() == crate::text::comma_list(vstd::utf8::decode_utf8(c.hosts.unwrap()@)).len()
            &&& forall|i: int|
                0 <= i < o.hosts@.len() ==> parse_address(
                    crate::text::comma_list(vstd::utf8::decode_utf8(c.hosts.unwrap()@))[i],
                ) == Ok::<ServerAddressView, Seq<char>>(address_view(#[trigger] o.hosts@[i]))
            &&& o.hosts@.len() > 0
            &&& o.direct_connection == Some(c.direct_connection)
            &&& o.load_balanced == Some(c.load_balanced)
            &&& o.max_pool_size == (if c.max_pool_size < 0 {
                None
            } else {
                Some(c.max_pool_size as u32)
            })
            &&& o.min_pool_size == (if c.min_pool_size < 0 {
                None
            } else {
                Some(c.min_pool_size as u32)
            })
            &&& o.srv_max_hosts == (if c.srv_max_hosts < 0 {
                None
            } else {
                Some(c.srv_max_hosts as u32)
            })
            &&& o.max_connecting is None
            &&& o.max_idle_time == (if c.max_idle_time_ms < 0 {
                None
            } else {
                Some(millis_duration(c.max_idle_time_ms as u64))
            })
            &&& o.connect_timeout == (if c.connect_timeout_ms < 0 {
                None
            } else {
                Some(millis_duration(c.connect_timeout_ms as u64))
            })
            &&& o.server_selection_timeout == (if c.server_selection_timeout_ms < 0 {
                None
            } else {
                Some(millis_duration(c.server_selection_timeout_ms as u64))
            })
            &&& o.local_threshold == (if c.local_threshold_ms < 0 {
                None
            } else {
                Some(millis_duration(c.local_threshold_ms as u64))
            })
            &&& o.heartbeat_freq == (if c.heartbeat_frequency_ms < 0 {
                None
            } else {
                Some(millis_duration(c.heartbeat_frequency_ms as u64))
            })
            &&& c_string_ok(ob(c.app_name), Ok::<Option<String>, DriverError>(o.app_name))
            &&& c_string_ok(ob(c.replica_set), Ok::<Option<String>, DriverError>(o.repl_set_name))
            &&& c_string_ok(
                ob(c.srv_service_name),
                Ok::<Option<String>, DriverError>(o.srv_service_name),
            )
            &&& (auth_settings is None <==> o.credential is None)
            &&& (auth_settings matches Some(a) ==> (o.credential matches Some(cr) && credential_from(*a, cr)))
            &&& (tls_settings is None <==> o.tls is None)
            &&& (tls_settings matches Some(t) ==> (o.tls matches Some(Tls::Disabled) <==> !t.enabled))
            &&& (tls_settings matches Some(t) ==> (o.tls matches Some(x) && tls_from(*t, x)))
            &&& compressors_from(ob(c.compressors), o.compressors)
            &&& (c.read_preference_mode <= 4 ==> (o.selection_criteria matches Some(p)
                && Some(p) == crate::ffi_utils::read_preference_of_mode(c.read_preference_mode)))
            &&& (c.read_preference_mode == 255 ==> o.selection_criteria is None)
        }),
        r is Ok ==> (connection_settings matches Some(c) && (c.read_preference_mode <= 4
            || c.read_preference_mode == 255)),
{
    let c = match connection_settings {
        None => return Err(DriverError::invalid_argument_str("connection_settings cannot be null")),
        Some(c) => c,
    };
    let hosts = match parse_hosts(as_opt_slice(&c.hosts)) {
        Ok(h) => h,
        Err(e) => return Err(e),
    };
    let credential = match auth_settings {
        None => None,
        Some(a) => match build_credential(a) {
            Ok(x) => Some(x),
            Err(e) => return Err(e),
        },
    };
    let tls = match tls_settings {
        None => None,
        Some(t) => match build_tls(t) {
            Ok(x) => Some(x),
            Err(e) => return Err(e),
        },
    };
    let compressors = match parse_compressors(as_opt_slice(&c.compressors)) {
        Ok(x) => x,
        Err(e) => return Err(e),
    };
    let selection_criteria = match parse_read_preference_mode(c.read_preference_mode) {
        Ok(x) => x,
        Err(e) => return Err(e),
    };
    let addresses = match parse_addresses(&hosts) {
        Ok(x) => x,
        Err(e) => return Err(e),
    };
    let app_name = match opt_text(&c.app_name) {
        Ok(x) => x,
        Err(e) => return Err(e),
    };
    let repl_set_name = match opt_text(&c.replica_set) {
        Ok(x) => x,
        Err(e) => return Err(e),
    };
    let srv_service_name = match opt_text(&c.srv_service_name) {
        Ok(x) => x,
        Err(e) => return Err(e),
    };
    let o = 
        ClientOptions {
            hosts: addresses,
            app_name,
            repl_set_name,
            srv_service_name,
            direct_connection: Some(c.direct_connection),
            load_balanced: Some(c.load_balanced),
            max_pool_size: i32_to_option_u32(c.max_pool_size),
            min_pool_size: i32_to_option_u32(c.min_pool_size),
            srv_max_hosts: i32_to_option_u32(c.srv_max_hosts),
            max_connecting: None,
            max_idle_time: i64_to_duration_ms(c.max_idle_time_ms),
            connect_timeout: i64_to_duration_ms(c.connect_timeout_ms),
            server_selection_timeout: i64_to_duration_ms(c.server_selection_timeout_ms),
            local_threshold: i64_to_duration_ms(c.local_threshold_ms),
            heartbeat_freq: i64_to_duration_ms(c.heartbeat_frequency_ms),
            credential,
            tls,
            selection_criteria,
            compressors,
        };
    Ok(o)
}

} // verus!
