//! Master keys of client-side field level encryption, the key management
//! service each belongs to, and the data key cache expiration that the
//! encryption builder hands to libmongocrypt.

use std::time::Duration;

use vstd::prelude::*;

use crate::bson_frame::document_frame_ok;
use crate::change_stream::{raw_lookup, raw_lookup_of};
use crate::error::{is_invalid_argument, is_invalid_response, DriverError, ErrorKind};
use crate::ffi_utils::millis_duration;
use crate::options::{Acknowledgment, ReadConcern, ReadConcernLevel, WriteConcern};
use crate::text::{concat, decimal, u64_to_decimal};

verus! {

/// An AWS master key.
pub struct AwsMasterKey {
    /// The name of the KMS provider the key belongs to, when it is a named one.
    pub name: Option<String>,
    pub region: String,
    pub key: String,
    pub endpoint: Option<String>,
}

/// An Azure master key.
pub struct AzureMasterKey {
    pub name: Option<String>,
    pub key_vault_endpoint: String,
    pub key_name: String,
    pub key_version: Option<String>,
}

/// A GCP master key.
pub struct GcpMasterKey {
    pub name: Option<String>,
    pub project_id: String,
    pub location: String,
    pub key_ring: String,
    pub key_name: String,
    pub key_version: Option<String>,
    pub endpoint: Option<String>,
}

/// A local master key.
pub struct LocalMasterKey {
    pub name: Option<String>,
}

/// A KMIP master key.
pub struct KmipMasterKey {
    pub name: Option<String>,
    pub key_id: Option<String>,
    pub delegated: Option<bool>,
    pub endpoint: Option<String>,
}

/// A KMS-specific key used to encrypt data keys.
pub enum MasterKey {
    Aws(AwsMasterKey),
    Azure(AzureMasterKey),
    Gcp(GcpMasterKey),
    Kmip(KmipMasterKey),
    Local(LocalMasterKey),
}

impl From<AwsMasterKey> for MasterKey {
    fn from(k: AwsMasterKey) -> (r: MasterKey) {
        MasterKey::Aws(k)
    }
}

impl vstd::std_specs::convert::FromSpecImpl<AwsMasterKey> for MasterKey {
    open spec fn obeys_from_spec() -> bool {
        true
    }

    open spec fn from_spec(k: AwsMasterKey) -> MasterKey {
        MasterKey::Aws(k)
    }
}

impl From<AzureMasterKey> for MasterKey {
    fn from(k: AzureMasterKey) -> (r: MasterKey) {
        MasterKey::Azure(k)
    }
}

impl vstd::std_specs::convert::FromSpecImpl<AzureMasterKey> for MasterKey {
    open spec fn obeys_from_spec() -> bool {
        true
    }

    open spec fn from_spec(k: AzureMasterKey) -> MasterKey {
        MasterKey::Azure(k)
    }
}

impl From<GcpMasterKey> for MasterKey {
    fn from(k: GcpMasterKey) -> (r: MasterKey) {
        MasterKey::Gcp(k)
    }
}

impl vstd::std_specs::convert::FromSpecImpl<GcpMasterKey> for MasterKey {
    open spec fn obeys_from_spec() -> bool {
        true
    }

    open spec fn from_spec(k: GcpMasterKey) -> MasterKey {
        MasterKey::Gcp(k)
    }
}

impl From<LocalMasterKey> for MasterKey {
    fn from(k: LocalMasterKey) -> (r: MasterKey) {
        MasterKey::Local(k)
    }
}

impl vstd::std_specs::convert::FromSpecImpl<LocalMasterKey> for MasterKey {
    open spec fn obeys_from_spec() -> bool {
        true
    }

    open spec fn from_spec(k: LocalMasterKey) -> MasterKey {
        MasterKey::Local(k)
    }
}

impl From<KmipMasterKey> for MasterKey {
    fn from(k: KmipMasterKey) -> (r: MasterKey) {
        MasterKey::Kmip(k)
    }
}

impl vstd::std_specs::convert::FromSpecImpl<KmipMasterKey> for MasterKey {
    open spec fn obeys_from_spec() -> bool {
        true
    }

    open spec fn from_spec(k: KmipMasterKey) -> MasterKey {
        MasterKey::Kmip(k)
    }
}

/// The kinds of key management service.
#[derive(PartialEq, Eq, Structural, Clone, Copy, Debug)]
pub enum KmsProviderKind {
    Aws,
    Azure,
    Gcp,
    Kmip,
    Local,
}

/// The kind of service a key belongs to.
pub open spec fn kind_of(k: MasterKey) -> KmsProviderKind {
    match k {
        MasterKey::Aws(_) => KmsProviderKind::Aws,
        MasterKey::Azure(_) => KmsProviderKind::Azure,
        MasterKey::Gcp(_) => KmsProviderKind::Gcp,
        MasterKey::Kmip(_) => KmsProviderKind::Kmip,
        MasterKey::Local(_) => KmsProviderKind::Local,
    }
}

/// A key belongs to the KMS provider of its own service and no other: AWS
/// keys to AWS, Azure keys to Azure, GCP keys to GCP, KMIP keys to KMIP and
/// local keys to the local provider.
pub proof fn keys_belong_to_their_service(k: MasterKey)
    ensures
        k is Aws <==> kind_of(k) is Aws,
        k is Azure <==> kind_of(k) is Azure,
        k is Gcp <==> kind_of(k) is Gcp,
        k is Kmip <==> kind_of(k) is Kmip,
        k is Local <==> kind_of(k) is Local,
{
}

/// The provider name a key carries.
pub open spec fn name_of(k: MasterKey) -> Option<String> {
    match k {
        MasterKey::Aws(a) => a.name,
        MasterKey::Azure(a) => a.name,
        MasterKey::Gcp(a) => a.name,
        MasterKey::Kmip(a) => a.name,
        MasterKey::Local(a) => a.name,
    }
}

fn copy_name(n: &Option<String>) -> (r: Option<String>)
    ensures
        r == *n,
{
    match n {
        Some(s) => Some(s.clone()),
        None => None,
    }
}

impl MasterKey {
    /// The KMS provider this key belongs to: the service of its kind, named
    /// after the key's provider name when it has one.
    pub fn provider(&self) -> (r: (KmsProviderKind, Option<String>))
        ensures
            r.0 == kind_of(*self),
            r.1 == name_of(*self),
            self is Aws <==> r.0 is Aws,
            self is Azure <==> r.0 is Azure,
            self is Gcp <==> r.0 is Gcp,
            self is Kmip <==> r.0 is Kmip,
            self is Local <==> r.0 is Local,
    {
        match self {
            MasterKey::Aws(k) => (KmsProviderKind::Aws, copy_name(&k.name)),
            MasterKey::Azure(k) => (KmsProviderKind::Azure, copy_name(&k.name)),
            MasterKey::Gcp(k) => (KmsProviderKind::Gcp, copy_name(&k.name)),
            MasterKey::Kmip(k) => (KmsProviderKind::Kmip, copy_name(&k.name)),
            MasterKey::Local(k) => (KmsProviderKind::Local, copy_name(&k.name)),
        }
    }
}

/// A database and a collection in it.
pub struct Namespace {
    pub db: String,
    pub coll: String,
}

/// The collection that holds the data keys, as encryption uses it.
pub struct KeyVaultCollection {
    pub db: String,
    pub coll: String,
    pub write_concern: WriteConcern,
    pub read_concern: ReadConcern,
}

/// The key vault collection of namespace `ns`: writes acknowledged by a
/// majority, reads at majority read concern.
pub fn key_vault_collection(ns: &Namespace) -> (r: KeyVaultCollection)
    ensures
        r.db@ == ns.db@,
        r.coll@ == ns.coll@,
        r.write_concern.w matches Some(Acknowledgment::Majority),
        r.write_concern.w_timeout is None,
        r.write_concern.journal is None,
        r.read_concern.level is Majority,
{
    KeyVaultCollection {
        db: ns.db.clone(),
        coll: ns.coll.clone(),
        write_concern: WriteConcern { w: Some(Acknowledgment::Majority), w_timeout: None, journal: None },
        read_concern: ReadConcern { level: ReadConcernLevel::Majority },
    }
}

/// The whole milliseconds in `d`, as `Duration::as_millis` gives them.
pub uninterp spec fn millis_in(d: Duration) -> u128;

/// `Duration::as_millis`: the whole milliseconds in `d`.  A duration made
/// by `Duration::from_millis(ms)` holds exactly `ms` of them.
#[verifier::external_body]
fn duration_as_millis(d: Duration) -> (r: u128)
    ensures
        r == millis_in(d),
        forall|ms: u64| d == #[trigger] millis_duration(ms) ==> r == ms,
{
    d.as_millis()
}

/// The text `Debug` writes for `d`.
pub uninterp spec fn duration_debug_of(d: Duration) -> Seq<char>;

/// `<Duration as Debug>::fmt`, as text.
#[verifier::external_body]
fn duration_debug_text(d: Duration) -> (r: String)
    ensures
        r@ == duration_debug_of(d),
{
    format!("{:?}", d)
}

/// The message of a key cache expiration that does not fit in `u64`
/// milliseconds.
pub open spec fn expiration_too_long_message(d: Duration) -> Seq<char> {
    "key_cache_expiration must not exceed "@ + decimal(u64::MAX as nat) + " milliseconds, got "@
        + duration_debug_of(d)
}

/// The data key cache expiration handed to libmongocrypt, in milliseconds:
/// none when unset, else the whole milliseconds of `expiration` when they
/// fit in `u64`; an invalid-argument error otherwise.
pub fn key_cache_expiration_millis(expiration: Option<Duration>) -> (r: Result<Option<u64>, DriverError>)
    ensures
        match expiration {
            None => r matches Ok(None),
            Some(d) => if millis_in(d) <= u64::MAX {
                r matches Ok(Some(ms)) && ms == millis_in(d)
            } else {
                r matches Err(e) && is_invalid_argument(e, expiration_too_long_message(d))
            },
        },
{
    match expiration {
        None => Ok(None),
        Some(d) => {
            let ms = duration_as_millis(d);
            if ms <= u64::MAX as u128 {
                Ok(Some(ms as u64))
            } else {
                let max = u64_to_decimal(u64::MAX);
                let head = concat("key_cache_expiration must not exceed ", max.as_str());
                let mid = concat(head.as_str(), " milliseconds, got ");
                let dbg = duration_debug_text(d);
                let msg = concat(mid.as_str(), dbg.as_str());
                Err(DriverError::invalid_argument(msg))
            }
        },
    }
}

/// How `Debug` writes the binary subtype numbered `t`: the name of a known
/// subtype, else `Reserved(t)` below the user-defined range and
/// `UserDefined(t)` within it.
pub open spec fn subtype_debug(t: u8) -> Seq<char> {
    if t == 0 {
        "Generic"@
    } else if t == 1 {
        "Function"@
    } else if t == 2 {
        "BinaryOld"@
    } else if t == 3 {
        "UuidOld"@
    } else if t == 4 {
        "Uuid"@
    } else if t == 5 {
        "Md5"@
    } else if t == 6 {
        "Encrypted"@
    } else if t == 7 {
        "Column"@
    } else if t == 8 {
        "Sensitive"@
    } else if t == 9 {
        "Vector"@
    } else if t < 128 {
        "Reserved("@ + decimal(t as nat) + ")"@
    } else {
        "UserDefined("@ + decimal(t as nat) + ")"@
    }
}

/// `<bson::spec::BinarySubtype as Debug>::fmt` of `BinarySubtype::from(t)`.
#[verifier::external_body]
fn subtype_debug_text(t: u8) -> (r: String)
    ensures
        r@ == subtype_debug(t),
{
    format!("{:?}", bson::spec::BinarySubtype::from(t))
}

/// The subtype of encrypted binary values.
pub const ENCRYPTED_SUBTYPE: u8 = 6;

/// Only encrypted binary values (subtype 6) can be decrypted; any other
/// subtype is an invalid-argument error naming both subtypes.
pub fn check_decrypt_subtype(subtype: u8) -> (r: Result<(), DriverError>)
    ensures
        subtype == ENCRYPTED_SUBTYPE <==> r is Ok,
        r matches Err(e) ==> is_invalid_argument(
            e,
            "Invalid binary subtype for decrypt: expected Encrypted, got "@ + subtype_debug(subtype),
        ),
{
    if subtype == ENCRYPTED_SUBTYPE {
        Ok(())
    } else {
        let got = subtype_debug_text(subtype);
        let msg = concat("Invalid binary subtype for decrypt: expected Encrypted, got ", got.as_str());
        Err(DriverError::invalid_argument(msg))
    }
}

/// The decrypted value in libmongocrypt's result document: its `v` field.
/// An unreadable result is an invalid-response error with the decoder's
/// message; a result without `v` is an internal error.
pub fn decrypted_value(result: &[u8]) -> (r: Result<bson::RawBson, DriverError>)
    requires
        document_frame_ok(result@),
    ensures
        match raw_lookup_of(result@, "v"@) {
            Ok(Some(v)) => r matches Ok(w) && w == v,
            Ok(None) => r matches Err(e) && e.kind matches ErrorKind::Internal { message } && message@
                == "invalid decryption result"@,
            Err(m) => r matches Err(e) && is_invalid_response(e, m),
        },
{
    match raw_lookup(result, "v") {
        Ok(Some(v)) => Ok(v),
        Ok(None) => Err(DriverError::internal_str("invalid decryption result")),
        Err(m) => Err(DriverError::new(ErrorKind::InvalidResponse { message: m })),
    }
}

} // verus!
