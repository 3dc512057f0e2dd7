//! Driver-side option values that the C layer builds from its arguments.

use std::time::Duration;
use vstd::prelude::*;

verus! {

/// Read-preference settings other than the mode.
pub struct ReadPreferenceSettings {
    /// Tag sets, each a list of `(tag, value)` pairs.
    pub tag_sets: Option<Vec<Vec<(String, String)>>>,
    pub max_staleness: Option<Duration>,
    /// Whether hedged reads are enabled, when the caller said.
    pub hedge: Option<bool>,
}

/// Which members of a replica set a read may go to.
pub enum ReadPreference {
    Primary,
    PrimaryPreferred { options: Option<ReadPreferenceSettings> },
    Secondary { options: Option<ReadPreferenceSettings> },
    SecondaryPreferred { options: Option<ReadPreferenceSettings> },
    Nearest { options: Option<ReadPreferenceSettings> },
}

/// An authentication mechanism.
#[derive(PartialEq, Eq, Structural, Clone, Copy, Debug)]
pub enum AuthMechanism {
    ScramSha1,
    ScramSha256,
    MongoDbCr,
    MongoDbX509,
    Plain,
    MongoDbOidc,
}

/// A wire compressor.
#[derive(PartialEq, Eq, Structural, Clone, Copy, Debug)]
pub enum Compressor {
    Zstd { level: Option<i32> },
    Zlib { level: Option<i32> },
    Snappy,
}

} // verus!

verus! {

use crate::ffi_types::{tag_sets_view, pairs_view};

/// How much of the cluster must have a write before it is acknowledged.
pub enum Acknowledgment {
    Nodes(u32),
    Majority,
    Custom(String),
}

/// A write concern.
pub struct WriteConcern {
    pub w: Option<Acknowledgment>,
    pub w_timeout: Option<Duration>,
    pub journal: Option<bool>,
}

/// A read concern level.
pub enum ReadConcernLevel {
    Local,
    Majority,
    Linearizable,
    Available,
    Snapshot,
    Custom(String),
}

/// A read concern.
pub struct ReadConcern {
    pub level: ReadConcernLevel,
}

/// Whether two sets of read-preference settings hold the same values.
pub open spec fn settings_same(a: ReadPreferenceSettings, b: ReadPreferenceSettings) -> bool {
    &&& match (a.tag_sets, b.tag_sets) {
        (None, None) => true,
        (Some(x), Some(y)) => tag_sets_view(x@) == tag_sets_view(y@),
        _ => false,
    }
    &&& a.max_staleness == b.max_staleness
    &&& a.hedge == b.hedge
}

/// Whether two optional settings hold the same values.
pub open spec fn opt_settings_same(a: Option<ReadPreferenceSettings>, b: Option<ReadPreferenceSettings>) -> bool {
    match (a, b) {
        (None, None) => true,
        (Some(x), Some(y)) => settings_same(x, y),
        _ => false,
    }
}

/// Whether two read preferences have the same mode and settings.
pub open spec fn read_preference_same(a: ReadPreference, b: ReadPreference) -> bool {
    match (a, b) {
        (ReadPreference::Primary, ReadPreference::Primary) => true,
        (
            ReadPreference::PrimaryPreferred { options: x },
            ReadPreference::PrimaryPreferred { options: y },
        ) => opt_settings_same(x, y),
        (ReadPreference::Secondary { options: x }, ReadPreference::Secondary { options: y }) =>
            opt_settings_same(x, y),
        (
            ReadPreference::SecondaryPreferred { options: x },
            ReadPreference::SecondaryPreferred { options: y },
        ) => opt_settings_same(x, y),
        (ReadPreference::Nearest { options: x }, ReadPreference::Nearest { options: y }) =>
            opt_settings_same(x, y),
        _ => false,
    }
}

/// A copy of a list of `(key, value)` pairs.
pub fn copy_pairs(v: &Vec<(String, String)>) -> (r: Vec<(String, String)>)
    ensures
        pairs_view(r@) == pairs_view(v@),
{
    let mut out: Vec<(String, String)> = Vec::new();
    let mut i: usize = 0;
    while i < v.len()
        invariant
            i <= v@.len(),
            pairs_view(out@) == pairs_view(v@.take(i as int)),
        decreases v@.len() - i,
    {
        let ghost old_out = out@;
        let k = v[i].0.clone();
        let x = v[i].1.clone();
        out.push((k, x));
        i = i + 1;
        assert(out@ == old_out.push((k, x)));
        assert(v@.take(i as int) =~= v@.take(i - 1).push(v@[i - 1]));
        assert(pairs_view(out@) =~= pairs_view(old_out).push((k@, x@)));
        assert(pairs_view(v@.take(i as int)) =~= pairs_view(v@.take(i - 1)).push(
            (v@[i - 1].0@, v@[i - 1].1@),
        ));
    }
    assert(v@.take(v@.len() as int) =~= v@);
    out
}

/// A copy of a list of tag sets.
pub fn copy_tag_sets(v: &Vec<Vec<(String, String)>>) -> (r: Vec<Vec<(String, String)>>)
    ensures
        tag_sets_view(r@) == tag_sets_view(v@),
{
    let mut out: Vec<Vec<(String, String)>> = Vec::new();
    let mut i: usize = 0;
    while i < v.len()
        invariant
            i <= v@.len(),
            tag_sets_view(out@) == tag_sets_view(v@.take(i as int)),
        decreases v@.len() - i,
    {
        let ghost old_out = out@;
        let t = copy_pairs(&v[i]);
        let ghost tv = t@;
        out.push(t);
        i = i + 1;
        assert(out@ == old_out.push(t));
        assert(v@.take(i as int) =~= v@.take(i - 1).push(v@[i - 1]));
        assert(tag_sets_view(out@) =~= tag_sets_view(old_out).push(pairs_view(tv)));
        assert(tag_sets_view(v@.take(i as int)) =~= tag_sets_view(v@.take(i - 1)).push(
            pairs_view(v@[i - 1]@),
        ));
    }
    assert(v@.take(v@.len() as int) =~= v@);
    out
}

/// A copy of optional read-preference settings.
pub fn copy_settings(s: &Option<ReadPreferenceSettings>) -> (r: Option<ReadPreferenceSettings>)
    ensures
        opt_settings_same(r, *s),
{
    match s {
        None => None,
        Some(x) => {
            let tag_sets = match &x.tag_sets {
                None => None,
                Some(t) => Some(copy_tag_sets(t)),
            };
            Some(ReadPreferenceSettings { tag_sets, max_staleness: x.max_staleness, hedge: x.hedge })
        },
    }
}

/// A copy of a read preference.
pub fn copy_read_preference(p: &ReadPreference) -> (r: ReadPreference)
    ensures
        read_preference_same(r, *p),
{
    match p {
        ReadPreference::Primary => ReadPreference::Primary,
        ReadPreference::PrimaryPreferred { options } => ReadPreference::PrimaryPreferred {
            options: copy_settings(options),
        },
        ReadPreference::Secondary { options } => ReadPreference::Secondary {
            options: copy_settings(options),
        },
        ReadPreference::SecondaryPreferred { options } => ReadPreference::SecondaryPreferred {
            options: copy_settings(options),
        },
        ReadPreference::Nearest { options } => ReadPreference::Nearest {
            options: copy_settings(options),
        },
    }
}

/// A copy of a read concern.
pub fn copy_read_concern(c: &ReadConcern) -> (r: ReadConcern)
    ensures
        r == *c,
{
    let level = match &c.level {
        ReadConcernLevel::Local => ReadConcernLevel::Local,
        ReadConcernLevel::Majority => ReadConcernLevel::Majority,
        ReadConcernLevel::Linearizable => ReadConcernLevel::Linearizable,
        ReadConcernLevel::Available => ReadConcernLevel::Available,
        ReadConcernLevel::Snapshot => ReadConcernLevel::Snapshot,
        ReadConcernLevel::Custom(s) => ReadConcernLevel::Custom(s.clone()),
    };
    ReadConcern { level }
}

/// A copy of a write concern.
pub fn copy_write_concern(c: &WriteConcern) -> (r: WriteConcern)
    ensures
        r == *c,
{
    let w = match &c.w {
        None => None,
        Some(Acknowledgment::Nodes(n)) => Some(Acknowledgment::Nodes(*n)),
        Some(Acknowledgment::Majority) => Some(Acknowledgment::Majority),
        Some(Acknowledgment::Custom(s)) => Some(Acknowledgment::Custom(s.clone())),
    };
    WriteConcern { w, w_timeout: c.w_timeout, journal: c.journal }
}

} // verus!

verus! {

/// Authentication credential.
pub struct Credential {
    pub username: Option<String>,
    pub source: Option<String>,
    pub password: Option<String>,
    pub mechanism: Option<AuthMechanism>,
}

/// TLS options of an enabled TLS configuration.
pub struct TlsOptions {
    pub allow_invalid_certificates: Option<bool>,
    pub ca_file_path: Option<String>,
    pub cert_key_file_path: Option<String>,
}

/// Whether and how to use TLS.
pub enum Tls {
    Enabled(TlsOptions),
    Disabled,
}

/// The client options the C layer builds.
pub struct ClientOptions {
    pub hosts: Vec<ServerAddress>,
    pub app_name: Option<String>,
    pub repl_set_name: Option<String>,
    pub srv_service_name: Option<String>,
    pub direct_connection: Option<bool>,
    pub load_balanced: Option<bool>,
    pub max_pool_size: Option<u32>,
    pub min_pool_size: Option<u32>,
    pub srv_max_hosts: Option<u32>,
    pub max_connecting: Option<u32>,
    pub max_idle_time: Option<Duration>,
    pub connect_timeout: Option<Duration>,
    pub server_selection_timeout: Option<Duration>,
    pub local_threshold: Option<Duration>,
    pub heartbeat_freq: Option<Duration>,
    pub credential: Option<Credential>,
    pub tls: Option<Tls>,
    pub selection_criteria: Option<ReadPreference>,
    pub compressors: Option<Vec<Compressor>>,
}

} // verus!

verus! {

/// A server address: a host with an optional port, or a Unix socket path.
pub enum ServerAddress {
    Tcp { host: String, port: Option<u16> },
    Unix { path: String },
}

/// The port used when an address gives none.
pub const DEFAULT_PORT: u16 = 27017;

} // verus!
