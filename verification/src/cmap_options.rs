//! Options of a server's connection pool, taken from the client options, and
//! the background maintenance interval of test pools.

use std::time::Duration;

use vstd::prelude::*;

use crate::ffi_utils::{duration_from_millis, millis_duration};
use crate::options::{ClientOptions, Credential};

verus! {

/// How often the pool's background maintenance runs.
pub enum BackgroundThreadInterval {
    Never,
    Every(Duration),
}

/// Options for creating a connection pool.
pub struct ConnectionPoolOptions {
    /// The credential that connections of the pool authenticate with.
    pub credential: Option<Credential>,
    /// Interval between background maintenance runs; only tests set it.
    pub background_thread_interval: Option<BackgroundThreadInterval>,
    /// Connections idle for longer than this are not used.
    pub max_idle_time: Option<Duration>,
    /// The most connections the pool may have, checked-out ones included.
    pub max_pool_size: Option<u32>,
    /// The fewest connections the pool keeps.
    pub min_pool_size: Option<u32>,
    /// Whether the pool starts ready; only tests set it.
    pub ready: Option<bool>,
    /// Whether the client reaches the deployment through a load balancer.
    pub load_balanced: Option<bool>,
    /// The most connections that may be established at once.
    pub max_connecting: Option<u32>,
}

/// The pool options that pool events report.
pub struct PoolEventOptions {
    pub max_idle_time: Option<Duration>,
    pub min_pool_size: Option<u32>,
    pub max_pool_size: Option<u32>,
}

/// The text of an optional string.
pub open spec fn opt_text(s: Option<String>) -> Option<Seq<char>> {
    match s {
        Some(x) => Some(x@),
        None => None,
    }
}

/// `a` and `b` hold the same credential.
pub open spec fn same_credential(a: Credential, b: Credential) -> bool {
    &&& opt_text(a.username) == opt_text(b.username)
    &&& opt_text(a.source) == opt_text(b.source)
    &&& opt_text(a.password) == opt_text(b.password)
    &&& a.mechanism == b.mechanism
}

fn copy_string(s: &Option<String>) -> (r: Option<String>)
    ensures
        opt_text(r) == opt_text(*s),
{
    match s {
        Some(x) => Some(x.clone()),
        None => None,
    }
}

/// A copy of a credential.
pub fn copy_credential(c: &Option<Credential>) -> (r: Option<Credential>)
    ensures
        r is Some <==> c is Some,
        r matches Some(x) ==> same_credential(x, c.unwrap()),
{
    match c {
        Some(c) => Some(Credential {
            username: copy_string(&c.username),
            source: copy_string(&c.source),
            password: copy_string(&c.password),
            mechanism: c.mechanism,
        }),
        None => None,
    }
}

impl ConnectionPoolOptions {
    /// The pool options a client with options `options` gives its pools:
    /// the pool sizes, idle time, load balancing, connection concurrency and
    /// credential of the client; no maintenance interval and no readiness.
    pub fn from_client_options(options: &ClientOptions) -> (r: ConnectionPoolOptions)
        ensures
            r.max_idle_time == options.max_idle_time,
            r.min_pool_size == options.min_pool_size,
            r.max_pool_size == options.max_pool_size,
            r.load_balanced == options.load_balanced,
            r.max_connecting == options.max_connecting,
            r.background_thread_interval is None,
            r.ready is None,
            r.credential is Some <==> options.credential is Some,
            r.credential matches Some(c) ==> same_credential(c, options.credential.unwrap()),
    {
        ConnectionPoolOptions {
            credential: copy_credential(&options.credential),
            background_thread_interval: None,
            max_idle_time: options.max_idle_time,
            max_pool_size: options.max_pool_size,
            min_pool_size: options.min_pool_size,
            ready: None,
            load_balanced: options.load_balanced,
            max_connecting: options.max_connecting,
        }
    }

    /// The options that pool events report: idle time and pool sizes.
    pub fn to_event_options(&self) -> (r: PoolEventOptions)
        ensures
            r.max_idle_time == self.max_idle_time,
            r.min_pool_size == self.min_pool_size,
            r.max_pool_size == self.max_pool_size,
    {
        PoolEventOptions {
            max_idle_time: self.max_idle_time,
            min_pool_size: self.min_pool_size,
            max_pool_size: self.max_pool_size,
        }
    }
}

/// The interval a test pool is configured with by `millis` milliseconds: a
/// negative number means never, zero is refused, and a positive number is
/// that many milliseconds.
pub fn background_thread_interval_from_millis(millis: i64) -> (r: Result<BackgroundThreadInterval, String>)
    ensures
        millis < 0 ==> r matches Ok(BackgroundThreadInterval::Never),
        millis == 0 ==> (r matches Err(m) && m@ == "zero is not allowed"@),
        millis > 0 ==> (r matches Ok(BackgroundThreadInterval::Every(d)) && d == millis_duration(millis as u64)),
{
    if millis < 0 {
        Ok(BackgroundThreadInterval::Never)
    } else if millis == 0 {
        proof {
            reveal_strlit("zero is not allowed");
        }
        Err(String::from_str("zero is not allowed"))
    } else {
        Ok(BackgroundThreadInterval::Every(duration_from_millis(millis as u64)))
    }
}

} // verus!
