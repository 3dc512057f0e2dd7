//! Server addresses as the topology compares them, and the count of
//! operations running against a server.
//!
//! An address whose host is an IP literal keeps the address in parsed form,
//! so that two spellings of one address compare equal; a missing port is the
//! default port wherever addresses are compared or hashed.

use vstd::prelude::*;

use crate::options::{ServerAddress, DEFAULT_PORT};
use crate::text::str_equal;

verus! {

/// An IP address by its numeric value.
#[derive(PartialEq, Eq, Structural, Clone, Copy, Debug, Hash)]
pub enum IpAddress {
    V4(u32),
    V6(u128),
}

/// The host of a TCP address: a parsed IP address, with the text it is
/// written as, or a name.
pub enum ServerHost {
    Ip { addr: IpAddress, text: String },
    Name(String),
}

/// A server address as the topology keys it.
pub enum SdamServerAddress {
    Tcp { host: ServerHost, port: Option<u16> },
    Unix { path: String },
}

/// The port of a TCP address, the default one when none is given.
pub open spec fn port_or_default(p: Option<u16>) -> u16 {
    match p {
        Some(p) => p,
        None => DEFAULT_PORT,
    }
}

/// Two hosts are the same: the same IP address, or the same name.
pub open spec fn same_host(a: ServerHost, b: ServerHost) -> bool {
    match (a, b) {
        (ServerHost::Ip { addr: x, .. }, ServerHost::Ip { addr: y, .. }) => x == y,
        (ServerHost::Name(x), ServerHost::Name(y)) => x@ == y@,
        _ => false,
    }
}

/// Two addresses are the same: same host and same port, a missing port
/// being the default one; or the same socket path.
pub open spec fn same_address(a: SdamServerAddress, b: SdamServerAddress) -> bool {
    match (a, b) {
        (SdamServerAddress::Tcp { host: h1, port: p1 }, SdamServerAddress::Tcp { host: h2, port: p2 }) => {
            same_host(h1, h2) && port_or_default(p1) == port_or_default(p2)
        },
        (SdamServerAddress::Unix { path: x }, SdamServerAddress::Unix { path: y }) => x@ == y@,
        _ => false,
    }
}

fn host_eq(a: &ServerHost, b: &ServerHost) -> (r: bool)
    ensures
        r == same_host(*a, *b),
{
    match (a, b) {
        (ServerHost::Ip { addr: x, .. }, ServerHost::Ip { addr: y, .. }) => *x == *y,
        (ServerHost::Name(x), ServerHost::Name(y)) => str_equal(x.as_str(), y.as_str()),
        _ => false,
    }
}

fn unwrap_port(p: Option<u16>) -> (r: u16)
    ensures
        r == port_or_default(p),
{
    match p {
        Some(p) => p,
        None => DEFAULT_PORT,
    }
}

impl PartialEq for SdamServerAddress {
    fn eq(&self, other: &Self) -> (r: bool) {
        match (self, other) {
            (SdamServerAddress::Tcp { host: h1, port: p1 }, SdamServerAddress::Tcp { host: h2, port: p2 }) => {
                host_eq(h1, h2) && unwrap_port(*p1) == unwrap_port(*p2)
            },
            (SdamServerAddress::Unix { path: x }, SdamServerAddress::Unix { path: y }) => {
                str_equal(x.as_str(), y.as_str())
            },
            _ => false,
        }
    }
}

impl vstd::std_specs::cmp::PartialEqSpecImpl for SdamServerAddress {
    open spec fn obeys_eq_spec() -> bool {
        true
    }

    open spec fn eq_spec(&self, other: &Self) -> bool {
        same_address(*self, *other)
    }
}

/// What an address is hashed by: its host (an IP address or a name) and
/// its port, the default one when none is given; or its socket path.
#[derive(PartialEq, Eq, Hash, Debug)]
pub enum AddressKey {
    Ip(IpAddress, u16),
    Name(String, u16),
    Unix(String),
}

/// The view of an [`AddressKey`].
pub enum AddressKeyView {
    Ip(IpAddress, u16),
    Name(Seq<char>, u16),
    Unix(Seq<char>),
}

impl View for AddressKey {
    type V = AddressKeyView;

    open spec fn view(&self) -> AddressKeyView {
        match self {
            AddressKey::Ip(a, p) => AddressKeyView::Ip(*a, *p),
            AddressKey::Name(n, p) => AddressKeyView::Name(n@, *p),
            AddressKey::Unix(s) => AddressKeyView::Unix(s@),
        }
    }
}

/// The key of an address.
pub open spec fn key_of(a: SdamServerAddress) -> AddressKeyView {
    match a {
        SdamServerAddress::Tcp { host: ServerHost::Ip { addr, .. }, port } => AddressKeyView::Ip(addr, port_or_default(port)),
        SdamServerAddress::Tcp { host: ServerHost::Name(n), port } => AddressKeyView::Name(n@, port_or_default(port)),
        SdamServerAddress::Unix { path } => AddressKeyView::Unix(path@),
    }
}

/// The view of a [`ServerAddress`].
pub enum ServerAddressView {
    Tcp { host: Seq<char>, port: Option<u16> },
    Unix { path: Seq<char> },
}

/// The view of a [`ServerAddress`].
pub open spec fn address_view(a: ServerAddress) -> ServerAddressView {
    match a {
        ServerAddress::Tcp { host, port } => ServerAddressView::Tcp { host: host@, port },
        ServerAddress::Unix { path } => ServerAddressView::Unix { path: path@ },
    }
}

/// The text a host is written as.
pub open spec fn host_name(h: ServerHost) -> Seq<char> {
    match h {
        ServerHost::Ip { text, .. } => text@,
        ServerHost::Name(n) => n@,
    }
}

impl ServerHost {
    /// The text this host is written as.
    pub fn name(&self) -> (r: String)
        ensures
            r@ == host_name(*self),
    {
        match self {
            ServerHost::Ip { text, .. } => text.clone(),
            ServerHost::Name(s) => s.clone(),
        }
    }
}

impl SdamServerAddress {
    /// The address `value`, given what its host parses as: `ip` is the IP
    /// address it denotes, with its canonical text, when it is an IP literal.
    pub fn from_address(value: ServerAddress, ip: Option<(IpAddress, String)>) -> (r: SdamServerAddress)
        ensures
            match value {
                ServerAddress::Tcp { host, port } => match ip {
                    Some((a, t)) => r == SdamServerAddress::Tcp { host: ServerHost::Ip { addr: a, text: t }, port },
                    None => r == SdamServerAddress::Tcp { host: ServerHost::Name(host), port },
                },
                ServerAddress::Unix { path } => r == SdamServerAddress::Unix { path },
            },
    {
        match value {
            ServerAddress::Tcp { host, port } => match ip {
                Some((a, t)) => SdamServerAddress::Tcp { host: ServerHost::Ip { addr: a, text: t }, port },
                None => SdamServerAddress::Tcp { host: ServerHost::Name(host), port },
            },
            ServerAddress::Unix { path } => SdamServerAddress::Unix { path },
        }
    }

    /// The address as it is displayed: the host's text and the port.
    pub fn display(&self) -> (r: ServerAddress)
        ensures
            address_view(r) == match *self {
                SdamServerAddress::Tcp { host, port } => ServerAddressView::Tcp { host: host_name(host), port },
                SdamServerAddress::Unix { path } => ServerAddressView::Unix { path: path@ },
            },
    {
        match self {
            SdamServerAddress::Tcp { host, port } => ServerAddress::Tcp { host: host.name(), port: *port },
            SdamServerAddress::Unix { path } => ServerAddress::Unix { path: path.clone() },
        }
    }

    /// What this address is hashed by.
    pub fn key(&self) -> (r: AddressKey)
        ensures
            r@ == key_of(*self),
    {
        match self {
            SdamServerAddress::Tcp { host: ServerHost::Ip { addr, .. }, port } => AddressKey::Ip(*addr, unwrap_port(*port)),
            SdamServerAddress::Tcp { host: ServerHost::Name(n), port } => AddressKey::Name(n.clone(), unwrap_port(*port)),
            SdamServerAddress::Unix { path } => AddressKey::Unix(path.clone()),
        }
    }
}

impl Default for SdamServerAddress {
    /// `localhost` on the default port.
    fn default() -> (r: SdamServerAddress)
        ensures
            r matches SdamServerAddress::Tcp { host: ServerHost::Name(n), port: None } && n@ == "localhost"@,
    {
        SdamServerAddress::Tcp { host: ServerHost::Name(String::from_str("localhost")), port: None }
    }
}

/// Two addresses are equal exactly when they hash by the same key, so equal
/// addresses hash alike.
pub proof fn equal_addresses_share_key(a: SdamServerAddress, b: SdamServerAddress)
    ensures
        same_address(a, b) <==> key_of(a) == key_of(b),
{
}

/// Address equality is an equivalence relation.
pub proof fn address_equality_is_equivalence(a: SdamServerAddress, b: SdamServerAddress, c: SdamServerAddress)
    ensures
        same_address(a, a),
        same_address(a, b) ==> same_address(b, a),
        same_address(a, b) && same_address(b, c) ==> same_address(a, c),
{
}

/// A missing port and the default port give the same address.
pub proof fn missing_port_is_default(h: ServerHost)
    ensures
        same_address(
            SdamServerAddress::Tcp { host: h, port: None },
            SdamServerAddress::Tcp { host: h, port: Some(DEFAULT_PORT) },
        ),
{
    assert(same_host(h, h));
}

/// The number of operations running against a server.  Like the atomic
/// counter it models, it wraps around at the bounds of `u32`.
pub struct OperationCount {
    pub count: u32,
}

impl OperationCount {
    /// A counter starting at `count`.
    pub fn new(count: u32) -> (r: OperationCount)
        ensures
            r.count == count,
    {
        OperationCount { count }
    }

    /// Counts one more running operation.
    pub fn increment(&mut self)
        ensures
            final(self).count == (if old(self).count == u32::MAX { 0 } else { old(self).count + 1 }),
    {
        self.count = self.count.wrapping_add(1);
    }

    /// Counts one fewer running operation.
    pub fn decrement(&mut self)
        ensures
            final(self).count == (if old(self).count == 0 { u32::MAX } else { (old(self).count - 1) as u32 }),
    {
        self.count = self.count.wrapping_sub(1);
    }

    /// The number of running operations.
    pub fn get(&self) -> (r: u32)
        ensures
            r == self.count,
    {
        self.count
    }
}

/// Decrementing after incrementing gives back the count, whatever it was.
pub proof fn increment_then_decrement_restores(c: u32)
    ensures
        ({
            let up: u32 = if c == u32::MAX { 0 } else { (c + 1) as u32 };
            let down: u32 = if up == 0 { u32::MAX } else { (up - 1) as u32 };
            down == c
        }),
{
}

} // verus!
