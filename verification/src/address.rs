//! Parsing a server address: a Unix socket path, or a host with an optional
//! port, the host possibly an IP literal in brackets.

use vstd::prelude::*;
use vstd::string::StrSliceExecFns;

use crate::error::{is_invalid_argument, DriverError};
use crate::options::ServerAddress;
use crate::sdam_server::{address_view, ServerAddressView};
use crate::telemetry::{parse_usize, parsed_usize};
use crate::text::{chars_of, concat, lowercase, string_of, to_lowercase};

verus! {

/// The index of the first `c` in `s`, or the length of `s` when there is none.
pub open spec fn find_char(s: Seq<char>, c: char) -> int
    decreases s.len(),
{
    if s.len() == 0 {
        0
    } else if s[0] == c {
        0
    } else {
        1 + find_char(s.drop_first(), c)
    }
}

/// Whether `a` names a Unix socket: it ends with `.sock`.
pub open spec fn is_socket_path(a: Seq<char>) -> bool {
    a.len() >= 5 && a.subrange(a.len() - 5, a.len() as int) == ".sock"@
}

/// The start of every message about a refused address.
pub open spec fn address_message(a: Seq<char>) -> Seq<char> {
    "invalid server address "@ + a
}

/// The host and port text of `a`: an IP literal in brackets, followed by
/// nothing or by `:` and the port; or the text before the first `:` and,
/// when there is one, the text after it.
pub open spec fn split_host_port(a: Seq<char>) -> Result<(Seq<char>, Option<Seq<char>>), Seq<char>> {
    if a.len() > 0 && a[0] == '[' {
        let rest = a.drop_first();
        let k = find_char(rest, ']');
        if k >= rest.len() {
            Err(address_message(a) + ": missing closing ']' in IP literal hostname"@)
        } else {
            let after = rest.skip(k + 1);
            if after.len() == 0 {
                Ok((rest.take(k), None))
            } else if after[0] == ':' {
                Ok((rest.take(k), Some(after.drop_first())))
            } else {
                Err(address_message(a) + ": the hostname can only be followed by a port prefixed with ':', got "@
                    + after)
            }
        }
    } else {
        let k = find_char(a, ':');
        if k >= a.len() {
            Ok((a, None))
        } else {
            Ok((a.take(k), Some(a.skip(k + 1))))
        }
    }
}

/// The address `a` denotes, or the message of its refusal: a socket path,
/// or a non-empty host (lower-cased) with a port from 1 to 65535 if given.
pub open spec fn parse_address(a: Seq<char>) -> Result<ServerAddressView, Seq<char>> {
    if is_socket_path(a) {
        Ok(ServerAddressView::Unix { path: a })
    } else {
        match split_host_port(a) {
            Err(m) => Err(m),
            Ok((h, p)) => if h.len() == 0 {
                Err(address_message(a) + ": the hostname cannot be empty"@)
            } else {
                match p {
                    None => Ok(ServerAddressView::Tcp { host: lowercase(h), port: None }),
                    Some(pt) => match parsed_usize(pt) {
                        Some(n) => if 1 <= n <= 65535 {
                            Ok(ServerAddressView::Tcp { host: lowercase(h), port: Some(n as u16) })
                        } else {
                            Err(address_message(a) + ": the port must be an integer between 1 and 65535, got "@ + pt)
                        },
                        None => Err(address_message(a) + ": the port must be an integer between 1 and 65535, got "@
                            + pt),
                    },
                }
            },
        }
    }
}

proof fn lemma_find_char(s: Seq<char>, c: char, k: int)
    requires
        0 <= k <= s.len(),
        forall|j: int| 0 <= j < k ==> s[j] != c,
        k == s.len() || s[k] == c,
    ensures
        find_char(s, c) == k,
    decreases k,
{
    if k > 0 {
        assert forall|j: int| 0 <= j < k - 1 implies s.drop_first()[j] != c by {
            assert(s.drop_first()[j] == s[j + 1]);
        }
        if k < s.len() {
            assert(s.drop_first()[k - 1] == s[k]);
        }
        lemma_find_char(s.drop_first(), c, k - 1);
    }
}

/// The index of the first `c` in `v` from `from` on, or the length.
fn find_from(v: &Vec<char>, from: usize, c: char) -> (r: usize)
    requires
        from <= v@.len(),
    ensures
        r as int == from + find_char(v@.skip(from as int), c),
        from <= r <= v@.len(),
{
    let mut i = from;
    while i < v.len()
        invariant
            from <= i <= v@.len(),
            forall|j: int| from <= j < i ==> v@[j] != c,
        ensures
            from <= i <= v@.len(),
            forall|j: int| from <= j < i ==> v@[j] != c,
            i == v@.len() || v@[i as int] == c,
        decreases v@.len() - i,
    {
        if v[i] == c {
            break;
        }
        i = i + 1;
    }
    proof {
        let s = v@.skip(from as int);
        assert forall|j: int| 0 <= j < i - from implies s[j] != c by {
            assert(s[j] == v@[from + j]);
        }
        if i < v@.len() {
            assert(s[i - from] == v@[i as int]);
        }
        lemma_find_char(s, c, i - from);
    }
    i
}

/// The text of the characters `v[a..b]`.
fn text_between(v: &Vec<char>, a: usize, b: usize) -> (r: String)
    requires
        a <= b <= v@.len(),
    ensures
        r@ == v@.subrange(a as int, b as int),
{
    let mut w: Vec<char> = Vec::new();
    let mut i = a;
    while i < b
        invariant
            a <= i <= b,
            b <= v@.len(),
            w@ == v@.subrange(a as int, i as int),
        decreases b - i,
    {
        w.push(v[i]);
        i = i + 1;
        assert(w@ =~= v@.subrange(a as int, i as int));
    }
    string_of(w.as_slice())
}

fn refused(address: &str, tail: &str) -> (r: DriverError)
    ensures
        is_invalid_argument(r, address_message(address@) + tail@),
{
    let head = concat("invalid server address ", address);
    DriverError::invalid_argument(concat(head.as_str(), tail))
}

fn refused_with(address: &str, tail: &str, extra: &str) -> (r: DriverError)
    ensures
        is_invalid_argument(r, address_message(address@) + tail@ + extra@),
{
    let head = concat("invalid server address ", address);
    let mid = concat(head.as_str(), tail);
    DriverError::invalid_argument(concat(mid.as_str(), extra))
}

/// A copy of an address.
pub fn copy_address(a: &ServerAddress) -> (r: ServerAddress)
    ensures
        address_view(r) == address_view(*a),
{
    match a {
        ServerAddress::Tcp { host, port } => ServerAddress::Tcp { host: host.clone(), port: *port },
        ServerAddress::Unix { path } => ServerAddress::Unix { path: path.clone() },
    }
}

/// The addresses the host entries `hosts` denote, in order.
pub open spec fn all_parse(hosts: Seq<Seq<char>>) -> bool {
    forall|i: int| 0 <= i < hosts.len() ==> (#[trigger] parse_address(hosts[i])) is Ok
}

/// Parses every host entry, in order; the first one refused gives the error.
pub fn parse_addresses(hosts: &Vec<String>) -> (r: Result<Vec<ServerAddress>, DriverError>)
    ensures
        r is Ok <==> all_parse(crate::text::string_views(hosts@)),
        r matches Ok(v) ==> v@.len() == hosts@.len() && forall|i: int|
            0 <= i < v@.len() ==> parse_address(hosts@[i]@) == Ok::<ServerAddressView, Seq<char>>(
                address_view(#[trigger] v@[i]),
            ),
        r matches Err(e) ==> e.kind is InvalidArgument,
{
    let mut out: Vec<ServerAddress> = Vec::new();
    let mut i: usize = 0;
    while i < hosts.len()
        invariant
            i <= hosts@.len(),
            out@.len() == i,
            forall|j: int|
                0 <= j < i ==> parse_address(hosts@[j]@) == Ok::<ServerAddressView, Seq<char>>(
                    address_view(#[trigger] out@[j]),
                ),
        decreases hosts@.len() - i,
    {
        match ServerAddress::parse(hosts[i].as_str()) {
            Ok(a) => out.push(a),
            Err(e) => {
                proof {
                    assert(crate::text::string_views(hosts@)[i as int] == hosts@[i as int]@);
                }
                return Err(e);
            },
        }
        i = i + 1;
    }
    proof {
        assert forall|j: int| 0 <= j < crate::text::string_views(hosts@).len() implies (#[trigger] parse_address(
            crate::text::string_views(hosts@)[j],
        )) is Ok by {
            assert(crate::text::string_views(hosts@)[j] == hosts@[j]@);
            assert(parse_address(hosts@[j]@) == Ok::<ServerAddressView, Seq<char>>(address_view(out@[j])));
        }
    }
    Ok(out)
}

impl ServerAddress {
    /// Parses a server address; see [`parse_address`].  A refused address is
    /// an invalid-argument error.
    pub fn parse(address: &str) -> (r: Result<ServerAddress, DriverError>)
        ensures
            match parse_address(address@) {
                Ok(v) => r matches Ok(x) && address_view(x) == v,
                Err(m) => r matches Err(e) && is_invalid_argument(e, m),
            },
    {
        let v = chars_of(address);
        let n = v.len();
        proof {
            reveal_strlit(".sock");
        }
        if n >= 5 && v[n - 5] == '.' && v[n - 4] == 's' && v[n - 3] == 'o' && v[n - 2] == 'c' && v[n - 1]
            == 'k' {
            assert(v@.subrange(n - 5, n as int) =~= ".sock"@);
            return Ok(ServerAddress::Unix { path: string_of(v.as_slice()) });
        }
        assert(!is_socket_path(address@)) by {
            if n >= 5 {
                let t = v@.subrange(n - 5, n as int);
                if t == ".sock"@ {
                    assert(t[0] == v@[n - 5]);
                    assert(t[1] == v@[n - 4]);
                    assert(t[2] == v@[n - 3]);
                    assert(t[3] == v@[n - 2]);
                    assert(t[4] == v@[n - 1]);
                }
            }
        }
        let host: String;
        let port: Option<String>;
        if n > 0 && v[0] == '[' {
            let k = find_from(&v, 1, ']');
            proof {
                assert(v@.skip(1) =~= v@.drop_first());
            }
            if k >= n {
                return Err(refused(address, ": missing closing ']' in IP literal hostname"));
            }
            host = text_between(&v, 1, k);
            proof {
                assert(v@.subrange(1, k as int) =~= v@.drop_first().take(k - 1));
            }
            if k + 1 == n {
                port = None;
                proof {
                    assert(v@.drop_first().skip(k as int).len() == 0);
                }
            } else if v[k + 1] == ':' {
                let p = text_between(&v, k + 2, n);
                proof {
                    let after = v@.drop_first().skip(k as int);
                    assert(after[0] == v@[k + 1]);
                    assert(v@.subrange(k + 2, n as int) =~= after.drop_first());
                }
                port = Some(p);
            } else {
                let after = text_between(&v, k + 1, n);
                proof {
                    assert(v@.subrange(k + 1, n as int) =~= v@.drop_first().skip(k as int));
                }
                return Err(
                    refused_with(
                        address,
                        ": the hostname can only be followed by a port prefixed with ':', got ",
                        after.as_str(),
                    ),
                );
            }
        } else {
            let k = find_from(&v, 0, ':');
            proof {
                assert(v@.skip(0) =~= v@);
            }
            if k >= n {
                host = string_of(v.as_slice());
                port = None;
            } else {
                host = text_between(&v, 0, k);
                proof {
                    assert(v@.subrange(0, k as int) =~= v@.take(k as int));
                    assert(v@.subrange(k + 1, n as int) =~= v@.skip(k + 1));
                }
                port = Some(text_between(&v, k + 1, n));
            }
        }
        if host.as_str().unicode_len() == 0 {
            return Err(refused(address, ": the hostname cannot be empty"));
        }
        let port_number: Option<u16> = match &port {
            None => None,
            Some(p) => match parse_usize(p.as_str()) {
                Some(x) => {
                    if 1 <= x && x <= 65535 {
                        Some(x as u16)
                    } else {
                        return Err(
                            refused_with(
                                address,
                                ": the port must be an integer between 1 and 65535, got ",
                                p.as_str(),
                            ),
                        );
                    }
                },
                None => {
                    return Err(
                        refused_with(
                            address,
                            ": the port must be an integer between 1 and 65535, got ",
                            p.as_str(),
                        ),
                    );
                },
            },
        };
        Ok(ServerAddress::Tcp { host: to_lowercase(host.as_str()), port: port_number })
    }
}

} // verus!
