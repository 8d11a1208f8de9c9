//! The guard that keeps metadata requests away from local and private
//! network targets.
//!
//! An IP address host is judged by the address the URL parser read; a host
//! name is resolved by the caller, and this module decides what the answer
//! means.

use vstd::prelude::*;

use crate::text::{
    ascii_lowercase, chars_of, ends_with, has_suffix,
    to_ascii_lowercase,
};
use crate::web_url::{UrlView, WebUrl};

verus! {

/// An IP address, as `std::net::IpAddr` holds it.
#[derive(Clone, Copy, Debug)]
pub enum IpAddress {
    V4 { octets: [u8; 4] },
    V6 { segments: [u16; 8] },
}

// ---------------------------------------------------------------------------
// IPv4 classes, as std's `Ipv4Addr` documents them
// ---------------------------------------------------------------------------

/// `10.0.0.0/8`, `172.16.0.0/12` and `192.168.0.0/16` (`Ipv4Addr::is_private`),
/// for the address `a.b.c.d`.
pub open spec fn v4_is_private(a: u8, b: u8) -> bool {
    ||| a == 10
    ||| a == 172 && 16 <= b <= 31
    ||| a == 192 && b == 168
}

/// `127.0.0.0/8` (`Ipv4Addr::is_loopback`).
pub open spec fn v4_is_loopback(a: u8) -> bool {
    a == 127
}

/// `169.254.0.0/16` (`Ipv4Addr::is_link_local`).
pub open spec fn v4_is_link_local(a: u8, b: u8) -> bool {
    a == 169 && b == 254
}

/// `0.0.0.0` (`Ipv4Addr::is_unspecified`).
pub open spec fn v4_is_unspecified(a: u8, b: u8, c: u8, d: u8) -> bool {
    a == 0 && b == 0 && c == 0 && d == 0
}

/// `224.0.0.0/4` (`Ipv4Addr::is_multicast`).
pub open spec fn v4_is_multicast(a: u8) -> bool {
    224 <= a <= 239
}

/// `100.64.0.0/10`, the shared address space of carrier-grade NAT.
pub open spec fn v4_is_shared(a: u8, b: u8) -> bool {
    a == 100 && 64 <= b <= 127
}

/// The IPv4 address `a.b.c.d` is in none of the ranges above.
pub open spec fn v4_is_public(a: u8, b: u8, c: u8, d: u8) -> bool {
    &&& !v4_is_private(a, b)
    &&& !v4_is_loopback(a)
    &&& !v4_is_link_local(a, b)
    &&& !v4_is_unspecified(a, b, c, d)
    &&& !v4_is_multicast(a)
    &&& !v4_is_shared(a, b)
}

/// Whether the IPv4 address `a.b.c.d` is public.
fn is_public_v4(a: u8, b: u8, c: u8, d: u8) -> (r: bool)
    ensures
        r == v4_is_public(a, b, c, d),
{
    let private = a == 10 || (a == 172 && 16 <= b && b <= 31) || (a == 192 && b == 168);
    let loopback = a == 127;
    let link_local = a == 169 && b == 254;
    let unspecified = a == 0 && b == 0 && c == 0 && d == 0;
    let multicast = 224 <= a && a <= 239;
    let shared = a == 100 && 64 <= b && b <= 127;
    !private && !loopback && !link_local && !unspecified && !multicast && !shared
}

// ---------------------------------------------------------------------------
// IPv6 classes, as std's `Ipv6Addr` documents them
// ---------------------------------------------------------------------------

/// `::1` (`Ipv6Addr::is_loopback`).
pub open spec fn v6_is_loopback(s: [u16; 8]) -> bool {
    &&& s@[0] == 0 && s@[1] == 0 && s@[2] == 0 && s@[3] == 0
    &&& s@[4] == 0 && s@[5] == 0 && s@[6] == 0 && s@[7] == 1
}

/// `::` (`Ipv6Addr::is_unspecified`).
pub open spec fn v6_is_unspecified(s: [u16; 8]) -> bool {
    &&& s@[0] == 0 && s@[1] == 0 && s@[2] == 0 && s@[3] == 0
    &&& s@[4] == 0 && s@[5] == 0 && s@[6] == 0 && s@[7] == 0
}

/// `ff00::/8` (`Ipv6Addr::is_multicast`).
pub open spec fn v6_is_multicast(s: [u16; 8]) -> bool {
    s@[0] & 0xff00 == 0xff00
}

/// `fc00::/7` (`Ipv6Addr::is_unique_local`).
pub open spec fn v6_is_unique_local(s: [u16; 8]) -> bool {
    s@[0] & 0xfe00 == 0xfc00
}

/// `fe80::/10` (`Ipv6Addr::is_unicast_link_local`).
pub open spec fn v6_is_unicast_link_local(s: [u16; 8]) -> bool {
    s@[0] & 0xffc0 == 0xfe80
}

/// An IPv4-mapped IPv6 address, `::ffff:a.b.c.d`.
pub open spec fn v6_is_v4_mapped(s: [u16; 8]) -> bool {
    &&& s@[0] == 0 && s@[1] == 0 && s@[2] == 0 && s@[3] == 0
    &&& s@[4] == 0 && s@[5] == 0xffff
}

/// An address that metadata may be fetched from: none of the private,
/// loopback, link-local, unspecified, multicast or shared IPv4 ranges; for an
/// IPv4-mapped IPv6 address, the same of the IPv4 address it carries; and for
/// any other IPv6 address, none of the loopback, unspecified, multicast,
/// unique-local or link-local ranges.
pub open spec fn is_public_address(ip: IpAddress) -> bool {
    match ip {
        IpAddress::V4 { octets: o } => v4_is_public(o@[0], o@[1], o@[2], o@[3]),
        IpAddress::V6 { segments: s } => if v6_is_v4_mapped(s) {
            v4_is_public(
                (s@[6] / 256) as u8,
                (s@[6] % 256) as u8,
                (s@[7] / 256) as u8,
                (s@[7] % 256) as u8,
            )
        } else {
            &&& !v6_is_loopback(s)
            &&& !v6_is_unspecified(s)
            &&& !v6_is_multicast(s)
            &&& !v6_is_unique_local(s)
            &&& !v6_is_unicast_link_local(s)
        },
    }
}

/// Whether metadata may be fetched from `ip`.
pub fn is_public_ip(ip: IpAddress) -> (b: bool)
    ensures
        b == is_public_address(ip),
{
    match ip {
        IpAddress::V4 { octets: o } => is_public_v4(o[0], o[1], o[2], o[3]),
        IpAddress::V6 { segments: s } => {
            let mapped = s[0] == 0 && s[1] == 0 && s[2] == 0 && s[3] == 0 && s[4] == 0 && s[5]
                == 0xffff;
            if mapped {
                return is_public_v4(
                    (s[6] / 256) as u8,
                    (s[6] % 256) as u8,
                    (s[7] / 256) as u8,
                    (s[7] % 256) as u8,
                );
            }
            let head_zero = s[0] == 0 && s[1] == 0 && s[2] == 0 && s[3] == 0 && s[4] == 0 && s[5]
                == 0 && s[6] == 0;
            let loopback = head_zero && s[7] == 1;
            let unspecified = head_zero && s[7] == 0;
            let multicast = s[0] & 0xff00 == 0xff00;
            let unique_local = s[0] & 0xfe00 == 0xfc00;
            let link_local = s[0] & 0xffc0 == 0xfe80;
            !loopback && !unspecified && !multicast && !unique_local && !link_local
        },
    }
}

/// No loopback address is public, whether written as IPv4, as IPv6, or as
/// IPv4 mapped into IPv6.
pub proof fn law_loopback_is_never_public(ip: IpAddress)
    ensures
        ip matches IpAddress::V4 { octets: o } && o@[0] == 127 ==> !is_public_address(ip),
        ip matches IpAddress::V6 { segments: s } && v6_is_loopback(s) ==> !is_public_address(ip),
        ip matches IpAddress::V6 { segments: s } && v6_is_v4_mapped(s) && s@[6] / 256 == 127
            ==> !is_public_address(ip),
{
}

/// Every address of `addresses` is public (true of none at all, as
/// `Iterator::all` is).
pub open spec fn all_public(addresses: Seq<IpAddress>) -> bool {
    forall|i: int| 0 <= i < addresses.len() ==> is_public_address(#[trigger] addresses[i])
}

/// Whether every address of `addresses` is public.
pub fn all_addresses_public(addresses: &Vec<IpAddress>) -> (b: bool)
    ensures
        b == all_public(addresses@),
{
    let mut i: usize = 0;
    while i < addresses.len()
        invariant
            i <= addresses.len(),
            forall|k: int| 0 <= k < i ==> is_public_address(#[trigger] addresses@[k]),
        decreases addresses.len() - i,
    {
        if !is_public_ip(addresses[i]) {
            return false;
        }
        i = i + 1;
    }
    true
}

// ---------------------------------------------------------------------------
// Host names
// ---------------------------------------------------------------------------

/// A bracket of an IPv6 literal.
pub open spec fn is_bracket(c: char) -> bool {
    c == '[' || c == ']'
}

/// `s` without leading brackets.
pub open spec fn strip_brackets_start(s: Seq<char>) -> Seq<char>
    decreases s.len(),
{
    if s.len() > 0 && is_bracket(s[0]) {
        strip_brackets_start(s.drop_first())
    } else {
        s
    }
}

/// `s` without trailing brackets.
pub open spec fn strip_brackets_end(s: Seq<char>) -> Seq<char>
    decreases s.len(),
{
    if s.len() > 0 && is_bracket(s.last()) {
        strip_brackets_end(s.drop_last())
    } else {
        s
    }
}

/// The host as the guard compares it: brackets trimmed from both ends
/// (`str::trim_matches(['[', ']'])`) and ASCII letters lower-cased.
pub open spec fn guard_host(host: Seq<char>) -> Seq<char> {
    ascii_lowercase(strip_brackets_end(strip_brackets_start(host)))
}

/// A host name that always means this machine or the local network:
/// `localhost`, a name under `.localhost`, or a name under `.local`.
pub open spec fn is_local_name(h: Seq<char>) -> bool {
    ||| h == "localhost"@
    ||| has_suffix(h, ".localhost"@)
    ||| has_suffix(h, ".local"@)
}

proof fn lemma_strip_start_skip(s: Seq<char>, i: int)
    requires
        0 <= i <= s.len(),
        forall|k: int| 0 <= k < i ==> is_bracket(#[trigger] s[k]),
        i == s.len() || !is_bracket(s[i]),
    ensures
        strip_brackets_start(s) == s.skip(i),
    decreases i,
{
    if i == 0 {
        assert(s.skip(0) =~= s);
    } else {
        let t = s.drop_first();
        assert forall|k: int| 0 <= k < i - 1 implies is_bracket(#[trigger] t[k]) by {
            assert(t[k] == s[k + 1]);
        }
        if i - 1 < t.len() {
            assert(t[i - 1] == s[i]);
        }
        lemma_strip_start_skip(t, i - 1);
        assert(t.skip(i - 1) =~= s.skip(i));
    }
}

proof fn lemma_strip_end_take(s: Seq<char>, j: int)
    requires
        0 <= j <= s.len(),
        forall|k: int| j <= k < s.len() ==> is_bracket(#[trigger] s[k]),
        j == 0 || !is_bracket(s[j - 1]),
    ensures
        strip_brackets_end(s) == s.take(j),
    decreases s.len() - j,
{
    if j == s.len() {
        assert(s.take(j) =~= s);
    } else {
        let t = s.drop_last();
        assert forall|k: int| j <= k < t.len() implies is_bracket(#[trigger] t[k]) by {
            assert(t[k] == s[k]);
        }
        if j > 0 {
            assert(t[j - 1] == s[j - 1]);
        }
        assert(is_bracket(s[s.len() - 1]));
        lemma_strip_end_take(t, j);
        assert(t.take(j) =~= s.take(j));
    }
}

/// The host as the guard compares it.
pub fn normalized_guard_host(host: &str) -> (r: Vec<char>)
    ensures
        r@ == guard_host(host@),
{
    let v = chars_of(host);
    let n = v.len();
    let mut i: usize = 0;
    while i < n && (v[i] == '[' || v[i] == ']')
        invariant
            i <= n == v.len(),
            forall|k: int| 0 <= k < i ==> is_bracket(#[trigger] v@[k]),
        decreases n - i,
    {
        i = i + 1;
    }
    let mut j: usize = n;
    while j > i && (v[j - 1] == '[' || v[j - 1] == ']')
        invariant
            i <= j <= n == v.len(),
            forall|k: int| j <= k < n ==> is_bracket(#[trigger] v@[k]),
        decreases j,
    {
        j = j - 1;
    }
    let mut inner: Vec<char> = Vec::new();
    let mut k: usize = i;
    while k < j
        invariant
            i <= k <= j <= n == v.len(),
            inner@ == v@.subrange(i as int, k as int),
        decreases j - k,
    {
        inner.push(v[k]);
        assert(v@.subrange(i as int, k + 1) =~= v@.subrange(i as int, k as int).push(v@[k as int]));
        k = k + 1;
    }
    proof {
        lemma_strip_start_skip(v@, i as int);
        let t = v@.skip(i as int);
        assert forall|m: int| (j - i) <= m < t.len() implies is_bracket(#[trigger] t[m]) by {
            assert(t[m] == v@[m + i]);
        }
        if j > i {
            assert(t[j - i - 1] == v@[j - 1]);
        }
        lemma_strip_end_take(t, (j - i) as int);
        assert(t.take((j - i) as int) =~= v@.subrange(i as int, j as int));
    }
    to_ascii_lowercase(&inner)
}

/// Whether `h` names this machine or the local network.
pub fn is_local_host_name(h: &Vec<char>) -> (b: bool)
    ensures
        b == is_local_name(h@),
{
    let localhost = chars_of("localhost");
    let under_localhost = chars_of(".localhost");
    let under_local = chars_of(".local");
    let exact = h.len() == localhost.len() && ends_with(h, &localhost);
    proof {
        if h.len() == localhost.len() {
            assert(h@.skip(0) =~= h@);
        }
        if h@ == localhost@ {
            assert(h@.skip(0) =~= h@);
        }
    }
    exact || ends_with(h, &under_localhost) || ends_with(h, &under_local)
}

// ---------------------------------------------------------------------------
// The decision
// ---------------------------------------------------------------------------

/// The host name the caller must resolve before metadata is fetched from a
/// URL whose host is a name, and the port to resolve it on.
pub struct HostProbe {
    /// The host as the URL holds it.
    pub name: String,
    /// The URL's port, or its scheme's default, or 443.
    pub port: u16,
}

/// What resolving a host name gave.
pub enum HostLookup {
    /// The name resolves to these addresses.
    Resolved(Vec<IpAddress>),
    /// The name could not be resolved.
    Unresolved,
}

/// The host name to resolve for a URL: none when it has no host, names a
/// local host, or has an IP address for a host.
pub open spec fn probe_spec(u: UrlView) -> Option<(Seq<char>, u16)> {
    match u.host {
        None => None,
        Some(h) => if is_local_name(guard_host(h)) || u.address is Some {
            None
        } else {
            Some(
                (
                    h,
                    match u.port {
                        Some(p) => p,
                        None => 443u16,
                    },
                ),
            )
        },
    }
}

/// The view of a probe.
pub open spec fn probe_view(p: Option<HostProbe>) -> Option<(Seq<char>, u16)> {
    match p {
        Some(q) => Some((q.name@, q.port)),
        None => None,
    }
}

/// Whether a lookup shows only public addresses.
pub open spec fn lookup_allows(lookup: HostLookup) -> bool {
    match lookup {
        HostLookup::Resolved(v) => all_public(v@),
        HostLookup::Unresolved => false,
    }
}

/// Whether metadata may be fetched from a URL: never without a host or from
/// a local host name; from an IP address host only when it is public; from a
/// host name only when every address it resolves to is public.
pub open spec fn fetch_allowed_spec(u: UrlView, lookup: HostLookup) -> bool {
    match u.host {
        None => false,
        Some(h) => if is_local_name(guard_host(h)) {
            false
        } else {
            match u.address {
                Some(ip) => is_public_address(ip),
                None => lookup_allows(lookup),
            }
        },
    }
}

/// The host name to resolve before metadata is fetched from `url`, or `None`
/// when no resolution is needed.
pub fn metadata_probe(url: &WebUrl) -> (p: Option<HostProbe>)
    ensures
        probe_view(p) == probe_spec(url@),
{
    let host = match url.host_str() {
        Some(h) => h,
        None => return None,
    };
    let normalized = normalized_guard_host(host);
    if is_local_host_name(&normalized) || url.host_address().is_some() {
        return None;
    }
    let port = match url.port_or_known_default() {
        Some(p) => p,
        None => 443,
    };
    Some(HostProbe { name: crate::text::copy_of(host), port })
}

/// Whether metadata may be fetched from `url`, given what resolving its host
/// name gave (the lookup is not consulted for an IP address host).
pub fn metadata_fetch_allowed(url: &WebUrl, lookup: &HostLookup) -> (b: bool)
    ensures
        b == fetch_allowed_spec(url@, *lookup),
        url@.host is None ==> !b,
        url@.host matches Some(h) && is_local_name(guard_host(h)) ==> !b,
        url@.address matches Some(ip) && !is_public_address(ip) ==> !b,
{
    let host = match url.host_str() {
        Some(h) => h,
        None => return false,
    };
    let normalized = normalized_guard_host(host);
    if is_local_host_name(&normalized) {
        return false;
    }
    match url.host_address() {
        Some(ip) => is_public_ip(ip),
        None => match lookup {
            HostLookup::Resolved(v) => all_addresses_public(v),
            HostLookup::Unresolved => false,
        },
    }
}

} // verus!
