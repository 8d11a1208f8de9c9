use favspace::guard::{
    all_addresses_public, is_public_ip, metadata_fetch_allowed, metadata_probe, HostLookup,
    IpAddress,
};
use favspace::web_url::WebUrl;

fn v4(a: u8, b: u8, c: u8, d: u8) -> IpAddress {
    IpAddress::V4 { octets: [a, b, c, d] }
}

fn v6(segments: [u16; 8]) -> IpAddress {
    IpAddress::V6 { segments }
}

#[test]
fn blocks_local_metadata_targets() {
    assert!(!metadata_fetch_allowed(
        &WebUrl::parse("http://127.0.0.1/admin").unwrap(),
        &HostLookup::Unresolved,
    ));
    assert!(!metadata_fetch_allowed(
        &WebUrl::parse("http://localhost:3000").unwrap(),
        &HostLookup::Unresolved,
    ));
}

#[test]
fn private_and_special_ipv4_ranges_are_not_public() {
    for ip in [
        v4(10, 1, 2, 3),
        v4(172, 16, 0, 1),
        v4(172, 31, 255, 255),
        v4(192, 168, 1, 1),
        v4(127, 0, 0, 1),
        v4(169, 254, 3, 4),
        v4(0, 0, 0, 0),
        v4(224, 0, 0, 1),
        v4(239, 255, 255, 255),
        v4(100, 64, 0, 1),
        v4(100, 127, 255, 255),
    ] {
        assert!(!is_public_ip(ip), "{ip:?}");
    }
}

#[test]
fn ordinary_ipv4_addresses_are_public() {
    for ip in [v4(8, 8, 8, 8), v4(172, 32, 0, 1), v4(100, 128, 0, 1), v4(193, 168, 0, 1), v4(240, 0, 0, 1)] {
        assert!(is_public_ip(ip), "{ip:?}");
    }
}

#[test]
fn special_ipv6_ranges_are_not_public() {
    for ip in [
        v6([0, 0, 0, 0, 0, 0, 0, 1]),
        v6([0; 8]),
        v6([0xff02, 0, 0, 0, 0, 0, 0, 1]),
        v6([0xfd00, 0, 0, 0, 0, 0, 0, 1]),
        v6([0xfc00, 0, 0, 0, 0, 0, 0, 1]),
        v6([0xfe80, 0, 0, 0, 0, 0, 0, 1]),
        v6([0xfebf, 0, 0, 0, 0, 0, 0, 1]),
    ] {
        assert!(!is_public_ip(ip), "{ip:?}");
    }
    assert!(is_public_ip(v6([0x2001, 0xdb8, 0, 0, 0, 0, 0, 1])));
    assert!(is_public_ip(v6([0xfec0, 0, 0, 0, 0, 0, 0, 1])));
}

#[test]
fn all_addresses_must_be_public() {
    assert!(all_addresses_public(&vec![]));
    assert!(all_addresses_public(&vec![v4(8, 8, 8, 8), v4(1, 1, 1, 1)]));
    assert!(!all_addresses_public(&vec![v4(8, 8, 8, 8), v4(10, 0, 0, 1)]));
}

#[test]
fn probe_reports_host_name_and_port() {
    let probe = metadata_probe(&WebUrl::parse("https://Example.com:8080/x").unwrap()).unwrap();
    assert_eq!(probe.name, "example.com");
    assert_eq!(probe.port, 8080);
    let probe = metadata_probe(&WebUrl::parse("http://example.org/").unwrap()).unwrap();
    assert_eq!(probe.name, "example.org");
    assert_eq!(probe.port, 80);
}

#[test]
fn address_hosts_need_no_resolution() {
    for raw in ["http://[::1]/", "http://8.8.8.8/", "http://[::ffff:127.0.0.1]/"] {
        assert!(metadata_probe(&WebUrl::parse(raw).unwrap()).is_none(), "{raw}");
    }
}

#[test]
fn local_host_names_are_never_probed() {
    for raw in ["http://localhost", "http://LOCALHOST:8080", "http://printer.local/", "http://app.localhost/x"] {
        assert!(metadata_probe(&WebUrl::parse(raw).unwrap()).is_none(), "{raw}");
    }
    assert!(metadata_probe(&WebUrl::parse("http://localhost.example.com").unwrap()).is_some());
}

#[test]
fn resolution_decides_for_host_names() {
    let url = WebUrl::parse("https://example.com/").unwrap();
    assert!(metadata_fetch_allowed(&url, &HostLookup::Resolved(vec![v4(93, 184, 216, 34)])));
    assert!(!metadata_fetch_allowed(
        &url,
        &HostLookup::Resolved(vec![v4(93, 184, 216, 34), v4(192, 168, 0, 1)])
    ));
    assert!(!metadata_fetch_allowed(&url, &HostLookup::Unresolved));
}

#[test]
fn address_hosts_are_judged_by_the_address_alone() {
    let public = WebUrl::parse("http://8.8.8.8/").unwrap();
    assert!(metadata_fetch_allowed(&public, &HostLookup::Unresolved));
    let private = WebUrl::parse("http://10.0.0.1/").unwrap();
    assert!(!metadata_fetch_allowed(&private, &HostLookup::Resolved(vec![v4(8, 8, 8, 8)])));
    let loopback6 = WebUrl::parse("http://[::1]:8080/").unwrap();
    assert!(!metadata_fetch_allowed(&loopback6, &HostLookup::Resolved(vec![v4(8, 8, 8, 8)])));
}

#[test]
fn mapped_ipv6_addresses_follow_the_ipv4_rules() {
    assert!(!is_public_ip(v6([0, 0, 0, 0, 0, 0xffff, 0x7f00, 1])));
    assert!(!is_public_ip(v6([0, 0, 0, 0, 0, 0xffff, 0x0a00, 1])));
    assert!(!is_public_ip(v6([0, 0, 0, 0, 0, 0xffff, 0xc0a8, 0x0101])));
    assert!(!is_public_ip(v6([0, 0, 0, 0, 0, 0xffff, 0xa9fe, 0x0304])));
    assert!(is_public_ip(v6([0, 0, 0, 0, 0, 0xffff, 0x0808, 0x0808])));
    assert!(!metadata_fetch_allowed(
        &WebUrl::parse("http://[::ffff:127.0.0.1]/").unwrap(),
        &HostLookup::Unresolved,
    ));
    assert!(!metadata_fetch_allowed(
        &WebUrl::parse("http://[::ffff:10.0.0.1]/").unwrap(),
        &HostLookup::Resolved(vec![v4(8, 8, 8, 8)]),
    ));
    assert!(metadata_fetch_allowed(
        &WebUrl::parse("http://[::ffff:8.8.8.8]/").unwrap(),
        &HostLookup::Unresolved,
    ));
}
