use favspace::web_url::{
    normalize_url, url_candidate, WebUrl, EMPTY_URL, INVALID_URL, ONLY_WEB_SCHEMES,
};

#[test]
fn normalizes_url_and_removes_fragment() {
    let url = normalize_url("example.com/path#section").unwrap();
    assert_eq!(url.as_str(), "https://example.com/path");
}

#[test]
fn normalized_urls_carry_no_fragment_and_keep_the_pasted_scheme() {
    let url = normalize_url("example.com/path#section").unwrap();
    assert_eq!(url.fragment(), None);
    assert_eq!(url.scheme(), "https");
    let url = normalize_url("  HTTP://Example.com/#x ").unwrap();
    assert_eq!(url.fragment(), None);
    assert_eq!(url.scheme(), "http");
    let url = normalize_url("https://example.com/a#").unwrap();
    assert_eq!(url.fragment(), None);
    assert_eq!(url.as_str(), "https://example.com/a");
    let raw = WebUrl::parse("https://example.com/a#frag").unwrap();
    assert_eq!(raw.fragment(), Some("frag"));
}

#[test]
fn rejects_non_web_schemes() {
    assert!(normalize_url("file:///C:/secret.txt").is_err());
}

#[test]
fn candidate_adds_https_to_bare_hosts() {
    assert_eq!(url_candidate("  example.com/a  ").unwrap(), "https://example.com/a");
}

#[test]
fn candidate_keeps_web_schemes_in_any_case() {
    assert_eq!(url_candidate("HTTP://Example.com").unwrap(), "HTTP://Example.com");
    assert_eq!(url_candidate("https://x.org").unwrap(), "https://x.org");
}

#[test]
fn candidate_refuses_blank_input() {
    assert_eq!(url_candidate(" \t\u{3000} ").unwrap_err(), EMPTY_URL);
    assert_eq!(normalize_url("").unwrap_err(), EMPTY_URL);
}

#[test]
fn candidate_refuses_other_schemes() {
    for raw in ["ftp://example.com", "mailto:me@example.com", "JavaScript:alert(1)", "data:text/plain,hi", "file:C:/x"] {
        assert_eq!(url_candidate(raw).unwrap_err(), ONLY_WEB_SCHEMES, "{raw}");
        assert_eq!(normalize_url(raw).unwrap_err(), ONLY_WEB_SCHEMES, "{raw}");
    }
}

#[test]
fn normalization_lowercases_scheme_and_host_and_drops_fragment() {
    let url = normalize_url("HTTP://Example.COM/Docs?q=1#top").unwrap();
    assert_eq!(url.as_str(), "http://example.com/Docs?q=1");
    assert_eq!(url.scheme(), "http");
    assert_eq!(url.host_str(), Some("example.com"));
    assert_eq!(url.port_or_known_default(), Some(80));
    assert_eq!(url.path(), "/Docs");
}

#[test]
fn normalization_refuses_unparsable_addresses() {
    assert_eq!(normalize_url("https://").unwrap_err(), INVALID_URL);
    assert_eq!(normalize_url("exa mple.com").unwrap_err(), INVALID_URL);
}

#[test]
fn parse_and_join_follow_the_url_crate() {
    let base = WebUrl::parse("https://alice.com/a/b").unwrap();
    assert_eq!(base.join("c.png").unwrap().as_str(), "https://alice.com/a/c.png");
    assert_eq!(base.join("//eve.com/b").unwrap().as_str(), "https://eve.com/b");
    assert_eq!(base.join("/favicon.ico").unwrap().as_str(), "https://alice.com/favicon.ico");
    assert!(WebUrl::parse("not a url").is_none());
}

#[test]
fn clearing_the_fragment_keeps_the_rest() {
    let mut url = WebUrl::parse("https://example.com:8443/p#frag").unwrap();
    url.clear_fragment();
    assert_eq!(url.as_str(), "https://example.com:8443/p");
    assert_eq!(url.port_or_known_default(), Some(8443));
    let copy = url.duplicate();
    assert_eq!(copy.as_str(), url.as_str());
}

#[test]
fn stored_addresses_parse_back_to_themselves() {
    for raw in ["example.com/path#section", " HTTP://Example.COM:80/a b?q=1#x ", "https://bücher.example/ä"] {
        let url = normalize_url(raw).unwrap();
        let again = WebUrl::parse(url.as_str()).unwrap();
        assert_eq!(again.as_str(), url.as_str(), "{raw}");
        let renormalized = normalize_url(url.as_str()).unwrap();
        assert_eq!(renormalized.as_str(), url.as_str(), "{raw}");
    }
}
