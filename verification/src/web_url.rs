//! Web addresses: the parsed URL that the library works with, and the
//! normalization that turns what a user pasted into an address to store.

use url::Host;
use url::Url;
use vstd::prelude::*;

use crate::text::{
    ascii_lowercase, chars_of, contains, copy_of, has_infix, has_prefix, is_whitespace, joined,
    same_text, starts_with, to_ascii_lowercase, trim, trim_end, trim_start, trimmed,
};

use crate::guard::IpAddress;

verus! {

/// `url::Url`, carried opaquely inside [`WebUrl`].
#[verifier::external_type_specification]
#[verifier::external_body]
pub struct ExUrl(Url);

// A `url::Url` is determined by its serialization (its equality compares
// serializations), so what the library reads of a URL is named as a
// function of that serialization.

/// The serialization of what `url::Url::parse` gives for `input`; `None`
/// where it returns an error.
pub uninterp spec fn url_parse_result(input: Seq<char>) -> Option<Seq<char>>;

/// The serialization of what `url::Url::join` gives for the URL serialized as
/// `base` and the reference `reference`; `None` where it returns an error.
pub uninterp spec fn url_join_result(base: Seq<char>, reference: Seq<char>) -> Option<Seq<char>>;

/// The serialization that `url::Url::set_fragment(None)` leaves of the URL
/// serialized as `serialization`.
pub uninterp spec fn fragment_cleared(serialization: Seq<char>) -> Seq<char>;

/// `url::Url::scheme` of the URL serialized as `serialization`.
pub uninterp spec fn url_scheme(serialization: Seq<char>) -> Seq<char>;

/// `url::Url::host_str` of the URL serialized as `serialization`.
pub uninterp spec fn url_host(serialization: Seq<char>) -> Option<Seq<char>>;

/// The IP address that `url::Url::host` holds for the URL serialized as
/// `serialization`; `None` for a domain or no host.
pub uninterp spec fn url_host_address(serialization: Seq<char>) -> Option<IpAddress>;

/// `url::Url::port_or_known_default` of the URL serialized as
/// `serialization`.
pub uninterp spec fn url_port(serialization: Seq<char>) -> Option<u16>;

/// `url::Url::path` of the URL serialized as `serialization`.
pub uninterp spec fn url_path(serialization: Seq<char>) -> Seq<char>;

/// `url::Url::fragment` of the URL serialized as `serialization`.
pub uninterp spec fn url_fragment(serialization: Seq<char>) -> Option<Seq<char>>;

/// What the library reads of a parsed URL.
pub struct UrlView {
    /// The whole serialization (`Url::as_str`).
    pub serialization: Seq<char>,
    /// The lower-case scheme without `:` (`Url::scheme`).
    pub scheme: Seq<char>,
    /// The host as written in the serialization (`Url::host_str`).
    pub host: Option<Seq<char>>,
    /// The host's IP address, when the parser read it as one (`Url::host`).
    pub address: Option<IpAddress>,
    /// The explicit port, or the scheme's default one (`Url::port_or_known_default`).
    pub port: Option<u16>,
    /// The path (`Url::path`).
    pub path: Seq<char>,
    /// The fragment (`Url::fragment`).
    pub fragment: Option<Seq<char>>,
}

/// What the library reads of the URL serialized as `s`.
pub open spec fn url_view(s: Seq<char>) -> UrlView {
    UrlView {
        serialization: s,
        scheme: url_scheme(s),
        host: url_host(s),
        address: url_host_address(s),
        port: url_port(s),
        path: url_path(s),
        fragment: url_fragment(s),
    }
}

/// What `url::Url::parse` gives for `input`; `None` where it returns an
/// error.
pub open spec fn parsed_url(input: Seq<char>) -> Option<UrlView> {
    match url_parse_result(input) {
        Some(s) => Some(url_view(s)),
        None => None,
    }
}

/// What `url::Url::join` gives for the URL serialized as `base` and the
/// reference `reference`; `None` where it returns an error.
pub open spec fn joined_url(base: Seq<char>, reference: Seq<char>) -> Option<UrlView> {
    match url_join_result(base, reference) {
        Some(s) => Some(url_view(s)),
        None => None,
    }
}

/// A parsed URL: the `url::Url` itself and its serialization.
#[derive(Debug)]
pub struct WebUrl {
    inner: Url,
    serialization: String,
}

/// The view of an optional string.
pub open spec fn opt_view(s: Option<String>) -> Option<Seq<char>> {
    match s {
        Some(t) => Some(t@),
        None => None,
    }
}

impl View for WebUrl {
    type V = UrlView;

    closed spec fn view(&self) -> UrlView {
        url_view(self.serialization@)
    }
}

/// The view of an optional URL.
pub open spec fn opt_url_view(u: Option<WebUrl>) -> Option<UrlView> {
    match u {
        Some(v) => Some(v@),
        None => None,
    }
}

/// `url::Url::parse`. The serialization of the result is named. The parser
/// reads the scheme up to the first `:` and lower-cases it (`Url::scheme`), so
/// an input that starts with `http://` or `https://`, in any case, gives that
/// scheme. Every `Url` keeps the invariants that `Url::check_invariants`
/// tests, among them that parsing its serialization again gives the same
/// serialization.
#[verifier::external_body]
fn url_parse(input: &str) -> (res: Option<WebUrl>)
    ensures
        match res {
            Some(u) => url_parse_result(input@) == Some(u@.serialization),
            None => url_parse_result(input@) is None,
        },
        has_prefix(ascii_lowercase(input@), "http://"@) ==> (res matches Some(u) ==> url_scheme(
            u@.serialization,
        ) == "http"@),
        has_prefix(ascii_lowercase(input@), "https://"@) ==> (res matches Some(u) ==> url_scheme(
            u@.serialization,
        ) == "https"@),
        res matches Some(u) ==> url_parse_result(u@.serialization) == Some(u@.serialization),
{
    match Url::parse(input) {
        Ok(u) => Some(WebUrl { serialization: u.as_str().to_string(), inner: u }),
        Err(_) => None,
    }
}

/// `url::Url::join`: the serialization of the result is named.
#[verifier::external_body]
fn url_join(base: &WebUrl, reference: &str) -> (res: Option<WebUrl>)
    ensures
        match res {
            Some(u) => url_join_result(base@.serialization, reference@) == Some(u@.serialization),
            None => url_join_result(base@.serialization, reference@) is None,
        },
{
    match base.inner.join(reference) {
        Ok(u) => Some(WebUrl { serialization: u.as_str().to_string(), inner: u }),
        Err(_) => None,
    }
}

/// No char of `s` is whitespace.
pub open spec fn free_of_whitespace(s: Seq<char>) -> bool {
    forall|i: int| 0 <= i < s.len() ==> !is_whitespace(#[trigger] s[i])
}

/// `url::Url::set_fragment(None)`. Its source truncates the serialization
/// where the fragment starts, clears the fragment, and touches neither the
/// scheme, the host nor the port; the path of a URL with a host is left as it
/// was. The new serialization is named; that it is a prefix of the old one is
/// the truncation the source performs. Of the URL it leaves, the contract
/// also states what the crate's source keeps of every `Url`:
/// - parsing the serialization again gives it back (`Url::check_invariants`);
/// - with a host, the serialization is the scheme, `://` and the rest
///   (`Url::scheme` is the slice before the `:`, and `check_invariants`
///   demands the `//` of an authority wherever there is a host);
/// - with a host and the scheme `http` or `https`, no char of it is
///   whitespace: the parser drops tabs and newlines, the host goes through
///   `idna` with the URL deny list (which refuses spaces and controls),
///   every other component is percent-encoded with a set that holds the
///   space and the controls, and every non-ASCII byte is always
///   percent-encoded;
/// - with a host, clearing the fragment once more changes nothing (there is
///   no fragment to cut, and the path is not opaque).
#[verifier::external_body]
fn url_clear_fragment(url: &mut WebUrl)
    ensures
        final(url)@.serialization == fragment_cleared(old(url)@.serialization),
        has_prefix(old(url)@.serialization, final(url)@.serialization),
        final(url)@.fragment is None,
        final(url)@.scheme == old(url)@.scheme,
        final(url)@.host == old(url)@.host,
        final(url)@.address == old(url)@.address,
        final(url)@.port == old(url)@.port,
        old(url)@.host is Some ==> final(url)@.path == old(url)@.path,
        url_parse_result(final(url)@.serialization) == Some(final(url)@.serialization),
        final(url)@.host is Some ==> has_prefix(
            final(url)@.serialization,
            final(url)@.scheme + "://"@,
        ),
        final(url)@.host is Some && is_web_scheme(final(url)@.scheme) ==> free_of_whitespace(
            final(url)@.serialization,
        ),
        final(url)@.host is Some ==> fragment_cleared(final(url)@.serialization)
            == final(url)@.serialization,
{
    url.inner.set_fragment(None);
    url.serialization = url.inner.as_str().to_string();
}

/// `url::Url::scheme`.
#[verifier::external_body]
fn url_scheme_of(url: &WebUrl) -> (s: &str)
    ensures
        s@ == url_scheme(url@.serialization),
{
    url.inner.scheme()
}

/// `url::Url::host_str`.
#[verifier::external_body]
fn url_host_of(url: &WebUrl) -> (h: Option<&str>)
    ensures
        match h {
            Some(s) => url_host(url@.serialization) == Some(s@),
            None => url_host(url@.serialization) is None,
        },
{
    url.inner.host_str()
}

/// `url::Url::host`, with an IPv4 or IPv6 host converted to [`IpAddress`].
#[verifier::external_body]
fn url_host_address_of(url: &WebUrl) -> (a: Option<IpAddress>)
    ensures
        a == url_host_address(url@.serialization),
{
    match url.inner.host() {
        Some(Host::Ipv4(ip)) => Some(IpAddress::V4 { octets: ip.octets() }),
        Some(Host::Ipv6(ip)) => Some(IpAddress::V6 { segments: ip.segments() }),
        _ => None,
    }
}

/// `url::Url::port_or_known_default`.
#[verifier::external_body]
fn url_port_of(url: &WebUrl) -> (p: Option<u16>)
    ensures
        p == url_port(url@.serialization),
{
    url.inner.port_or_known_default()
}

/// `url::Url::path`.
#[verifier::external_body]
fn url_path_of(url: &WebUrl) -> (s: &str)
    ensures
        s@ == url_path(url@.serialization),
{
    url.inner.path()
}

/// `url::Url::fragment`.
#[verifier::external_body]
fn url_fragment_of(url: &WebUrl) -> (f: Option<&str>)
    ensures
        match f {
            Some(s) => url_fragment(url@.serialization) == Some(s@),
            None => url_fragment(url@.serialization) is None,
        },
{
    url.inner.fragment()
}

/// `<url::Url as Clone>::clone`; nothing is stated of the copy, which only
/// ever travels with the serialization copied beside it.
#[verifier::external_body]
fn url_clone(u: &Url) -> Url {
    u.clone()
}

impl WebUrl {
    /// Parses an absolute URL (`url::Url::parse`).
    pub fn parse(input: &str) -> (res: Option<WebUrl>)
        ensures
            opt_url_view(res) == parsed_url(input@),
            has_prefix(ascii_lowercase(input@), "http://"@) ==> (res matches Some(u) ==> u@.scheme
                == "http"@),
            has_prefix(ascii_lowercase(input@), "https://"@) ==> (res matches Some(u) ==> u@.scheme
                == "https"@),
            res matches Some(u) ==> parsed_url(u@.serialization) == Some(u@),
    {
        url_parse(input)
    }

    /// Resolves `reference` against this URL (`url::Url::join`).
    pub fn join(&self, reference: &str) -> (res: Option<WebUrl>)
        ensures
            opt_url_view(res) == joined_url(self@.serialization, reference@),
    {
        url_join(self, reference)
    }

    /// The serialization.
    pub fn as_str(&self) -> (s: &str)
        ensures
            s@ == self@.serialization,
    {
        self.serialization.as_str()
    }

    /// The lower-case scheme.
    pub fn scheme(&self) -> (s: &str)
        ensures
            s@ == self@.scheme,
    {
        url_scheme_of(self)
    }

    /// The host, as written in the serialization.
    pub fn host_str(&self) -> (h: Option<&str>)
        ensures
            match h {
                Some(s) => self@.host == Some(s@),
                None => self@.host is None,
            },
    {
        url_host_of(self)
    }

    /// The host's IP address, when the parser read the host as one.
    pub fn host_address(&self) -> (a: Option<IpAddress>)
        ensures
            a == self@.address,
    {
        url_host_address_of(self)
    }

    /// The explicit port, or the scheme's default one.
    pub fn port_or_known_default(&self) -> (p: Option<u16>)
        ensures
            p == self@.port,
    {
        url_port_of(self)
    }

    /// The path.
    pub fn path(&self) -> (s: &str)
        ensures
            s@ == self@.path,
    {
        url_path_of(self)
    }

    /// The fragment.
    pub fn fragment(&self) -> (f: Option<&str>)
        ensures
            match f {
                Some(s) => self@.fragment == Some(s@),
                None => self@.fragment is None,
            },
    {
        url_fragment_of(self)
    }

    /// A copy of this URL.
    pub fn duplicate(&self) -> (r: WebUrl)
        ensures
            r@ == self@,
    {
        WebUrl {
            inner: url_clone(&self.inner),
            serialization: copy_of(self.serialization.as_str()),
        }
    }

    /// Drops the fragment (`url::Url::set_fragment(None)`).
    pub fn clear_fragment(&mut self)
        ensures
            final(self)@.serialization == fragment_cleared(old(self)@.serialization),
            has_prefix(old(self)@.serialization, final(self)@.serialization),
            final(self)@.fragment is None,
            final(self)@.scheme == old(self)@.scheme,
            final(self)@.host == old(self)@.host,
            final(self)@.address == old(self)@.address,
            final(self)@.port == old(self)@.port,
            old(self)@.host is Some ==> final(self)@.path == old(self)@.path,
            parsed_url(final(self)@.serialization) == Some(final(self)@),
            final(self)@.host is Some ==> has_prefix(
                final(self)@.serialization,
                final(self)@.scheme + "://"@,
            ),
            final(self)@.host is Some && is_web_scheme(final(self)@.scheme) ==> free_of_whitespace(
                final(self)@.serialization,
            ),
            final(self)@.host is Some ==> fragment_cleared(final(self)@.serialization)
                == final(self)@.serialization,
    {
        url_clear_fragment(self);
    }
}

// ---------------------------------------------------------------------------
// Normalization of what a user pastes
// ---------------------------------------------------------------------------

/// Refusal of an empty address.
pub const EMPTY_URL: &'static str = "URL boş olamaz.";

/// Refusal of a scheme other than http and https.
pub const ONLY_WEB_SCHEMES: &'static str = "Yalnızca http ve https bağlantıları destekleniyor.";

/// Refusal of what `url` cannot parse.
pub const INVALID_URL: &'static str = "Geçerli bir URL girin.";

/// Refusal of an address without a host.
pub const MISSING_HOST: &'static str = "URL içinde geçerli bir alan adı bulunamadı.";

/// Schemes that are refused outright, before any parsing.
pub open spec fn refused_scheme_prefix(lower: Seq<char>) -> bool {
    ||| has_prefix(lower, "file:"@)
    ||| has_prefix(lower, "javascript:"@)
    ||| has_prefix(lower, "data:"@)
    ||| has_prefix(lower, "mailto:"@)
}

/// The text handed to the URL parser for what the user pasted, or the
/// refusal: the trimmed input as it is when it starts with `http://` or
/// `https://` (in any case), refused when it names another scheme, and
/// otherwise prefixed with `https://`.
pub open spec fn url_candidate_spec(raw: Seq<char>) -> Result<Seq<char>, Seq<char>> {
    let t = trimmed(raw);
    let lower = ascii_lowercase(t);
    if t.len() == 0 {
        Err(EMPTY_URL@)
    } else if has_prefix(lower, "http://"@) || has_prefix(lower, "https://"@) {
        Ok(t)
    } else if has_infix(t, "://"@) || refused_scheme_prefix(lower) {
        Err(ONLY_WEB_SCHEMES@)
    } else {
        Ok("https://"@ + t)
    }
}

/// What the user pasted reaches the URL parser as it was typed, chars and
/// case kept, only trimmed: as it is when it starts with `http://` or
/// `https://` in any case, and after `https://` when it names no scheme at
/// all. Blank input, and input that names another scheme, is refused.
pub proof fn law_candidate_keeps_the_text(raw: Seq<char>)
    ensures
        url_candidate_spec(raw) matches Ok(c) ==> (c == trimmed(raw) || c == "https://"@
            + trimmed(raw)),
        trimmed(raw).len() == 0 ==> url_candidate_spec(raw) == Err::<Seq<char>, Seq<char>>(
            EMPTY_URL@,
        ),
        (has_prefix(ascii_lowercase(trimmed(raw)), "http://"@) || has_prefix(
            ascii_lowercase(trimmed(raw)),
            "https://"@,
        )) ==> url_candidate_spec(raw) == Ok::<Seq<char>, Seq<char>>(trimmed(raw)),
        ({
            let t = trimmed(raw);
            let lower = ascii_lowercase(t);
            t.len() > 0 && !has_prefix(lower, "http://"@) && !has_prefix(lower, "https://"@)
                && !has_infix(t, "://"@) && !refused_scheme_prefix(lower)
        }) ==> url_candidate_spec(raw) == Ok::<Seq<char>, Seq<char>>("https://"@ + trimmed(raw)),
        ({
            let t = trimmed(raw);
            let lower = ascii_lowercase(t);
            !has_prefix(lower, "http://"@) && !has_prefix(lower, "https://"@) && (has_infix(
                t,
                "://"@,
            ) || refused_scheme_prefix(lower))
        }) ==> url_candidate_spec(raw) is Err,
{
    reveal_strlit("http://");
    reveal_strlit("https://");
    let t = trimmed(raw);
    let lower = ascii_lowercase(t);
    if has_prefix(lower, "http://"@) {
        assert(lower.len() > 0);
    }
    if has_prefix(lower, "https://"@) {
        assert(lower.len() > 0);
    }
}

/// `s` is `http` or `https`.
pub open spec fn is_web_scheme(s: Seq<char>) -> bool {
    s == "http"@ || s == "https"@
}

/// What the checks after parsing make of the parser's answer: a refusal,
/// or the parsed URL without its fragment.
pub open spec fn finished_url_spec(parsed: Option<UrlView>) -> Result<UrlView, Seq<char>> {
    match parsed {
        None => Err(INVALID_URL@),
        Some(u) => if !is_web_scheme(u.scheme) {
            Err(ONLY_WEB_SCHEMES@)
        } else if u.host is None {
            Err(MISSING_HOST@)
        } else {
            Ok(url_view(fragment_cleared(u.serialization)))
        },
    }
}

/// The whole normalization of a pasted address.
pub open spec fn normalize_url_spec(raw: Seq<char>) -> Result<UrlView, Seq<char>> {
    match url_candidate_spec(raw) {
        Err(e) => Err(e),
        Ok(c) => finished_url_spec(parsed_url(c)),
    }
}

/// The view of a normalization result.
pub open spec fn url_result_view(r: Result<WebUrl, String>) -> Result<UrlView, Seq<char>> {
    match r {
        Ok(u) => Ok(u@),
        Err(e) => Err(e@),
    }
}

/// The refusal `msg` as an owned string.
fn refusal(msg: &str) -> (r: Result<WebUrl, String>)
    ensures
        url_result_view(r) == Err::<UrlView, Seq<char>>(msg@),
{
    Err(copy_of(msg))
}

/// The text to parse for what the user pasted, or the refusal.
pub fn url_candidate(raw: &str) -> (res: Result<String, String>)
    ensures
        match res {
            Ok(c) => url_candidate_spec(raw@) == Ok::<Seq<char>, Seq<char>>(c@),
            Err(e) => url_candidate_spec(raw@) == Err::<Seq<char>, Seq<char>>(e@),
        },
{
    let t = trim(raw);
    let tv = chars_of(t.as_str());
    if tv.len() == 0 {
        return Err(copy_of(EMPTY_URL));
    }
    let lower = to_ascii_lowercase(&tv);
    let http = chars_of("http://");
    let https = chars_of("https://");
    if starts_with(&lower, &http) || starts_with(&lower, &https) {
        return Ok(t);
    }
    let separator = chars_of("://");
    let file = chars_of("file:");
    let javascript = chars_of("javascript:");
    let data = chars_of("data:");
    let mailto = chars_of("mailto:");
    if contains(&tv, &separator) || starts_with(&lower, &file) || starts_with(&lower, &javascript)
        || starts_with(&lower, &data) || starts_with(&lower, &mailto) {
        return Err(copy_of(ONLY_WEB_SCHEMES));
    }
    Ok(joined("https://", t.as_str()))
}

/// The checks after parsing: a parse failure, a scheme other than http and
/// https, or a missing host is refused; otherwise the fragment is dropped,
/// and the scheme and host stay as parsed.
pub fn finish_normalized_url(parsed: Option<WebUrl>) -> (res: Result<WebUrl, String>)
    ensures
        url_result_view(res) == finished_url_spec(opt_url_view(parsed)),
        res matches Ok(v) ==> v@.fragment is None,
        res matches Ok(v) ==> parsed_url(v@.serialization) == Some(v@),
        res matches Ok(v) ==> normalize_url_spec(v@.serialization) == Ok::<UrlView, Seq<char>>(
            v@,
        ),
        res matches Ok(v) ==> (parsed matches Some(p) && v@.scheme == p@.scheme && v@.host
            == p@.host),
{
    match parsed {
        None => refusal(INVALID_URL),
        Some(mut u) => {
            let http = same_text(u.scheme(), "http");
            let https = same_text(u.scheme(), "https");
            if !(http || https) {
                return refusal(ONLY_WEB_SCHEMES);
            }
            if u.host_str().is_none() {
                return refusal(MISSING_HOST);
            }
            u.clear_fragment();
            proof {
                lemma_stored_url_renormalizes(u@);
            }
            Ok(u)
        },
    }
}

/// Normalizes what the user pasted into the web address to store: only
/// `http` and `https` addresses with a host are accepted, a missing scheme
/// means `https`, and the fragment is dropped. The stored text parses back
/// to the same address.
pub fn normalize_url(raw: &str) -> (res: Result<WebUrl, String>)
    ensures
        url_result_view(res) == normalize_url_spec(raw@),
        res matches Ok(u) ==> is_web_scheme(u@.scheme) && u@.host is Some,
        res matches Ok(u) ==> u@.fragment is None,
        res matches Ok(u) ==> parsed_url(u@.serialization) == Some(u@),
        res matches Ok(u) ==> normalize_url_spec(u@.serialization) == Ok::<UrlView, Seq<char>>(
            u@,
        ),
        res matches Ok(u) ==> (u@.scheme == "http"@ <==> has_prefix(
            ascii_lowercase(trimmed(raw@)),
            "http://"@,
        )),
        refused_scheme_prefix(ascii_lowercase(trimmed(raw@))) ==> res is Err,
        res matches Ok(u) ==> exists|c: Seq<char>|
            #![trigger parsed_url(c)]
            parsed_url(c) matches Some(p) && u@.serialization == fragment_cleared(p.serialization),
{
    proof {
        let lower = ascii_lowercase(trimmed(raw@));
        if refused_scheme_prefix(lower) {
            lemma_refused_not_web(lower);
        }
    }
    match url_candidate(raw) {
        Err(e) => Err(e),
        Ok(c) => {
            proof {
                lemma_candidate_scheme(raw@);
            }
            let parsed = WebUrl::parse(c.as_str());
            proof {
                reveal_strlit("http");
                reveal_strlit("https");
                assert("http"@.len() != "https"@.len());
            }
            let res = finish_normalized_url(parsed);
            proof {
                if has_prefix(ascii_lowercase(trimmed(raw@)), "http://"@) {
                    assert(has_prefix(ascii_lowercase(c@), "http://"@));
                } else {
                    assert(has_prefix(ascii_lowercase(c@), "https://"@));
                }
            }
            res
        },
    }
}

/// The text of a stored address normalizes to the same address: it has no
/// whitespace to trim, it starts with `http://` or `https://`, it parses back
/// to itself, and it has no fragment to drop.
proof fn lemma_stored_url_renormalizes(u: UrlView)
    requires
        u == url_view(u.serialization),
        u.host is Some,
        is_web_scheme(u.scheme),
        u.fragment is None,
        url_parse_result(u.serialization) == Some(u.serialization),
        has_prefix(u.serialization, u.scheme + "://"@),
        free_of_whitespace(u.serialization),
        fragment_cleared(u.serialization) == u.serialization,
    ensures
        normalize_url_spec(u.serialization) == Ok::<UrlView, Seq<char>>(u),
{
    reveal_strlit("http");
    reveal_strlit("https");
    reveal_strlit("://");
    reveal_strlit("http://");
    reveal_strlit("https://");
    let s = u.serialization;
    let p = u.scheme + "://"@;
    assert(s.len() > 0);
    assert(!is_whitespace(s[0]));
    assert(trim_start(s) == s);
    assert(!is_whitespace(s[s.len() - 1]));
    assert(trim_end(s) == s);
    assert(trimmed(s) == s);
    let lower = ascii_lowercase(s);
    assert(ascii_lowercase(p) =~= p);
    assert(lower.take(p.len() as int) =~= ascii_lowercase(s.take(p.len() as int)));
    if u.scheme == "http"@ {
        assert(p =~= "http://"@);
        assert(has_prefix(lower, "http://"@));
    } else {
        assert(p =~= "https://"@);
        assert(has_prefix(lower, "https://"@));
    }
    assert(url_candidate_spec(s) == Ok::<Seq<char>, Seq<char>>(s));
    assert(parsed_url(s) == Some(u));
}

/// The text handed to the parser starts with `http://` exactly when the
/// trimmed input does (in any case), and with `https://` otherwise.
proof fn lemma_candidate_scheme(raw: Seq<char>)
    ensures
        url_candidate_spec(raw) matches Ok(c) ==> {
            &&& has_prefix(ascii_lowercase(trimmed(raw)), "http://"@) ==> has_prefix(
                ascii_lowercase(c),
                "http://"@,
            )
            &&& !has_prefix(ascii_lowercase(trimmed(raw)), "http://"@) ==> has_prefix(
                ascii_lowercase(c),
                "https://"@,
            )
        },
{
    reveal_strlit("http://");
    reveal_strlit("https://");
    let t = trimmed(raw);
    let lower = ascii_lowercase(t);
    if url_candidate_spec(raw) is Ok {
        if !has_prefix(lower, "http://"@) && !has_prefix(lower, "https://"@) {
            let c = "https://"@ + t;
            assert(ascii_lowercase(c) =~= ascii_lowercase("https://"@) + lower);
            assert(ascii_lowercase("https://"@) =~= "https://"@);
            assert(ascii_lowercase(c).take(8) =~= "https://"@);
        }
    }
}

/// A text that starts with a refused scheme does not start with `http://`
/// or `https://`.
proof fn lemma_refused_not_web(lower: Seq<char>)
    requires
        refused_scheme_prefix(lower),
    ensures
        !has_prefix(lower, "http://"@),
        !has_prefix(lower, "https://"@),
{
    reveal_strlit("http://");
    reveal_strlit("https://");
    reveal_strlit("file:");
    reveal_strlit("javascript:");
    reveal_strlit("data:");
    reveal_strlit("mailto:");
    assert(has_prefix(lower, "http://"@) ==> lower[0] == 'h') by {
        if has_prefix(lower, "http://"@) {
            assert(lower.take(7)[0] == lower[0]);
        }
    }
    assert(has_prefix(lower, "https://"@) ==> lower[0] == 'h') by {
        if has_prefix(lower, "https://"@) {
            assert(lower.take(8)[0] == lower[0]);
        }
    }
    assert(has_prefix(lower, "file:"@) ==> lower[0] == 'f') by {
        if has_prefix(lower, "file:"@) {
            assert(lower.take(5)[0] == lower[0]);
        }
    }
    assert(has_prefix(lower, "javascript:"@) ==> lower[0] == 'j') by {
        if has_prefix(lower, "javascript:"@) {
            assert(lower.take(11)[0] == lower[0]);
        }
    }
    assert(has_prefix(lower, "data:"@) ==> lower[0] == 'd') by {
        if has_prefix(lower, "data:"@) {
            assert(lower.take(5)[0] == lower[0]);
        }
    }
    assert(has_prefix(lower, "mailto:"@) ==> lower[0] == 'm') by {
        if has_prefix(lower, "mailto:"@) {
            assert(lower.take(7)[0] == lower[0]);
        }
    }
}

} // verus!
