//! What the library reads from a fetched web page: its title, its
//! description, the icons it links to, and the file an icon is cached in.

use scraper::Html;
use scraper::Selector;
use vstd::prelude::*;
use vstd::utf8::{decode_utf8, encode_utf8, valid_utf8};

use crate::digest::{
    hex_lower, lemma_hex_lower_plain, lemma_plain_name_concat, plain_name, plain_name_char, sha256,
    sha256_hex,
};
use crate::text::{
    chars_of, copy_of, ends_with, first_chars, first_chars_of, has_suffix, joined, same_text,
    trim_bounds, trimmed,
};
use crate::web_url::{is_web_scheme, joined_url, UrlView, WebUrl};

verus! {

/// The most chars of a page title that are kept.
pub const TITLE_LIMIT: usize = 180;

/// The most chars of a page description that are kept.
pub const DESCRIPTION_LIMIT: usize = 320;

/// The most icons that are tried for one page.
pub const ICON_CANDIDATE_LIMIT: usize = 6;

/// The largest page body, in bytes, that is read.
pub const PAGE_BYTE_LIMIT: u64 = 1_500_000;

/// The largest icon body, in bytes, that is kept.
pub const ICON_BYTE_LIMIT: u64 = 600_000;

/// What `String::from_utf8_lossy` gives for `bytes`.
pub uninterp spec fn utf8_lossy(bytes: Seq<u8>) -> Seq<char>;

/// What `scraper` selects in the HTML document `html` with the CSS selector
/// `selector`: the text of each matching element, in document order; `None`
/// where the selector does not parse.
pub uninterp spec fn html_selected_texts(html: Seq<char>, selector: Seq<char>) -> Option<
    Seq<Seq<char>>,
>;

/// What `scraper` selects in the HTML document `html` with the CSS selector
/// `selector`: the attribute `attr` of each matching element, in document
/// order (`None` for an element without it); `None` where the selector does
/// not parse.
pub uninterp spec fn html_selected_attrs(
    html: Seq<char>,
    selector: Seq<char>,
    attr: Seq<char>,
) -> Option<Seq<Option<Seq<char>>>>;

/// The elements whose text is the page title.
pub const TITLE_SELECTOR: &'static str = "title";

/// The elements whose `content` is the page description.
pub const DESCRIPTION_SELECTOR: &'static str =
    "meta[name='description'], meta[property='og:description']";

/// The elements whose `href` is an icon of the page.
pub const ICON_SELECTOR: &'static str =
    "link[rel~='icon'], link[rel='shortcut icon'], link[rel='apple-touch-icon']";

/// The first of the selected texts.
pub open spec fn first_text(texts: Option<Seq<Seq<char>>>) -> Option<Seq<char>> {
    match texts {
        Some(v) => if v.len() > 0 {
            Some(v[0])
        } else {
            None
        },
        None => None,
    }
}

/// The first attribute value that is present.
pub open spec fn first_present(v: Seq<Option<Seq<char>>>) -> Option<Seq<char>>
    decreases v.len(),
{
    if v.len() == 0 {
        None
    } else if v[0] is Some {
        v[0]
    } else {
        first_present(v.drop_first())
    }
}

/// The attribute values that are present, in order.
pub open spec fn present_values(v: Seq<Option<Seq<char>>>) -> Seq<Seq<char>>
    decreases v.len(),
{
    if v.len() == 0 {
        Seq::empty()
    } else {
        let rest = present_values(v.drop_last());
        match v.last() {
            Some(x) => rest.push(x),
            None => rest,
        }
    }
}

/// The text of the page's first `title` element.
pub open spec fn html_title_text(html: Seq<char>) -> Option<Seq<char>> {
    first_text(html_selected_texts(html, TITLE_SELECTOR@))
}

/// The first `content` attribute among the page's description elements.
pub open spec fn html_description_content(html: Seq<char>) -> Option<Seq<char>> {
    match html_selected_attrs(html, DESCRIPTION_SELECTOR@, "content"@) {
        Some(v) => first_present(v),
        None => None,
    }
}

/// The `href` attributes of the page's icon links, in document order.
pub open spec fn html_icon_hrefs(html: Seq<char>) -> Seq<Seq<char>> {
    match html_selected_attrs(html, ICON_SELECTOR@, "href"@) {
        Some(v) => present_values(v),
        None => Seq::empty(),
    }
}

/// The views of optional strings.
pub open spec fn opt_texts_view(v: Seq<Option<String>>) -> Seq<Option<Seq<char>>> {
    v.map_values(|o: Option<String>| text_view(o))
}

/// `String::from_utf8_lossy`: the contract names its result and states what
/// its documentation says of valid UTF-8, which is decoded as it is.
#[verifier::external_body]
fn decode_lossy(bytes: &[u8]) -> (s: String)
    ensures
        s@ == utf8_lossy(bytes@),
        valid_utf8(bytes@) ==> s@ == decode_utf8(bytes@),
{
    String::from_utf8_lossy(bytes).into_owned()
}

/// `scraper`: parses `html` as a document and selects with `selector`; the
/// text of each selected element (`ElementRef::text`, joined) is handed back.
/// The result is named.
#[verifier::external_body]
fn select_texts(html: &str, selector: &str) -> (r: Option<Vec<String>>)
    ensures
        match r {
            Some(v) => html_selected_texts(html@, selector@) == Some(
                v@.map_values(|s: String| s@),
            ),
            None => html_selected_texts(html@, selector@) is None,
        },
{
    let selector = Selector::parse(selector).ok()?;
    let document = Html::parse_document(html);
    Some(document.select(&selector).map(|node| node.text().collect::<String>()).collect())
}

/// `scraper`: parses `html` as a document and selects with `selector`; the
/// attribute `attr` of each selected element (`Element::attr`) is handed
/// back. The result is named.
#[verifier::external_body]
fn select_attrs(html: &str, selector: &str, attr: &str) -> (r: Option<Vec<Option<String>>>)
    ensures
        match r {
            Some(v) => html_selected_attrs(html@, selector@, attr@) == Some(opt_texts_view(v@)),
            None => html_selected_attrs(html@, selector@, attr@) is None,
        },
{
    let selector = Selector::parse(selector).ok()?;
    let document = Html::parse_document(html);
    Some(document.select(&selector).map(|node| node.value().attr(attr).map(str::to_string)).collect())
}

/// The text of the page's first `title` element.
fn title_text(html: &str) -> (t: Option<String>)
    ensures
        text_view(t) == html_title_text(html@),
{
    match select_texts(html, TITLE_SELECTOR) {
        Some(v) => {
            if v.len() > 0 {
                let first = copy_of(v[0].as_str());
                Some(first)
            } else {
                None
            }
        },
        None => None,
    }
}

/// The first `content` attribute among the page's description elements.
fn description_content(html: &str) -> (d: Option<String>)
    ensures
        text_view(d) == html_description_content(html@),
{
    let v = match select_attrs(html, DESCRIPTION_SELECTOR, "content") {
        Some(v) => v,
        None => return None,
    };
    let ghost all = opt_texts_view(v@);
    let mut i: usize = 0;
    assert(all.skip(0) =~= all);
    while i < v.len()
        invariant
            i <= v.len(),
            all == opt_texts_view(v@),
            html_description_content(html@) == first_present(all),
            first_present(all.skip(i as int)) == first_present(all),
        decreases v.len() - i,
    {
        proof {
            assert(all.skip(i as int).drop_first() =~= all.skip(i + 1));
            assert(all.skip(i as int)[0] == text_view(v@[i as int]));
        }
        match &v[i] {
            Some(content) => {
                let d = copy_of(content.as_str());
                proof {
                    assert(all.skip(i as int)[0] == Some(content@));
                    assert(first_present(all.skip(i as int)) == Some(content@));
                }
                return Some(d);
            },
            None => {},
        }
        i = i + 1;
    }
    assert(all.skip(i as int).len() == 0);
    None
}

/// The `href` attributes of the page's icon links, in document order.
fn icon_hrefs(html: &str) -> (r: Vec<String>)
    ensures
        r@.map_values(|s: String| s@) == html_icon_hrefs(html@),
{
    let v = match select_attrs(html, ICON_SELECTOR, "href") {
        Some(v) => v,
        None => {
            let r: Vec<String> = Vec::new();
            assert(r@.map_values(|s: String| s@) =~= Seq::<Seq<char>>::empty());
            return r;
        },
    };
    let ghost all = opt_texts_view(v@);
    let mut r: Vec<String> = Vec::new();
    let mut i: usize = 0;
    while i < v.len()
        invariant
            i <= v.len(),
            all == opt_texts_view(v@),
            r@.map_values(|s: String| s@) == present_values(all.take(i as int)),
        decreases v.len() - i,
    {
        proof {
            assert(all.take(i + 1).drop_last() =~= all.take(i as int));
            assert(all.take(i + 1).last() == text_view(v@[i as int]));
        }
        match &v[i] {
            Some(href) => {
                let ghost before = r@;
                r.push(copy_of(href.as_str()));
                assert(r@.map_values(|s: String| s@) =~= before.map_values(|s: String| s@).push(
                    href@,
                ));
            },
            None => {},
        }
        i = i + 1;
    }
    assert(all.take(v.len() as int) =~= all);
    r
}

// ---------------------------------------------------------------------------
// Title and description
// ---------------------------------------------------------------------------

/// A text as it is kept: trimmed, dropped when nothing is left, and cut to
/// `limit` chars.
pub open spec fn cleaned_text(raw: Option<Seq<char>>, limit: nat) -> Option<Seq<char>> {
    match raw {
        None => None,
        Some(r) => if trimmed(r).len() == 0 {
            None
        } else {
            Some(first_chars(trimmed(r), limit))
        },
    }
}

/// The view of an optional string.
pub open spec fn text_view(s: Option<String>) -> Option<Seq<char>> {
    match s {
        Some(t) => Some(t@),
        None => None,
    }
}

/// A text as it is kept: trimmed, dropped when nothing is left, and cut to
/// `limit` chars.
pub fn clean_text(raw: Option<String>, limit: usize) -> (r: Option<String>)
    ensures
        text_view(r) == cleaned_text(text_view(raw), limit as nat),
        r matches Some(t) ==> 0 < t@.len() <= limit || (limit == 0 && t@.len() == 0),
{
    match raw {
        None => None,
        Some(s) => {
            let v = chars_of(s.as_str());
            let (i, j) = trim_bounds(&v);
            if i == j {
                return None;
            }
            let mut t: Vec<char> = Vec::new();
            let mut k: usize = i;
            while k < j
                invariant
                    i <= k <= j <= v.len(),
                    t@ == v@.subrange(i as int, k as int),
                decreases j - k,
            {
                t.push(v[k]);
                assert(v@.subrange(i as int, k + 1) =~= v@.subrange(i as int, k as int).push(
                    v@[k as int],
                ));
                k = k + 1;
            }
            Some(first_chars_of(&t, limit))
        },
    }
}

// ---------------------------------------------------------------------------
// Icons
// ---------------------------------------------------------------------------

/// The icon URLs of a page at `base`, from its `href`s in order: each
/// reference that resolves against the page to an `http` or `https` URL.
pub open spec fn linked_icons(base: Seq<char>, hrefs: Seq<Seq<char>>) -> Seq<UrlView>
    decreases hrefs.len(),
{
    if hrefs.len() == 0 {
        Seq::empty()
    } else {
        let rest = linked_icons(base, hrefs.drop_last());
        match joined_url(base, hrefs.last()) {
            Some(u) => if is_web_scheme(u.scheme) {
                rest.push(u)
            } else {
                rest
            },
            None => rest,
        }
    }
}

/// The icons tried for a page at `base`: the linked ones, then `/favicon.ico`
/// on the page's origin, at most [`ICON_CANDIDATE_LIMIT`] of them.
pub open spec fn icon_candidates_spec(base: Seq<char>, hrefs: Seq<Seq<char>>) -> Seq<UrlView> {
    let linked = linked_icons(base, hrefs);
    let all = match joined_url(base, "/favicon.ico"@) {
        Some(f) => linked.push(f),
        None => linked,
    };
    if all.len() <= ICON_CANDIDATE_LIMIT {
        all
    } else {
        all.take(ICON_CANDIDATE_LIMIT as int)
    }
}

proof fn lemma_linked_icons_len(base: Seq<char>, hrefs: Seq<Seq<char>>)
    ensures
        linked_icons(base, hrefs).len() <= hrefs.len(),
    decreases hrefs.len(),
{
    if hrefs.len() > 0 {
        lemma_linked_icons_len(base, hrefs.drop_last());
    }
}

proof fn lemma_linked_icons_complete(base: Seq<char>, hrefs: Seq<Seq<char>>, j: int)
    requires
        0 <= j < hrefs.len(),
        joined_url(base, hrefs[j]) matches Some(u) && is_web_scheme(u.scheme),
    ensures
        linked_icons(base, hrefs).contains(joined_url(base, hrefs[j]).unwrap()),
    decreases hrefs.len(),
{
    let u = joined_url(base, hrefs[j]).unwrap();
    let rest = linked_icons(base, hrefs.drop_last());
    if j == hrefs.len() - 1 {
        assert(rest.push(u)[rest.len() as int] == u);
    } else {
        assert(hrefs.drop_last()[j] == hrefs[j]);
        lemma_linked_icons_complete(base, hrefs.drop_last(), j);
        let k = choose|k: int| 0 <= k < rest.len() && rest[k] == u;
        match joined_url(base, hrefs.last()) {
            Some(v) => if is_web_scheme(v.scheme) {
                assert(rest.push(v)[k] == u);
            },
            None => {},
        }
    }
}

proof fn lemma_linked_icons_sound(base: Seq<char>, hrefs: Seq<Seq<char>>, k: int)
    requires
        0 <= k < linked_icons(base, hrefs).len(),
    ensures
        exists|j: int|
            0 <= j < hrefs.len() && joined_url(base, #[trigger] hrefs[j]) == Some(
                linked_icons(base, hrefs)[k],
            ) && is_web_scheme(linked_icons(base, hrefs)[k].scheme),
    decreases hrefs.len(),
{
    let rest = linked_icons(base, hrefs.drop_last());
    let last = hrefs.len() - 1;
    if k < rest.len() {
        lemma_linked_icons_sound(base, hrefs.drop_last(), k);
        let j = choose|j: int|
            0 <= j < hrefs.drop_last().len() && joined_url(base, #[trigger] hrefs.drop_last()[j])
                == Some(rest[k]) && is_web_scheme(rest[k].scheme);
        assert(hrefs.drop_last()[j] == hrefs[j]);
        match joined_url(base, hrefs.last()) {
            Some(v) => if is_web_scheme(v.scheme) {
                assert(rest.push(v)[k] == rest[k]);
            },
            None => {},
        }
    } else {
        assert(hrefs[last] == hrefs.last());
    }
}

/// Every icon link counts, whatever host it names: each `href` that resolves
/// against the page to an `http` or `https` URL is a candidate when the page
/// links fewer icons than [`ICON_CANDIDATE_LIMIT`]; every candidate is such a
/// resolved link or the page's `/favicon.ico`, which comes last; and at most
/// [`ICON_CANDIDATE_LIMIT`] candidates are tried.
pub proof fn law_icon_candidates(base: Seq<char>, hrefs: Seq<Seq<char>>)
    ensures
        icon_candidates_spec(base, hrefs).len() <= ICON_CANDIDATE_LIMIT,
        hrefs.len() < ICON_CANDIDATE_LIMIT ==> forall|j: int|
            0 <= j < hrefs.len() && (joined_url(base, #[trigger] hrefs[j]) matches Some(u)
                && is_web_scheme(u.scheme)) ==> icon_candidates_spec(base, hrefs).contains(
                joined_url(base, hrefs[j]).unwrap(),
            ),
        hrefs.len() < ICON_CANDIDATE_LIMIT ==> (joined_url(base, "/favicon.ico"@) matches Some(f)
            ==> icon_candidates_spec(base, hrefs).last() == f),
        forall|k: int|
            0 <= k < icon_candidates_spec(base, hrefs).len() ==> (Some(
                #[trigger] icon_candidates_spec(base, hrefs)[k],
            ) == joined_url(base, "/favicon.ico"@) || exists|j: int|
                0 <= j < hrefs.len() && joined_url(base, #[trigger] hrefs[j]) == Some(
                    icon_candidates_spec(base, hrefs)[k],
                ) && is_web_scheme(icon_candidates_spec(base, hrefs)[k].scheme)),
{
    let linked = linked_icons(base, hrefs);
    let all = match joined_url(base, "/favicon.ico"@) {
        Some(f) => linked.push(f),
        None => linked,
    };
    let c = icon_candidates_spec(base, hrefs);
    lemma_linked_icons_len(base, hrefs);
    if hrefs.len() < ICON_CANDIDATE_LIMIT {
        assert(c == all);
        assert forall|j: int|
            0 <= j < hrefs.len() && (joined_url(base, #[trigger] hrefs[j]) matches Some(u)
                && is_web_scheme(u.scheme)) implies c.contains(joined_url(base, hrefs[j]).unwrap()) by {
            lemma_linked_icons_complete(base, hrefs, j);
            let u = joined_url(base, hrefs[j]).unwrap();
            let k = choose|k: int| 0 <= k < linked.len() && linked[k] == u;
            assert(all[k] == u);
        }
    }
    assert forall|k: int| 0 <= k < c.len() implies (Some(#[trigger] c[k]) == joined_url(
        base,
        "/favicon.ico"@,
    ) || exists|j: int|
        0 <= j < hrefs.len() && joined_url(base, #[trigger] hrefs[j]) == Some(c[k])
            && is_web_scheme(c[k].scheme)) by {
        assert(c[k] == all[k]);
        if k < linked.len() {
            assert(all[k] == linked[k]);
            lemma_linked_icons_sound(base, hrefs, k);
        }
    }
}

/// Links keep their document order: one more icon link after the others
/// adds its resolved URL after theirs and before `/favicon.ico` when it
/// resolves to an `http` or `https` URL, whatever its host, and changes
/// nothing otherwise (for pages with fewer links than
/// [`ICON_CANDIDATE_LIMIT`]).
pub proof fn law_icon_candidates_keep_order(base: Seq<char>, hrefs: Seq<Seq<char>>, h: Seq<char>)
    requires
        hrefs.len() + 1 < ICON_CANDIDATE_LIMIT,
    ensures
        ({
            let c = icon_candidates_spec(base, hrefs);
            let d = icon_candidates_spec(base, hrefs.push(h));
            match joined_url(base, h) {
                Some(u) => if is_web_scheme(u.scheme) {
                    d == match joined_url(base, "/favicon.ico"@) {
                        Some(f) => c.drop_last().push(u).push(f),
                        None => c.push(u),
                    }
                } else {
                    d == c
                },
                None => d == c,
            }
        }),
{
    lemma_linked_icons_len(base, hrefs);
    lemma_linked_icons_len(base, hrefs.push(h));
    assert(hrefs.push(h).drop_last() =~= hrefs);
    assert(hrefs.push(h).last() == h);
    let linked = linked_icons(base, hrefs);
    match joined_url(base, "/favicon.ico"@) {
        Some(f) => {
            assert(linked.push(f).drop_last() =~= linked);
        },
        None => {},
    }
}

/// The views of a list of URLs.
pub open spec fn urls_view(v: Seq<WebUrl>) -> Seq<UrlView> {
    v.map_values(|u: WebUrl| u@)
}

/// The icons to try for the page at `page`, given the `href`s of its icon
/// links.
pub fn icon_candidates(page: &WebUrl, hrefs: &Vec<String>) -> (r: Vec<WebUrl>)
    ensures
        urls_view(r@) == icon_candidates_spec(page@.serialization, hrefs@.map_values(
            |s: String| s@,
        )),
{
    let ghost hv = hrefs@.map_values(|s: String| s@);
    let mut icons: Vec<WebUrl> = Vec::new();
    let mut i: usize = 0;
    while i < hrefs.len()
        invariant
            i <= hrefs.len(),
            hv == hrefs@.map_values(|s: String| s@),
            urls_view(icons@) == linked_icons(page@.serialization, hv.take(i as int)),
        decreases hrefs.len() - i,
    {
        proof {
            assert(hv.take(i + 1).drop_last() =~= hv.take(i as int));
            assert(hv.take(i + 1).last() == hrefs@[i as int]@);
        }
        match page.join(hrefs[i].as_str()) {
            Some(u) => {
                let http = same_text(u.scheme(), "http");
                let https = same_text(u.scheme(), "https");
                if http || https {
                    icons.push(u);
                    assert(urls_view(icons@) =~= urls_view(icons@.drop_last()).push(
                        icons@.last()@,
                    ));
                }
            },
            None => {},
        }
        i = i + 1;
    }
    assert(hv.take(hrefs.len() as int) =~= hv);
    match page.join("/favicon.ico") {
        Some(f) => {
            icons.push(f);
            assert(urls_view(icons@) =~= urls_view(icons@.drop_last()).push(icons@.last()@));
        },
        None => {},
    }
    if icons.len() > ICON_CANDIDATE_LIMIT {
        let ghost all = icons@;
        icons.truncate(ICON_CANDIDATE_LIMIT);
        assert(urls_view(icons@) =~= urls_view(all).take(ICON_CANDIDATE_LIMIT as int));
    }
    icons
}

/// What the library reads from a fetched page.
pub struct PageMetadata {
    /// The page's title, cleaned.
    pub title: Option<String>,
    /// The page's description, cleaned.
    pub description: Option<String>,
    /// The icons to try, in order.
    pub icon_urls: Vec<WebUrl>,
}

/// Reads the title, the description and the icons to try from the body of
/// the page at `page`: the body is decoded as `String::from_utf8_lossy`
/// decodes it, the title is kept to [`TITLE_LIMIT`] chars and the description
/// to [`DESCRIPTION_LIMIT`].
pub fn read_page(body: &[u8], page: &WebUrl) -> (m: PageMetadata)
    ensures
        text_view(m.title) == cleaned_text(html_title_text(utf8_lossy(body@)), TITLE_LIMIT as nat),
        text_view(m.description) == cleaned_text(
            html_description_content(utf8_lossy(body@)),
            DESCRIPTION_LIMIT as nat,
        ),
        urls_view(m.icon_urls@) == icon_candidates_spec(
            page@.serialization,
            html_icon_hrefs(utf8_lossy(body@)),
        ),
{
    let html = decode_lossy(body);
    let title = clean_text(title_text(html.as_str()), TITLE_LIMIT);
    let description = clean_text(description_content(html.as_str()), DESCRIPTION_LIMIT);
    let hrefs = icon_hrefs(html.as_str());
    let icon_urls = icon_candidates(page, &hrefs);
    PageMetadata { title, description, icon_urls }
}

// ---------------------------------------------------------------------------
// Icon files
// ---------------------------------------------------------------------------

/// The length of `h` up to its first `;` (all of `h` when it has none).
pub open spec fn before_semicolon(h: Seq<char>) -> nat
    decreases h.len(),
{
    if h.len() == 0 || h[0] == ';' {
        0
    } else {
        1 + before_semicolon(h.drop_first())
    }
}

/// The media type of a `Content-Type` header: what comes before the first
/// `;`, with `application/octet-stream` when there is no readable header.
pub open spec fn media_type(header: Option<Seq<char>>) -> Seq<char> {
    let h = match header {
        Some(s) => s,
        None => "application/octet-stream"@,
    };
    h.take(before_semicolon(h) as int)
}

proof fn lemma_before_semicolon(h: Seq<char>, i: int)
    requires
        0 <= i <= h.len(),
        forall|k: int| 0 <= k < i ==> h[k] != ';',
        i == h.len() || h[i] == ';',
    ensures
        before_semicolon(h) == i,
    decreases i,
{
    if i > 0 {
        let t = h.drop_first();
        assert forall|k: int| 0 <= k < i - 1 implies t[k] != ';' by {
            assert(t[k] == h[k + 1]);
        }
        if i - 1 < t.len() {
            assert(t[i - 1] == h[i]);
        }
        lemma_before_semicolon(t, i - 1);
    }
}

/// The file extension for an icon with media type `media` at a URL with path
/// `path`.
pub open spec fn icon_extension_spec(media: Seq<char>, path: Seq<char>) -> Seq<char> {
    if media == "image/png"@ {
        "png"@
    } else if media == "image/jpeg"@ {
        "jpg"@
    } else if media == "image/svg+xml"@ {
        "svg"@
    } else if media == "image/webp"@ {
        "webp"@
    } else if media == "image/gif"@ {
        "gif"@
    } else if media == "image/x-icon"@ || media == "image/vnd.microsoft.icon"@ {
        "ico"@
    } else if has_suffix(path, ".png"@) {
        "png"@
    } else if has_suffix(path, ".svg"@) {
        "svg"@
    } else {
        "ico"@
    }
}

/// The media type of a `Content-Type` header.
pub fn media_type_of(header: Option<&str>) -> (m: String)
    ensures
        m@ == media_type(
            match header {
                Some(h) => Some(h@),
                None => None,
            },
        ),
{
    let h = match header {
        Some(h) => chars_of(h),
        None => chars_of("application/octet-stream"),
    };
    let mut i: usize = 0;
    while i < h.len() && h[i] != ';'
        invariant
            i <= h.len(),
            forall|k: int| 0 <= k < i ==> h@[k] != ';',
        decreases h.len() - i,
    {
        i = i + 1;
    }
    proof {
        lemma_before_semicolon(h@, i as int);
        assert(h@.subrange(0, i as int) =~= h@.take(i as int));
    }
    crate::text::string_of(&h, 0, i)
}

/// The file extension for an icon with media type `media` at `url`.
pub fn icon_extension(media: &str, url: &WebUrl) -> (e: &'static str)
    ensures
        e@ == icon_extension_spec(media@, url@.path),
{
    if same_text(media, "image/png") {
        "png"
    } else if same_text(media, "image/jpeg") {
        "jpg"
    } else if same_text(media, "image/svg+xml") {
        "svg"
    } else if same_text(media, "image/webp") {
        "webp"
    } else if same_text(media, "image/gif") {
        "gif"
    } else if same_text(media, "image/x-icon") || same_text(media, "image/vnd.microsoft.icon") {
        "ico"
    } else {
        let path = chars_of(url.path());
        if ends_with(&path, &chars_of(".png")) {
            "png"
        } else if ends_with(&path, &chars_of(".svg")) {
            "svg"
        } else {
            "ico"
        }
    }
}

/// The name of the file an icon fetched from `url` is cached in: the
/// lower-case hexadecimal SHA-256 digest of the URL's UTF-8 serialization,
/// a dot, and the extension for its `Content-Type` header.
pub open spec fn icon_file_spec(url: UrlView, content_type: Option<Seq<char>>) -> Seq<char> {
    hex_lower(sha256(encode_utf8(url.serialization))) + "."@ + icon_extension_spec(
        media_type(content_type),
        url.path,
    )
}

/// The name an icon is cached under holds only digits, lower-case letters
/// and a dot, so it never leaves the icon directory it is written to.
pub proof fn law_icon_file_names_are_plain(url: UrlView, content_type: Option<Seq<char>>)
    ensures
        plain_name(icon_file_spec(url, content_type)),
        forall|i: int|
            0 <= i < icon_file_spec(url, content_type).len() ==> #[trigger] icon_file_spec(
                url,
                content_type,
            )[i] != '/' && icon_file_spec(url, content_type)[i] != '\\',
{
    reveal_strlit(".");
    reveal_strlit("png");
    reveal_strlit("jpg");
    reveal_strlit("svg");
    reveal_strlit("webp");
    reveal_strlit("gif");
    reveal_strlit("ico");
    let hash = hex_lower(sha256(encode_utf8(url.serialization)));
    let ext = icon_extension_spec(media_type(content_type), url.path);
    lemma_hex_lower_plain(sha256(encode_utf8(url.serialization)));
    assert(plain_name("."@));
    assert(plain_name(ext));
    lemma_plain_name_concat(hash, "."@);
    lemma_plain_name_concat(hash + "."@, ext);
    let n = icon_file_spec(url, content_type);
    assert forall|i: int| 0 <= i < n.len() implies #[trigger] n[i] != '/' && n[i] != '\\' by {
        assert(plain_name_char(n[i]));
    }
}

/// The name of the file an icon fetched from `url` is cached in.
pub fn icon_file_name(url: &WebUrl, content_type: Option<&str>) -> (n: String)
    ensures
        n@ == icon_file_spec(
            url@,
            match content_type {
                Some(h) => Some(h@),
                None => None,
            },
        ),
{
    let media = media_type_of(content_type);
    let extension = icon_extension(media.as_str(), url);
    let hash = sha256_hex(url.as_str().as_bytes());
    let with_dot = joined(hash.as_str(), ".");
    joined(with_dot.as_str(), extension)
}

} // verus!
