use favspace::page::{
    clean_text, icon_candidates, icon_extension, icon_file_name, media_type_of, read_page,
};
use favspace::web_url::WebUrl;
use sha2::{Digest, Sha256};

fn page() -> WebUrl {
    WebUrl::parse("https://example.com/blog/post").unwrap()
}

#[test]
fn page_title_description_and_icons_are_read() {
    let html = r#"<html><head><title>  Hello   World </title>
        <meta name="description" content="  A page.  ">
        <link rel="icon" href="/static/icon.png">
        <link rel="stylesheet" href="/style.css">
        <link rel="apple-touch-icon" href="touch.png">
        <link rel="shortcut icon" href="javascript:void(0)">
        </head><body></body></html>"#;
    let m = read_page(html.as_bytes(), &page());
    assert_eq!(m.title.as_deref(), Some("Hello   World"));
    assert_eq!(m.description.as_deref(), Some("A page."));
    let icons: Vec<&str> = m.icon_urls.iter().map(|u| u.as_str()).collect();
    assert_eq!(
        icons,
        vec![
            "https://example.com/static/icon.png",
            "https://example.com/blog/touch.png",
            "https://example.com/favicon.ico",
        ]
    );
}

#[test]
fn og_description_and_missing_title() {
    let html = r#"<head><title>   </title><meta property="og:description" content="Shared"></head>"#;
    let m = read_page(html.as_bytes(), &page());
    assert_eq!(m.title, None);
    assert_eq!(m.description.as_deref(), Some("Shared"));
    assert_eq!(m.icon_urls.len(), 1);
}

#[test]
fn long_texts_are_cut() {
    let long: String = "é".repeat(400);
    let html = format!("<title>{long}</title><meta name=\"description\" content=\"{long}\">");
    let m = read_page(html.as_bytes(), &page());
    assert_eq!(m.title.unwrap().chars().count(), 180);
    assert_eq!(m.description.unwrap().chars().count(), 320);
}

#[test]
fn invalid_utf8_is_decoded_lossily() {
    let mut body = b"<title>caf".to_vec();
    body.push(0xff);
    body.extend_from_slice(b"</title>");
    let m = read_page(&body, &page());
    assert_eq!(m.title.as_deref(), Some("caf\u{fffd}"));
}

#[test]
fn at_most_six_icons_are_tried() {
    let hrefs: Vec<String> = (0..10).map(|i| format!("/i{i}.png")).collect();
    let icons = icon_candidates(&page(), &hrefs);
    assert_eq!(icons.len(), 6);
    assert_eq!(icons[5].as_str(), "https://example.com/i5.png");
}

#[test]
fn text_cleaning_trims_and_drops_blank() {
    assert_eq!(clean_text(Some("  hi \n".to_string()), 10).as_deref(), Some("hi"));
    assert_eq!(clean_text(Some(" \u{a0} ".to_string()), 10), None);
    assert_eq!(clean_text(None, 10), None);
    assert_eq!(clean_text(Some("abcdef".to_string()), 3).as_deref(), Some("abc"));
}

#[test]
fn media_types_stop_at_the_first_semicolon() {
    assert_eq!(media_type_of(Some("image/png; charset=binary")), "image/png");
    assert_eq!(media_type_of(Some("image/gif")), "image/gif");
    assert_eq!(media_type_of(None), "application/octet-stream");
}

#[test]
fn icon_extensions_follow_media_type_then_path() {
    let png = WebUrl::parse("https://e.com/a.png").unwrap();
    let svg = WebUrl::parse("https://e.com/a.svg?x=1").unwrap();
    let other = WebUrl::parse("https://e.com/a").unwrap();
    assert_eq!(icon_extension("image/jpeg", &other), "jpg");
    assert_eq!(icon_extension("image/svg+xml", &other), "svg");
    assert_eq!(icon_extension("image/webp", &other), "webp");
    assert_eq!(icon_extension("image/gif", &other), "gif");
    assert_eq!(icon_extension("image/vnd.microsoft.icon", &png), "ico");
    assert_eq!(icon_extension("text/html", &png), "png");
    assert_eq!(icon_extension("text/html", &svg), "svg");
    assert_eq!(icon_extension("application/octet-stream", &other), "ico");
}

#[test]
fn icon_files_are_named_by_url_digest() {
    let url = WebUrl::parse("https://example.com/favicon.ico").unwrap();
    let expected = format!("{}.png", hex::encode(Sha256::digest(url.as_str().as_bytes())));
    assert_eq!(icon_file_name(&url, Some("image/png;q=1")), expected);
    let expected = format!("{}.ico", hex::encode(Sha256::digest(url.as_str().as_bytes())));
    assert_eq!(icon_file_name(&url, None), expected);
    assert_eq!(icon_file_name(&url, None).len(), 64 + 4);
}

#[test]
fn cached_icon_names_hold_no_path_separators() {
    for raw in ["https://example.com/../../etc/passwd", "https://e.com/a\\b.svg"] {
        let url = WebUrl::parse(raw).unwrap();
        let name = icon_file_name(&url, Some("image/svg+xml"));
        assert!(name.chars().all(|c| c.is_ascii_hexdigit() || c == '.' || c.is_ascii_lowercase()), "{name}");
        assert!(!name.contains('/') && !name.contains('\\'));
    }
}

#[test]
fn the_first_description_with_content_wins_and_icons_without_href_are_skipped() {
    let html = r#"<head><title>First</title><title>Second</title>
        <meta name="description">
        <meta property="og:description" content="Second meta">
        <meta name="description" content="Third meta">
        <link rel="icon">
        <link rel="icon" href="/i.png"></head>"#;
    let m = read_page(html.as_bytes(), &page());
    assert_eq!(m.title.as_deref(), Some("First"));
    assert_eq!(m.description.as_deref(), Some("Second meta"));
    let icons: Vec<&str> = m.icon_urls.iter().map(|u| u.as_str()).collect();
    assert_eq!(icons, vec!["https://example.com/i.png", "https://example.com/favicon.ico"]);
}
