use favspace::metadata::{MetadataAction, MetadataEvent, MetadataFetch, UrlMetadata};
use favspace::page::icon_file_name;
use favspace::web_url::WebUrl;

fn ok(content_length: Option<u64>, content_type: Option<&str>) -> MetadataEvent {
    MetadataEvent::Responded {
        status: 200,
        location: None,
        content_length,
        content_type: content_type.map(str::to_string),
    }
}

fn finished(action: MetadataAction) -> UrlMetadata {
    match action {
        MetadataAction::Finish(m) => m,
        other => panic!("expected Finish, got {other:?}"),
    }
}

fn target(action: &MetadataAction) -> String {
    match action {
        MetadataAction::CheckHost(u) | MetadataAction::Send(u) => u.as_str().to_string(),
        other => panic!("expected a URL action, got {other:?}"),
    }
}

/// Drives the machine through the guard, the request and an accepted
/// response for the URL it is about to check.
fn fetch_ok(m: &mut MetadataFetch, length: Option<u64>, content_type: Option<&str>) -> MetadataAction {
    let a = m.step(MetadataEvent::HostChecked(true));
    assert!(matches!(a, MetadataAction::CheckHost(_)));
    let a = m.step(MetadataEvent::HostChecked(true));
    assert!(matches!(a, MetadataAction::Send(_)));
    m.step(ok(length, content_type))
}

const PAGE: &str = r#"<title> Site </title><meta name="description" content="About">
<link rel="icon" href="/a.png"><link rel="icon" href="/b.svg">"#;

#[test]
fn a_page_and_its_first_icon_are_gathered() {
    let page = WebUrl::parse("https://example.com/").unwrap();
    let (mut m, first) = MetadataFetch::start(&page);
    assert_eq!(target(&first), "https://example.com/");
    let a = fetch_ok(&mut m, Some(100), Some("text/html"));
    assert!(matches!(a, MetadataAction::ReadBody));
    let a = m.step(MetadataEvent::Body(Some(PAGE.as_bytes().to_vec())));
    assert_eq!(target(&a), "https://example.com/a.png");
    let a = fetch_ok(&mut m, Some(10), Some("image/png"));
    assert!(matches!(a, MetadataAction::ReadBody));
    let a = m.step(MetadataEvent::Body(Some(vec![1, 2, 3])));
    let icon = WebUrl::parse("https://example.com/a.png").unwrap();
    let expected = icon_file_name(&icon, Some("image/png"));
    match a {
        MetadataAction::SaveIcon { file_name, bytes } => {
            assert_eq!(file_name, expected);
            assert_eq!(bytes, vec![1, 2, 3]);
        }
        other => panic!("expected SaveIcon, got {other:?}"),
    }
    let m = finished(m.step(MetadataEvent::Saved(true)));
    assert_eq!(m.title.as_deref(), Some("Site"));
    assert_eq!(m.description.as_deref(), Some("About"));
    assert_eq!(m.icon_file, Some(expected));
}

#[test]
fn a_refused_page_gathers_nothing() {
    let page = WebUrl::parse("http://localhost/").unwrap();
    let (mut m, _) = MetadataFetch::start(&page);
    let m = finished(m.step(MetadataEvent::HostChecked(false)));
    assert!(m.title.is_none() && m.description.is_none() && m.icon_file.is_none());
}

#[test]
fn an_oversized_page_is_not_read() {
    let page = WebUrl::parse("https://example.com/").unwrap();
    let (mut m, _) = MetadataFetch::start(&page);
    let m = finished(fetch_ok(&mut m, Some(1_500_001), None));
    assert!(m.title.is_none());
    let (mut m, _) = MetadataFetch::start(&page);
    fetch_ok(&mut m, None, None);
    let m = finished(m.step(MetadataEvent::Body(Some(vec![b' '; 1_500_001]))));
    assert!(m.title.is_none());
}

#[test]
fn failed_icons_fall_through_to_the_next() {
    let page = WebUrl::parse("https://example.com/").unwrap();
    let (mut m, _) = MetadataFetch::start(&page);
    fetch_ok(&mut m, None, None);
    let a = m.step(MetadataEvent::Body(Some(PAGE.as_bytes().to_vec())));
    assert_eq!(target(&a), "https://example.com/a.png");
    let a = m.step(MetadataEvent::HostChecked(false));
    assert_eq!(target(&a), "https://example.com/b.svg");
    let a = fetch_ok(&mut m, Some(600_001), None);
    assert_eq!(target(&a), "https://example.com/favicon.ico");
    let a = fetch_ok(&mut m, None, None);
    assert!(matches!(a, MetadataAction::ReadBody));
    let m = finished(m.step(MetadataEvent::Body(Some(vec![]))));
    assert_eq!(m.title.as_deref(), Some("Site"));
    assert_eq!(m.icon_file, None);
}

#[test]
fn a_failed_save_tries_the_next_icon() {
    let page = WebUrl::parse("https://example.com/").unwrap();
    let (mut m, _) = MetadataFetch::start(&page);
    fetch_ok(&mut m, None, None);
    m.step(MetadataEvent::Body(Some(b"<title>T</title>".to_vec())));
    fetch_ok(&mut m, None, Some("image/x-icon"));
    let a = m.step(MetadataEvent::Body(Some(vec![0; 4])));
    assert!(matches!(a, MetadataAction::SaveIcon { .. }));
    let m = finished(m.step(MetadataEvent::Saved(false)));
    assert_eq!(m.title.as_deref(), Some("T"));
    assert_eq!(m.icon_file, None);
}
