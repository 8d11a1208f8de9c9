use favspace::fetch::{FetchAction, FetchEvent, PublicFetch, MAX_REQUESTS};
use favspace::web_url::WebUrl;

fn redirect_to(location: &str) -> FetchEvent {
    FetchEvent::Responded { status: 302, location: Some(location.to_string()) }
}

fn url_of(action: &FetchAction) -> Option<String> {
    match action {
        FetchAction::CheckHost(u) | FetchAction::Send(u) => Some(u.as_str().to_string()),
        _ => None,
    }
}

#[test]
fn a_fetch_checks_then_sends_then_accepts() {
    let start = WebUrl::parse("https://example.com/").unwrap();
    let (mut fetch, first) = PublicFetch::start(&start);
    assert!(matches!(first, FetchAction::CheckHost(_)));
    assert_eq!(url_of(&first).unwrap(), "https://example.com/");
    let send = fetch.step(FetchEvent::HostChecked(true));
    assert!(matches!(send, FetchAction::Send(_)));
    assert_eq!(url_of(&send).unwrap(), "https://example.com/");
    let done = fetch.step(FetchEvent::Responded { status: 200, location: None });
    assert!(matches!(done, FetchAction::Accept));
}

#[test]
fn a_refused_host_is_never_requested() {
    let start = WebUrl::parse("http://example.com/").unwrap();
    let (mut fetch, _) = PublicFetch::start(&start);
    assert!(matches!(fetch.step(FetchEvent::HostChecked(false)), FetchAction::GiveUp));
    assert!(matches!(fetch.step(FetchEvent::HostChecked(true)), FetchAction::GiveUp));
}

#[test]
fn redirects_are_resolved_and_checked_again() {
    let start = WebUrl::parse("https://example.com/a/b").unwrap();
    let (mut fetch, _) = PublicFetch::start(&start);
    fetch.step(FetchEvent::HostChecked(true));
    let next = fetch.step(redirect_to("../c"));
    assert!(matches!(next, FetchAction::CheckHost(_)));
    assert_eq!(url_of(&next).unwrap(), "https://example.com/c");
    assert_eq!(fetch.current().as_str(), "https://example.com/c");
    let next = fetch.step(FetchEvent::HostChecked(true));
    assert_eq!(url_of(&next).unwrap(), "https://example.com/c");
}

#[test]
fn error_statuses_and_failures_give_up() {
    for status in [400u16, 404, 500, 599] {
        let (mut fetch, _) = PublicFetch::start(&WebUrl::parse("https://example.com/").unwrap());
        fetch.step(FetchEvent::HostChecked(true));
        assert!(matches!(fetch.step(FetchEvent::Responded { status, location: None }), FetchAction::GiveUp));
    }
    let (mut fetch, _) = PublicFetch::start(&WebUrl::parse("https://example.com/").unwrap());
    fetch.step(FetchEvent::HostChecked(true));
    assert!(matches!(fetch.step(FetchEvent::RequestFailed), FetchAction::GiveUp));
    let (mut fetch, _) = PublicFetch::start(&WebUrl::parse("https://example.com/").unwrap());
    fetch.step(FetchEvent::HostChecked(true));
    assert!(matches!(fetch.step(FetchEvent::Responded { status: 301, location: None }), FetchAction::GiveUp));
    let (mut fetch, _) = PublicFetch::start(&WebUrl::parse("https://example.com/").unwrap());
    fetch.step(FetchEvent::HostChecked(true));
    assert!(matches!(fetch.step(FetchEvent::Responded { status: 204, location: None }), FetchAction::Accept));
}

#[test]
fn at_most_six_requests_are_made() {
    let (mut fetch, _) = PublicFetch::start(&WebUrl::parse("https://example.com/0").unwrap());
    let mut sends = 0;
    let mut hop = 0;
    loop {
        match fetch.step(FetchEvent::HostChecked(true)) {
            FetchAction::Send(_) => sends += 1,
            _ => break,
        }
        hop += 1;
        match fetch.step(redirect_to(&format!("/{hop}"))) {
            FetchAction::CheckHost(_) => {}
            FetchAction::GiveUp => break,
            _ => panic!("unexpected action"),
        }
    }
    assert_eq!(sends, MAX_REQUESTS);
    assert_eq!(MAX_REQUESTS, 6);
}
