//! Gathering a web page's title, description and icon, one decision at a
//! time.
//!
//! The caller performs each action (asking the guard about a host, sending a
//! request, reading a body, saving an icon file) and reports what happened as
//! an event; the machine decides what comes next. The page is fetched first;
//! when its body is read, its icons are tried in order until one is saved.

use vstd::prelude::*;

use crate::fetch::{
    fetch_wf, lemma_step_budget, requests_left, step_spec, MAX_REQUESTS, ActionView, EventView, FetchAction, FetchEvent, FetchStage, FetchView,
    PublicFetch,
};
use crate::page::{
    cleaned_text, html_description_content, html_icon_hrefs, html_title_text,
    icon_candidates_spec, icon_file_name, icon_file_spec, read_page, text_view, urls_view,
    utf8_lossy, DESCRIPTION_LIMIT, ICON_BYTE_LIMIT, ICON_CANDIDATE_LIMIT, PAGE_BYTE_LIMIT,
    TITLE_LIMIT,
};
use crate::web_url::{UrlView, WebUrl};

verus! {

/// Where the gathering stands.
#[derive(PartialEq, Eq, Structural, Clone, Copy, Debug)]
pub enum MetadataStage {
    /// Waiting for the guard's answer about the page.
    PageGuard,
    /// Following the page's request through redirects.
    PageFetch,
    /// Waiting for the page's body.
    PageBody,
    /// Waiting for the guard's answer about the current icon.
    IconGuard,
    /// Following the current icon's request through redirects.
    IconFetch,
    /// Waiting for the current icon's body.
    IconBody,
    /// Waiting to hear whether the current icon was saved.
    IconSave,
    /// Finished.
    Done,
}

/// What was gathered about a page.
#[derive(Debug)]
pub struct UrlMetadata {
    /// The page's title.
    pub title: Option<String>,
    /// The page's description.
    pub description: Option<String>,
    /// The name of the file the page's icon was saved in.
    pub icon_file: Option<String>,
}

/// What the caller does next.
#[derive(Debug)]
pub enum MetadataAction {
    /// Ask the guard whether metadata may be fetched from this URL.
    CheckHost(WebUrl),
    /// Send a request to this URL.
    Send(WebUrl),
    /// Read the body of the response just accepted.
    ReadBody,
    /// Write these bytes to the icon directory under this file name.
    SaveIcon { file_name: String, bytes: Vec<u8> },
    /// Stop: this is what was gathered.
    Finish(UrlMetadata),
}

/// What happened after the last action.
pub enum MetadataEvent {
    /// The guard's answer.
    HostChecked(bool),
    /// The request could not be completed.
    RequestFailed,
    /// The response's status, its readable `Location` and `Content-Type`
    /// headers, and the length it declares.
    Responded {
        status: u16,
        location: Option<String>,
        content_length: Option<u64>,
        content_type: Option<String>,
    },
    /// The body, or `None` when it could not be read.
    Body(Option<Vec<u8>>),
    /// Whether the icon file was written.
    Saved(bool),
}

/// The state of a gathering as the contracts see it.
pub struct MetadataView {
    pub page: UrlView,
    pub stage: MetadataStage,
    pub fetch: FetchView,
    pub title: Option<Seq<char>>,
    pub description: Option<Seq<char>>,
    pub icons: Seq<UrlView>,
    pub index: nat,
    pub content_type: Option<Seq<char>>,
    pub icon_file: Option<Seq<char>>,
}

/// An event as the contracts see it.
pub enum MetaEventView {
    HostChecked(bool),
    RequestFailed,
    Responded(u16, Option<Seq<char>>, Option<u64>, Option<Seq<char>>),
    Body(Option<Seq<u8>>),
    Saved(bool),
}

/// An action as the contracts see it.
pub enum MetaActionView {
    CheckHost(UrlView),
    Send(UrlView),
    ReadBody,
    SaveIcon(Seq<char>, Seq<u8>),
    Finish(Option<Seq<char>>, Option<Seq<char>>, Option<Seq<char>>),
}

/// The state of a gathering.
pub struct MetadataFetch {
    page: WebUrl,
    stage: MetadataStage,
    fetch: PublicFetch,
    title: Option<String>,
    description: Option<String>,
    icons: Vec<WebUrl>,
    index: usize,
    content_type: Option<String>,
    icon_file: Option<String>,
}

impl View for MetadataFetch {
    type V = MetadataView;

    closed spec fn view(&self) -> MetadataView {
        MetadataView {
            page: self.page@,
            stage: self.stage,
            fetch: self.fetch@,
            title: text_view(self.title),
            description: text_view(self.description),
            icons: urls_view(self.icons@),
            index: self.index as nat,
            content_type: text_view(self.content_type),
            icon_file: text_view(self.icon_file),
        }
    }
}

impl View for MetadataEvent {
    type V = MetaEventView;

    open spec fn view(&self) -> MetaEventView {
        match self {
            MetadataEvent::HostChecked(b) => MetaEventView::HostChecked(*b),
            MetadataEvent::RequestFailed => MetaEventView::RequestFailed,
            MetadataEvent::Responded { status, location, content_length, content_type } =>
                MetaEventView::Responded(
                *status,
                text_view(*location),
                *content_length,
                text_view(*content_type),
            ),
            MetadataEvent::Body(b) => MetaEventView::Body(
                match b {
                    Some(v) => Some(v@),
                    None => None,
                },
            ),
            MetadataEvent::Saved(b) => MetaEventView::Saved(*b),
        }
    }
}

impl View for MetadataAction {
    type V = MetaActionView;

    open spec fn view(&self) -> MetaActionView {
        match self {
            MetadataAction::CheckHost(u) => MetaActionView::CheckHost(u@),
            MetadataAction::Send(u) => MetaActionView::Send(u@),
            MetadataAction::ReadBody => MetaActionView::ReadBody,
            MetadataAction::SaveIcon { file_name, bytes } => MetaActionView::SaveIcon(
                file_name@,
                bytes@,
            ),
            MetadataAction::Finish(m) => MetaActionView::Finish(
                text_view(m.title),
                text_view(m.description),
                text_view(m.icon_file),
            ),
        }
    }
}

/// The state of a request that has just started for `u`.
pub open spec fn started(u: UrlView) -> FetchView {
    FetchView { current: u, attempts: 1, stage: FetchStage::AwaitingCheck }
}

/// The event as the redirect machine sees it. Events that do not belong to a
/// request count as a failed request.
pub open spec fn request_event(e: MetaEventView) -> EventView {
    match e {
        MetaEventView::HostChecked(b) => EventView::HostChecked(b),
        MetaEventView::Responded(status, location, _, _) => EventView::Responded(status, location),
        _ => EventView::RequestFailed,
    }
}

/// The event declares a length over `limit`.
pub open spec fn declares_over(e: MetaEventView, limit: u64) -> bool {
    e matches MetaEventView::Responded(_, _, Some(n), _) && n > limit
}

/// The `Content-Type` header the event carries.
pub open spec fn event_content_type(e: MetaEventView) -> Option<Seq<char>> {
    match e {
        MetaEventView::Responded(_, _, _, t) => t,
        _ => None,
    }
}

/// Finishing with what was gathered.
pub open spec fn finish_with(s: MetadataView) -> (MetadataView, MetaActionView) {
    (
        MetadataView { stage: MetadataStage::Done, ..s },
        MetaActionView::Finish(s.title, s.description, s.icon_file),
    )
}

/// Finishing with nothing gathered: the page could not be read.
pub open spec fn finish_empty(s: MetadataView) -> (MetadataView, MetaActionView) {
    (
        MetadataView {
            stage: MetadataStage::Done,
            title: None,
            description: None,
            icon_file: None,
            ..s
        },
        MetaActionView::Finish(None, None, None),
    )
}

/// Going on with the icon at `i`, or finishing when there is none left.
pub open spec fn try_icon(s: MetadataView, i: nat) -> (MetadataView, MetaActionView) {
    if i < s.icons.len() {
        (
            MetadataView { stage: MetadataStage::IconGuard, index: i, ..s },
            MetaActionView::CheckHost(s.icons[i as int]),
        )
    } else {
        finish_with(s)
    }
}

/// What a read page body gives: its title, description and icons.
pub open spec fn with_page(s: MetadataView, body: Seq<u8>) -> MetadataView {
    let html = utf8_lossy(body);
    MetadataView {
        title: cleaned_text(html_title_text(html), TITLE_LIMIT as nat),
        description: cleaned_text(html_description_content(html), DESCRIPTION_LIMIT as nat),
        icons: icon_candidates_spec(s.page.serialization, html_icon_hrefs(html)),
        ..s
    }
}

/// One step of the gathering: the next state and the next action.
pub open spec fn metadata_step_spec(s: MetadataView, e: MetaEventView) -> (
    MetadataView,
    MetaActionView,
) {
    match s.stage {
        MetadataStage::PageGuard => match e {
            MetaEventView::HostChecked(true) => (
                MetadataView { stage: MetadataStage::PageFetch, fetch: started(s.page), ..s },
                MetaActionView::CheckHost(s.page),
            ),
            _ => finish_empty(s),
        },
        MetadataStage::PageFetch => {
            let (f, a) = step_spec(s.fetch, request_event(e));
            let t = MetadataView { fetch: f, ..s };
            match a {
                ActionView::CheckHost(u) => (t, MetaActionView::CheckHost(u)),
                ActionView::Send(u) => (t, MetaActionView::Send(u)),
                ActionView::GiveUp => finish_empty(t),
                ActionView::Accept => if declares_over(e, PAGE_BYTE_LIMIT) {
                    finish_empty(t)
                } else {
                    (MetadataView { stage: MetadataStage::PageBody, ..t }, MetaActionView::ReadBody)
                },
            }
        },
        MetadataStage::PageBody => match e {
            MetaEventView::Body(Some(b)) => if b.len() <= PAGE_BYTE_LIMIT {
                try_icon(with_page(s, b), 0)
            } else {
                finish_empty(s)
            },
            _ => finish_empty(s),
        },
        MetadataStage::IconGuard => match e {
            MetaEventView::HostChecked(true) => (
                MetadataView {
                    stage: MetadataStage::IconFetch,
                    fetch: started(s.icons[s.index as int]),
                    ..s
                },
                MetaActionView::CheckHost(s.icons[s.index as int]),
            ),
            MetaEventView::HostChecked(false) => try_icon(s, s.index + 1),
            _ => finish_with(s),
        },
        MetadataStage::IconFetch => {
            let (f, a) = step_spec(s.fetch, request_event(e));
            let t = MetadataView { fetch: f, ..s };
            match a {
                ActionView::CheckHost(u) => (t, MetaActionView::CheckHost(u)),
                ActionView::Send(u) => (t, MetaActionView::Send(u)),
                ActionView::GiveUp => try_icon(t, s.index + 1),
                ActionView::Accept => if declares_over(e, ICON_BYTE_LIMIT) {
                    try_icon(t, s.index + 1)
                } else {
                    (
                        MetadataView {
                            stage: MetadataStage::IconBody,
                            content_type: event_content_type(e),
                            ..t
                        },
                        MetaActionView::ReadBody,
                    )
                },
            }
        },
        MetadataStage::IconBody => match e {
            MetaEventView::Body(Some(b)) => if 0 < b.len() <= ICON_BYTE_LIMIT {
                (
                    MetadataView { stage: MetadataStage::IconSave, ..s },
                    MetaActionView::SaveIcon(
                        icon_file_spec(s.icons[s.index as int], s.content_type),
                        b,
                    ),
                )
            } else {
                try_icon(s, s.index + 1)
            },
            MetaEventView::Body(None) => try_icon(s, s.index + 1),
            _ => finish_with(s),
        },
        MetadataStage::IconSave => match e {
            MetaEventView::Saved(true) => finish_with(
                MetadataView {
                    icon_file: Some(icon_file_spec(s.icons[s.index as int], s.content_type)),
                    ..s
                },
            ),
            MetaEventView::Saved(false) => try_icon(s, s.index + 1),
            _ => finish_with(s),
        },
        MetadataStage::Done => finish_with(s),
    }
}

/// A well-formed gathering: a request in progress is well formed, at most
/// [`ICON_CANDIDATE_LIMIT`] icons are tried, and the current icon is one of
/// them.
pub open spec fn metadata_wf(s: MetadataView) -> bool {
    &&& (s.stage == MetadataStage::PageFetch || s.stage == MetadataStage::IconFetch) ==> fetch_wf(
        s.fetch,
    )
    &&& s.icons.len() <= ICON_CANDIDATE_LIMIT
    &&& (s.stage == MetadataStage::IconGuard || s.stage == MetadataStage::IconFetch || s.stage
        == MetadataStage::IconBody || s.stage == MetadataStage::IconSave) ==> s.index
        < s.icons.len()
}

/// The state and the actions after a gathering in state `s` takes `events`
/// in turn.
pub open spec fn metadata_run(s: MetadataView, events: Seq<MetaEventView>) -> (
    MetadataView,
    Seq<MetaActionView>,
)
    decreases events.len(),
{
    if events.len() == 0 {
        (s, Seq::empty())
    } else {
        let (mid, actions) = metadata_run(s, events.drop_last());
        let (next, action) = metadata_step_spec(mid, events.last());
        (next, actions.push(action))
    }
}

/// The number of requests among `actions`.
pub open spec fn requests_sent(actions: Seq<MetaActionView>) -> nat
    decreases actions.len(),
{
    if actions.len() == 0 {
        0
    } else {
        requests_sent(actions.drop_last()) + if actions.last() is Send {
            1nat
        } else {
            0nat
        }
    }
}

/// The most requests a gathering makes: one fetch for the page and one for
/// each icon it tries.
pub open spec fn request_budget() -> nat {
    ((ICON_CANDIDATE_LIMIT + 1) * MAX_REQUESTS) as nat
}

/// How many more requests a gathering in state `s` may still make.
pub open spec fn gathering_left(s: MetadataView) -> int {
    let icons_left = s.icons.len() - s.index;
    match s.stage {
        MetadataStage::PageGuard => (ICON_CANDIDATE_LIMIT + 1) * MAX_REQUESTS,
        MetadataStage::PageFetch => requests_left(s.fetch) + ICON_CANDIDATE_LIMIT * MAX_REQUESTS,
        MetadataStage::PageBody => ICON_CANDIDATE_LIMIT * MAX_REQUESTS,
        MetadataStage::IconGuard => icons_left * MAX_REQUESTS,
        MetadataStage::IconFetch => requests_left(s.fetch) + (icons_left - 1) * MAX_REQUESTS,
        MetadataStage::IconBody => (icons_left - 1) * MAX_REQUESTS,
        MetadataStage::IconSave => (icons_left - 1) * MAX_REQUESTS,
        MetadataStage::Done => 0,
    }
}

proof fn lemma_page_icons_bounded(s: MetadataView, body: Seq<u8>)
    ensures
        with_page(s, body).icons.len() <= ICON_CANDIDATE_LIMIT,
{
}

proof fn lemma_gathering_step(s: MetadataView, e: MetaEventView)
    requires
        metadata_wf(s),
        gathering_left(s) >= 0,
    ensures
        metadata_wf(metadata_step_spec(s, e).0),
        gathering_left(metadata_step_spec(s, e).0) >= 0,
        gathering_left(metadata_step_spec(s, e).0) + (if metadata_step_spec(s, e).1 is Send {
            1int
        } else {
            0int
        }) <= gathering_left(s),
{
    if s.stage == MetadataStage::PageFetch || s.stage == MetadataStage::IconFetch {
        lemma_step_budget(s.fetch, request_event(e));
    }
    if s.stage == MetadataStage::PageBody {
        if let MetaEventView::Body(Some(b)) = e {
            lemma_page_icons_bounded(s, b);
        }
    }
}

/// The current icon is given up on this event: the guard refuses its host,
/// its request fails, the guard refuses a host it is redirected to, it
/// answers with a status from 400 to 599, it redirects without a
/// `Location`, it is accepted but declares more than [`ICON_BYTE_LIMIT`]
/// bytes, its body cannot be read or is empty or too large, or its file
/// cannot be written.
pub open spec fn icon_given_up(s: MetadataView, e: MetaEventView) -> bool {
    ||| s.stage == MetadataStage::IconGuard && e == MetaEventView::HostChecked(false)
    ||| s.stage == MetadataStage::IconFetch && e == MetaEventView::RequestFailed
    ||| s.stage == MetadataStage::IconFetch && s.fetch.stage == FetchStage::AwaitingCheck && e
        == MetaEventView::HostChecked(false)
    ||| s.stage == MetadataStage::IconFetch && s.fetch.stage == FetchStage::AwaitingResponse
        && (e matches MetaEventView::Responded(status, location, _, _) && (400 <= status <= 599
        || (300 <= status <= 399 && location is None)))
    ||| s.stage == MetadataStage::IconFetch && s.fetch.stage == FetchStage::AwaitingResponse
        && (e matches MetaEventView::Responded(status, _, Some(n), _) && (status < 300 || status
        > 599) && n > ICON_BYTE_LIMIT)
    ||| s.stage == MetadataStage::IconBody && (e == MetaEventView::Body(None) || (
    e matches MetaEventView::Body(Some(b)) && (b.len() == 0 || b.len() > ICON_BYTE_LIMIT)))
    ||| s.stage == MetadataStage::IconSave && e == MetaEventView::Saved(false)
}

/// A failed icon never ends the gathering while candidates are left: when
/// the icon at `index` is given up, the next candidate's host is checked;
/// only after the last candidate does the gathering finish, with the title
/// and description it has and without an icon.
pub proof fn law_failed_icons_move_on(s: MetadataView, e: MetaEventView)
    requires
        metadata_wf(s),
        icon_given_up(s, e),
    ensures
        s.index + 1 < s.icons.len() ==> metadata_step_spec(s, e).1 == MetaActionView::CheckHost(
            s.icons[s.index + 1int],
        ),
        s.index + 1 < s.icons.len() ==> ({
            let n = metadata_step_spec(s, e).0;
            &&& n.stage == MetadataStage::IconGuard
            &&& n.index == s.index + 1
            &&& n.icons == s.icons
            &&& n.title == s.title
            &&& n.description == s.description
        }),
        s.index + 1 >= s.icons.len() ==> metadata_step_spec(s, e).1 == MetaActionView::Finish(
            s.title,
            s.description,
            s.icon_file,
        ),
{
}

/// Whatever happens, a gathering makes at most one fetch for the page and
/// one for each of at most [`ICON_CANDIDATE_LIMIT`] icons, so no more than
/// `(ICON_CANDIDATE_LIMIT + 1) * MAX_REQUESTS` requests.
pub proof fn law_gathering_requests_are_bounded(
    s: MetadataView,
    events: Seq<MetaEventView>,
)
    requires
        metadata_wf(s),
        s.stage == MetadataStage::PageGuard,
    ensures
        requests_sent(metadata_run(s, events).1) <= request_budget(),
{
    lemma_run_budget(s, events);
}

proof fn lemma_run_budget(s: MetadataView, events: Seq<MetaEventView>)
    requires
        metadata_wf(s),
        gathering_left(s) >= 0,
    ensures
        metadata_wf(metadata_run(s, events).0),
        gathering_left(metadata_run(s, events).0) >= 0,
        requests_sent(metadata_run(s, events).1) + gathering_left(metadata_run(s, events).0)
            <= gathering_left(s),
    decreases events.len(),
{
    if events.len() > 0 {
        lemma_run_budget(s, events.drop_last());
        let (mid, actions) = metadata_run(s, events.drop_last());
        lemma_gathering_step(mid, events.last());
        let (next, action) = metadata_step_spec(mid, events.last());
        assert(actions.push(action).drop_last() =~= actions);
        assert(metadata_run(s, events) == (next, actions.push(action)));
    }
}

impl MetadataFetch {
    /// Starts gathering metadata for the page at `page`: its host is checked
    /// first.
    pub fn start(page: &WebUrl) -> (r: (MetadataFetch, MetadataAction))
        ensures
            r.0@.page == page@,
            r.0@.stage == MetadataStage::PageGuard,
            r.0@.title is None && r.0@.description is None && r.0@.icon_file is None,
            r.0@.icons.len() == 0,
            metadata_wf(r.0@),
            r.1@ == MetaActionView::CheckHost(page@),
    {
        let (fetch, _) = PublicFetch::start(page);
        let m = MetadataFetch {
            page: page.duplicate(),
            stage: MetadataStage::PageGuard,
            fetch,
            title: None,
            description: None,
            icons: Vec::new(),
            index: 0,
            content_type: None,
            icon_file: None,
        };
        assert(urls_view(m.icons@) =~= Seq::<UrlView>::empty());
        (m, MetadataAction::CheckHost(page.duplicate()))
    }

    /// Finishes with what was gathered.
    fn finish(&mut self) -> (a: MetadataAction)
        ensures
            (final(self)@, a@) == finish_with(old(self)@),
    {
        self.stage = MetadataStage::Done;
        MetadataAction::Finish(
            UrlMetadata {
                title: self.title.clone(),
                description: self.description.clone(),
                icon_file: self.icon_file.clone(),
            },
        )
    }

    /// Finishes with nothing gathered.
    fn finish_empty(&mut self) -> (a: MetadataAction)
        ensures
            (final(self)@, a@) == finish_empty(old(self)@),
    {
        self.stage = MetadataStage::Done;
        self.title = None;
        self.description = None;
        self.icon_file = None;
        MetadataAction::Finish(UrlMetadata { title: None, description: None, icon_file: None })
    }

    /// Goes on with the icon at `i`, or finishes.
    fn try_icon(&mut self, i: usize) -> (a: MetadataAction)
        requires
            old(self)@.icons.len() <= ICON_CANDIDATE_LIMIT,
        ensures
            (final(self)@, a@) == try_icon(old(self)@, i as nat),
    {
        if i < self.icons.len() {
            self.stage = MetadataStage::IconGuard;
            self.index = i;
            MetadataAction::CheckHost(self.icons[i].duplicate())
        } else {
            self.finish()
        }
    }

    /// Takes the event that followed the last action and gives the next
    /// action. Every request goes to a URL the guard allowed right before,
    /// a page body over [`PAGE_BYTE_LIMIT`] bytes is not read, and only an
    /// icon body of 1 to [`ICON_BYTE_LIMIT`] bytes is saved.
    #[verifier::rlimit(40)]
    pub fn step(&mut self, event: MetadataEvent) -> (action: MetadataAction)
        requires
            metadata_wf(old(self)@),
        ensures
            (final(self)@, action@) == metadata_step_spec(old(self)@, event@),
            metadata_wf(final(self)@),
            action@ matches MetaActionView::Send(u) ==> event@ == MetaEventView::HostChecked(true)
                && u == old(self)@.fetch.current,
            action@ matches MetaActionView::SaveIcon(_, b) ==> 0 < b.len() <= ICON_BYTE_LIMIT,
    {
        let ghost s = self@;
        let ghost e = event@;
        match self.stage {
            MetadataStage::PageGuard => match event {
                MetadataEvent::HostChecked(true) => {
                    let (fetch, action) = PublicFetch::start(&self.page);
                    self.fetch = fetch;
                    self.stage = MetadataStage::PageFetch;
                    match action {
                        FetchAction::CheckHost(u) => MetadataAction::CheckHost(u),
                        _ => {
                            assert(false);
                            self.finish_empty()
                        },
                    }
                },
                _ => self.finish_empty(),
            },
            MetadataStage::PageFetch | MetadataStage::IconFetch => {
                let on_page = self.stage == MetadataStage::PageFetch;
                let mut declared: Option<u64> = None;
                let mut media: Option<String> = None;
                let request = match event {
                    MetadataEvent::HostChecked(b) => FetchEvent::HostChecked(b),
                    MetadataEvent::Responded { status, location, content_length, content_type } => {
                        declared = content_length;
                        media = content_type;
                        FetchEvent::Responded { status, location }
                    },
                    _ => FetchEvent::RequestFailed,
                };
                assert(request@ == request_event(e));
                let limit = if on_page {
                    PAGE_BYTE_LIMIT
                } else {
                    ICON_BYTE_LIMIT
                };
                let action = self.fetch.step(request);
                match action {
                    FetchAction::CheckHost(u) => MetadataAction::CheckHost(u),
                    FetchAction::Send(u) => MetadataAction::Send(u),
                    FetchAction::GiveUp => {
                        if on_page {
                            self.finish_empty()
                        } else {
                            let next = self.index + 1;
                            self.try_icon(next)
                        }
                    },
                    FetchAction::Accept => {
                        let over = match declared {
                            Some(n) => n > limit,
                            None => false,
                        };
                        assert(over == declares_over(e, limit));
                        if over {
                            if on_page {
                                self.finish_empty()
                            } else {
                                let next = self.index + 1;
                                self.try_icon(next)
                            }
                        } else if on_page {
                            self.stage = MetadataStage::PageBody;
                            MetadataAction::ReadBody
                        } else {
                            self.stage = MetadataStage::IconBody;
                            assert(text_view(media) == event_content_type(e));
                            self.content_type = media;
                            MetadataAction::ReadBody
                        }
                    },
                }
            },
            MetadataStage::PageBody => match event {
                MetadataEvent::Body(Some(body)) => {
                    if (body.len() as u64) <= PAGE_BYTE_LIMIT {
                        let page = read_page(body.as_slice(), &self.page);
                        self.title = page.title;
                        self.description = page.description;
                        self.icons = page.icon_urls;
                        proof {
                            assert(self@ == with_page(s, body@));
                        }
                        self.try_icon(0)
                    } else {
                        self.finish_empty()
                    }
                },
                _ => self.finish_empty(),
            },
            MetadataStage::IconGuard => match event {
                MetadataEvent::HostChecked(true) => {
                    let (fetch, action) = PublicFetch::start(&self.icons[self.index]);
                    self.fetch = fetch;
                    self.stage = MetadataStage::IconFetch;
                    match action {
                        FetchAction::CheckHost(u) => MetadataAction::CheckHost(u),
                        _ => {
                            assert(false);
                            self.finish()
                        },
                    }
                },
                MetadataEvent::HostChecked(false) => {
                    let next = self.index + 1;
                    self.try_icon(next)
                },
                _ => self.finish(),
            },
            MetadataStage::IconBody => match event {
                MetadataEvent::Body(Some(bytes)) => {
                    if 0 < bytes.len() && (bytes.len() as u64) <= ICON_BYTE_LIMIT {
                        let file_name = icon_file_name(
                            &self.icons[self.index],
                            match &self.content_type {
                                Some(t) => Some(t.as_str()),
                                None => None,
                            },
                        );
                        self.stage = MetadataStage::IconSave;
                        MetadataAction::SaveIcon { file_name, bytes }
                    } else {
                        let next = self.index + 1;
                        self.try_icon(next)
                    }
                },
                MetadataEvent::Body(None) => {
                    let next = self.index + 1;
                    self.try_icon(next)
                },
                _ => self.finish(),
            },
            MetadataStage::IconSave => match event {
                MetadataEvent::Saved(true) => {
                    let file_name = icon_file_name(
                        &self.icons[self.index],
                        match &self.content_type {
                            Some(t) => Some(t.as_str()),
                            None => None,
                        },
                    );
                    self.icon_file = Some(file_name);
                    self.finish()
                },
                MetadataEvent::Saved(false) => {
                    let next = self.index + 1;
                    self.try_icon(next)
                },
                _ => self.finish(),
            },
            MetadataStage::Done => self.finish(),
        }
    }
}

} // verus!
