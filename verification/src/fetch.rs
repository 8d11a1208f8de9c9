//! Following a metadata request through redirects, one decision at a time.
//!
//! The caller performs each action (checking a host with the guard, sending
//! a request) and reports what happened as an event; the machine decides what
//! comes next. Every request goes to a URL whose host the guard has just
//! allowed, and at most [`MAX_REQUESTS`] requests are made.

use vstd::prelude::*;

use crate::web_url::{joined_url, UrlView, WebUrl};

verus! {

/// The most requests one fetch makes: the first and five redirects.
pub const MAX_REQUESTS: usize = 6;

/// Where a fetch stands.
#[derive(PartialEq, Eq, Structural, Clone, Copy, Debug)]
pub enum FetchStage {
    /// Waiting for the guard's answer about the current URL.
    AwaitingCheck,
    /// Waiting for the response to the request to the current URL.
    AwaitingResponse,
    /// Done: the last action was `Accept` or `GiveUp`.
    Finished,
}

/// What the caller does next.
#[derive(Debug)]
pub enum FetchAction {
    /// Ask the guard whether metadata may be fetched from this URL.
    CheckHost(WebUrl),
    /// Send a request to this URL.
    Send(WebUrl),
    /// Keep the last response: it is the answer.
    Accept,
    /// Stop without an answer.
    GiveUp,
}

/// What happened after the last action.
pub enum FetchEvent {
    /// The guard's answer about the URL to check.
    HostChecked(bool),
    /// The request could not be completed.
    RequestFailed,
    /// The response's status, and its `Location` header when it has a
    /// readable one.
    Responded { status: u16, location: Option<String> },
}

/// The state of a fetch as the contracts see it.
pub struct FetchView {
    pub current: UrlView,
    pub attempts: nat,
    pub stage: FetchStage,
}

/// An action as the contracts see it.
pub enum ActionView {
    CheckHost(UrlView),
    Send(UrlView),
    Accept,
    GiveUp,
}

/// An event as the contracts see it.
pub enum EventView {
    HostChecked(bool),
    RequestFailed,
    Responded(u16, Option<Seq<char>>),
}

/// The state of a fetch that follows redirects from one URL.
pub struct PublicFetch {
    current: WebUrl,
    attempts: usize,
    stage: FetchStage,
}

impl View for PublicFetch {
    type V = FetchView;

    closed spec fn view(&self) -> FetchView {
        FetchView { current: self.current@, attempts: self.attempts as nat, stage: self.stage }
    }
}

impl View for FetchAction {
    type V = ActionView;

    open spec fn view(&self) -> ActionView {
        match self {
            FetchAction::CheckHost(u) => ActionView::CheckHost(u@),
            FetchAction::Send(u) => ActionView::Send(u@),
            FetchAction::Accept => ActionView::Accept,
            FetchAction::GiveUp => ActionView::GiveUp,
        }
    }
}

impl View for FetchEvent {
    type V = EventView;

    open spec fn view(&self) -> EventView {
        match self {
            FetchEvent::HostChecked(b) => EventView::HostChecked(*b),
            FetchEvent::RequestFailed => EventView::RequestFailed,
            FetchEvent::Responded { status, location } => EventView::Responded(
                *status,
                match location {
                    Some(l) => Some(l@),
                    None => None,
                },
            ),
        }
    }
}

/// A status that `reqwest` treats as a redirection (300 to 399).
pub open spec fn is_redirection(status: u16) -> bool {
    300 <= status <= 399
}

/// A status that `Response::error_for_status` turns into an error (client
/// and server errors, 400 to 599).
pub open spec fn is_error_status(status: u16) -> bool {
    400 <= status <= 599
}

/// A well-formed fetch: it has made between one and [`MAX_REQUESTS`] checks.
pub open spec fn fetch_wf(s: FetchView) -> bool {
    1 <= s.attempts <= MAX_REQUESTS
}

/// The state after the fetch ends.
pub open spec fn finished(s: FetchView) -> FetchView {
    FetchView { stage: FetchStage::Finished, ..s }
}

/// One step of the fetch: the next state and the next action.
pub open spec fn step_spec(s: FetchView, e: EventView) -> (FetchView, ActionView) {
    match (s.stage, e) {
        (FetchStage::AwaitingCheck, EventView::HostChecked(true)) => (
            FetchView { stage: FetchStage::AwaitingResponse, ..s },
            ActionView::Send(s.current),
        ),
        (FetchStage::AwaitingResponse, EventView::Responded(status, location)) => {
            if is_redirection(status) {
                match location {
                    None => (finished(s), ActionView::GiveUp),
                    Some(l) => match joined_url(s.current.serialization, l) {
                        None => (finished(s), ActionView::GiveUp),
                        Some(next) => if s.attempts >= MAX_REQUESTS {
                            (finished(s), ActionView::GiveUp)
                        } else {
                            (
                                FetchView {
                                    current: next,
                                    attempts: s.attempts + 1,
                                    stage: FetchStage::AwaitingCheck,
                                },
                                ActionView::CheckHost(next),
                            )
                        },
                    },
                }
            } else if is_error_status(status) {
                (finished(s), ActionView::GiveUp)
            } else {
                (finished(s), ActionView::Accept)
            }
        },
        _ => (finished(s), ActionView::GiveUp),
    }
}

/// The state and the actions after a fetch in state `s` takes `events` in turn.
pub open spec fn run(s: FetchView, events: Seq<EventView>) -> (FetchView, Seq<ActionView>)
    decreases events.len(),
{
    if events.len() == 0 {
        (s, Seq::empty())
    } else {
        let (mid, actions) = run(s, events.drop_last());
        let (next, action) = step_spec(mid, events.last());
        (next, actions.push(action))
    }
}

/// The number of requests among `actions`.
pub open spec fn sends(actions: Seq<ActionView>) -> nat
    decreases actions.len(),
{
    if actions.len() == 0 {
        0
    } else {
        sends(actions.drop_last()) + if actions.last() is Send {
            1nat
        } else {
            0nat
        }
    }
}

/// How many more requests a fetch in state `s` may still make.
pub open spec fn requests_left(s: FetchView) -> nat {
    match s.stage {
        FetchStage::AwaitingCheck => (MAX_REQUESTS - s.attempts + 1) as nat,
        FetchStage::AwaitingResponse => (MAX_REQUESTS - s.attempts) as nat,
        FetchStage::Finished => 0,
    }
}

/// One step of a fetch keeps it well formed and uses up a request only
/// when it sends one.
pub proof fn lemma_step_budget(s: FetchView, e: EventView)
    requires
        fetch_wf(s),
    ensures
        fetch_wf(step_spec(s, e).0),
        requests_left(step_spec(s, e).0) + (if step_spec(s, e).1 is Send {
            1nat
        } else {
            0nat
        }) <= requests_left(s),
{
}

/// Whatever happens, a fetch from a well-formed state makes no more requests
/// than it has left; a fetch that has just started makes at most
/// [`MAX_REQUESTS`].
pub proof fn law_requests_are_bounded(s: FetchView, events: Seq<EventView>)
    requires
        fetch_wf(s),
    ensures
        fetch_wf(run(s, events).0),
        sends(run(s, events).1) + requests_left(run(s, events).0) <= requests_left(s),
        requests_left(s) <= MAX_REQUESTS,
    decreases events.len(),
{
    if events.len() > 0 {
        law_requests_are_bounded(s, events.drop_last());
        let (mid, actions) = run(s, events.drop_last());
        lemma_step_budget(mid, events.last());
        let (next, action) = step_spec(mid, events.last());
        assert(actions.push(action).drop_last() =~= actions);
        assert(run(s, events) == (next, actions.push(action)));
    }
}

proof fn lemma_run_len(s: FetchView, events: Seq<EventView>)
    ensures
        run(s, events).1.len() == events.len(),
    decreases events.len(),
{
    if events.len() > 0 {
        lemma_run_len(s, events.drop_last());
    }
}

/// Every request a fetch makes goes to the URL the guard has just allowed:
/// in any run, the event that leads to a `Send` is the guard's approval, and
/// the URL sent to is the one that was checked.
pub proof fn law_requests_follow_approval(s: FetchView, events: Seq<EventView>, i: int)
    requires
        fetch_wf(s),
        0 <= i < events.len(),
        run(s, events).1[i] is Send,
    ensures
        events[i] == EventView::HostChecked(true),
        run(s, events.take(i)).0.stage == FetchStage::AwaitingCheck,
        run(s, events).1[i] == ActionView::Send(run(s, events.take(i)).0.current),
    decreases events.len(),
{
    lemma_run_len(s, events.drop_last());
    if i == events.len() - 1 {
        assert(events.take(i) =~= events.drop_last());
    } else {
        assert(events.drop_last().take(i) =~= events.take(i));
        assert(events.drop_last()[i] == events[i]);
        assert(run(s, events).1[i] == run(s, events.drop_last()).1[i]);
        law_requests_follow_approval(s, events.drop_last(), i);
    }
}

/// A redirect is followed: while requests are left, a response with any
/// status from 300 to 399 whose `Location` resolves against the current URL
/// moves the fetch to the resolved URL, whose host the guard checks next.
pub proof fn law_redirects_are_followed(s: FetchView, status: u16, location: Seq<char>)
    requires
        fetch_wf(s),
        s.stage == FetchStage::AwaitingResponse,
        300 <= status <= 399,
        joined_url(s.current.serialization, location) is Some,
        s.attempts < MAX_REQUESTS,
    ensures
        ({
            let next = joined_url(s.current.serialization, location).unwrap();
            step_spec(s, EventView::Responded(status, Some(location))) == (
                FetchView { current: next, attempts: s.attempts + 1, stage: FetchStage::AwaitingCheck },
                ActionView::CheckHost(next),
            )
        }),
{
}

/// How a response ends a fetch: a status from 400 to 599 gives up, any status
/// outside 300 to 599 is accepted, and a redirect without a usable
/// `Location`, or one past the last request, gives up. A failed request, or
/// a host the guard refuses, gives up too. The fetch stays at its URL.
pub proof fn law_responses_end_the_fetch(s: FetchView, status: u16, location: Option<Seq<char>>)
    requires
        fetch_wf(s),
    ensures
        s.stage == FetchStage::AwaitingResponse && 400 <= status <= 599 ==> step_spec(
            s,
            EventView::Responded(status, location),
        ) == (FetchView { stage: FetchStage::Finished, ..s }, ActionView::GiveUp),
        s.stage == FetchStage::AwaitingResponse && (status < 300 || status > 599) ==> step_spec(
            s,
            EventView::Responded(status, location),
        ) == (FetchView { stage: FetchStage::Finished, ..s }, ActionView::Accept),
        s.stage == FetchStage::AwaitingResponse && 300 <= status <= 399 && (location is None
            || joined_url(s.current.serialization, location.unwrap()) is None || s.attempts
            >= MAX_REQUESTS) ==> step_spec(s, EventView::Responded(status, location)) == (
            FetchView { stage: FetchStage::Finished, ..s },
            ActionView::GiveUp,
        ),
        step_spec(s, EventView::RequestFailed) == (
            FetchView { stage: FetchStage::Finished, ..s },
            ActionView::GiveUp,
        ),
        step_spec(s, EventView::HostChecked(false)) == (
            FetchView { stage: FetchStage::Finished, ..s },
            ActionView::GiveUp,
        ),
{
}

impl PublicFetch {
    /// Starts a fetch of `url`: its host is checked first.
    pub fn start(url: &WebUrl) -> (r: (PublicFetch, FetchAction))
        ensures
            r.0@ == (FetchView { current: url@, attempts: 1, stage: FetchStage::AwaitingCheck }),
            r.1@ == ActionView::CheckHost(url@),
            fetch_wf(r.0@),
    {
        (
            PublicFetch { current: url.duplicate(), attempts: 1, stage: FetchStage::AwaitingCheck },
            FetchAction::CheckHost(url.duplicate()),
        )
    }

    /// The URL the fetch is at.
    pub fn current(&self) -> (u: &WebUrl)
        ensures
            u@ == self@.current,
    {
        &self.current
    }

    /// Takes the event that followed the last action and gives the next
    /// action. A request is only ever sent right after the guard allowed its
    /// URL, and a fetch checks at most [`MAX_REQUESTS`] URLs.
    pub fn step(&mut self, event: FetchEvent) -> (action: FetchAction)
        requires
            fetch_wf(old(self)@),
        ensures
            (final(self)@, action@) == step_spec(old(self)@, event@),
            fetch_wf(final(self)@),
            action@ matches ActionView::Send(u) ==> old(self)@.stage == FetchStage::AwaitingCheck
                && event@ == EventView::HostChecked(true) && u == old(self)@.current,
            action@ matches ActionView::CheckHost(u) ==> final(self)@.current == u
                && final(self)@.stage == FetchStage::AwaitingCheck,
            action@ == ActionView::Accept ==> (event@ matches EventView::Responded(status, _)
                && !is_redirection(status) && !is_error_status(status)),
    {
        match (self.stage, event) {
            (FetchStage::AwaitingCheck, FetchEvent::HostChecked(true)) => {
                self.stage = FetchStage::AwaitingResponse;
                FetchAction::Send(self.current.duplicate())
            },
            (FetchStage::AwaitingResponse, FetchEvent::Responded { status, location }) => {
                if 300 <= status && status <= 399 {
                    let l = match location {
                        None => {
                            self.stage = FetchStage::Finished;
                            return FetchAction::GiveUp;
                        },
                        Some(l) => l,
                    };
                    match self.current.join(l.as_str()) {
                        None => {
                            self.stage = FetchStage::Finished;
                            FetchAction::GiveUp
                        },
                        Some(next) => {
                            if self.attempts >= MAX_REQUESTS {
                                self.stage = FetchStage::Finished;
                                FetchAction::GiveUp
                            } else {
                                let action = FetchAction::CheckHost(next.duplicate());
                                self.current = next;
                                self.attempts = self.attempts + 1;
                                self.stage = FetchStage::AwaitingCheck;
                                action
                            }
                        },
                    }
                } else if 400 <= status && status <= 599 {
                    self.stage = FetchStage::Finished;
                    FetchAction::GiveUp
                } else {
                    self.stage = FetchStage::Finished;
                    FetchAction::Accept
                }
            },
            _ => {
                self.stage = FetchStage::Finished;
                FetchAction::GiveUp
            },
        }
    }
}

} // verus!
