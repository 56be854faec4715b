//! The bounded fetch as a state machine. The caller performs each action it
//! is handed (build a client, send the request, read the body) and reports
//! what happened as the next event; every decision is made here.
use vstd::prelude::*;

use crate::body::{
    body_outcome, declared_too_large, decode_body, exceeds_size_limit, REQUEST_TIMEOUT_SECS,
};
use crate::error::{ErrorView, FetchError};

verus! {

/// Where a fetch stands. `Finished` is terminal.
#[derive(PartialEq, Eq, Structural, Clone, Copy, Debug)]
pub enum Phase {
    Idle,
    BuildingClient,
    Sending,
    ReadingBody,
    Finished,
}

/// What the outside world answered to the last action.
#[derive(Debug)]
pub enum FetchEvent {
    /// The caller asks for the fetch to begin.
    Started,
    /// The HTTP client was built.
    ClientBuilt,
    /// The HTTP client could not be built, with the client's description.
    ClientFailed(String),
    /// The response's head arrived, with its declared `Content-Length`.
    ResponseHead(Option<u64>),
    /// The request failed in transport, with the client's description.
    SendFailed(String),
    /// The whole body arrived.
    BodyReceived(Vec<u8>),
    /// Reading the body failed, with the client's description.
    BodyFailed(String),
}

/// What the caller is to do next.
#[derive(Debug, PartialEq, Eq)]
pub enum FetchAction {
    /// Build an HTTP client whose requests time out after this many seconds.
    BuildClient(u64),
    /// Send a GET request to this URL.
    SendGet(String),
    /// Read the whole body of the response.
    ReadBody,
    /// The fetch is over, with this result.
    Finish(Result<String, FetchError>),
    /// The event does not belong to this phase: nothing to do.
    Ignore,
}

pub enum EventView {
    Started,
    ClientBuilt,
    ClientFailed(Seq<char>),
    ResponseHead(Option<u64>),
    SendFailed(Seq<char>),
    BodyReceived(Seq<u8>),
    BodyFailed(Seq<char>),
}

pub enum ActionView {
    BuildClient(u64),
    SendGet(Seq<char>),
    ReadBody,
    Finish(Result<Seq<char>, ErrorView>),
    Ignore,
}

impl View for FetchEvent {
    type V = EventView;

    open spec fn view(&self) -> EventView {
        match self {
            FetchEvent::Started => EventView::Started,
            FetchEvent::ClientBuilt => EventView::ClientBuilt,
            FetchEvent::ClientFailed(d) => EventView::ClientFailed(d@),
            FetchEvent::ResponseHead(n) => EventView::ResponseHead(*n),
            FetchEvent::SendFailed(d) => EventView::SendFailed(d@),
            FetchEvent::BodyReceived(b) => EventView::BodyReceived(b@),
            FetchEvent::BodyFailed(d) => EventView::BodyFailed(d@),
        }
    }
}

impl View for FetchAction {
    type V = ActionView;

    open spec fn view(&self) -> ActionView {
        match self {
            FetchAction::BuildClient(t) => ActionView::BuildClient(*t),
            FetchAction::SendGet(u) => ActionView::SendGet(u@),
            FetchAction::ReadBody => ActionView::ReadBody,
            FetchAction::Finish(Ok(s)) => ActionView::Finish(Ok(s@)),
            FetchAction::Finish(Err(e)) => ActionView::Finish(Err(e@)),
            FetchAction::Ignore => ActionView::Ignore,
        }
    }
}

/// One transition: the next phase and the action, from the phase, the URL
/// and the event. An event that does not belong to the phase changes nothing.
pub open spec fn next(phase: Phase, url: Seq<char>, event: EventView) -> (Phase, ActionView) {
    match (phase, event) {
        (Phase::Idle, EventView::Started) => (
            Phase::BuildingClient,
            ActionView::BuildClient(REQUEST_TIMEOUT_SECS),
        ),
        (Phase::BuildingClient, EventView::ClientBuilt) => (Phase::Sending, ActionView::SendGet(url)),
        (Phase::BuildingClient, EventView::ClientFailed(d)) => (
            Phase::Finished,
            ActionView::Finish(Err(ErrorView::ClientInit(d))),
        ),
        (Phase::Sending, EventView::ResponseHead(n)) => if declared_too_large(n) {
            (Phase::Finished, ActionView::Finish(Err(ErrorView::PayloadTooLarge)))
        } else {
            (Phase::ReadingBody, ActionView::ReadBody)
        },
        (Phase::Sending, EventView::SendFailed(d)) => (
            Phase::Finished,
            ActionView::Finish(Err(ErrorView::Network(d))),
        ),
        (Phase::ReadingBody, EventView::BodyReceived(b)) => (
            Phase::Finished,
            ActionView::Finish(body_outcome(b)),
        ),
        (Phase::ReadingBody, EventView::BodyFailed(d)) => (
            Phase::Finished,
            ActionView::Finish(Err(ErrorView::Decode(d))),
        ),
        _ => (phase, ActionView::Ignore),
    }
}

/// One fetch of one URL.
pub struct BoundedFetch {
    pub url: String,
    pub phase: Phase,
}

impl BoundedFetch {
    /// A fetch of `url` that has not begun.
    pub fn new(url: String) -> (r: BoundedFetch)
        ensures
            r.url == url,
            r.phase == Phase::Idle,
    {
        BoundedFetch { url, phase: Phase::Idle }
    }

    /// Takes in what happened and hands back what to do next.
    pub fn step(&mut self, event: FetchEvent) -> (action: FetchAction)
        ensures
            final(self).url == old(self).url,
            (final(self).phase, action@) == next(old(self).phase, old(self).url@, event@),
    {
        let phase = self.phase;
        let (p, action) = match event {
            FetchEvent::Started => if phase == Phase::Idle {
                (Phase::BuildingClient, FetchAction::BuildClient(REQUEST_TIMEOUT_SECS))
            } else {
                (phase, FetchAction::Ignore)
            },
            FetchEvent::ClientBuilt => if phase == Phase::BuildingClient {
                (Phase::Sending, FetchAction::SendGet(self.url.clone()))
            } else {
                (phase, FetchAction::Ignore)
            },
            FetchEvent::ClientFailed(d) => if phase == Phase::BuildingClient {
                (Phase::Finished, FetchAction::Finish(Err(FetchError::ClientInit(d))))
            } else {
                (phase, FetchAction::Ignore)
            },
            FetchEvent::ResponseHead(n) => if phase == Phase::Sending {
                if exceeds_size_limit(n) {
                    (Phase::Finished, FetchAction::Finish(Err(FetchError::PayloadTooLarge)))
                } else {
                    (Phase::ReadingBody, FetchAction::ReadBody)
                }
            } else {
                (phase, FetchAction::Ignore)
            },
            FetchEvent::SendFailed(d) => if phase == Phase::Sending {
                (Phase::Finished, FetchAction::Finish(Err(FetchError::Network(d))))
            } else {
                (phase, FetchAction::Ignore)
            },
            FetchEvent::BodyReceived(b) => if phase == Phase::ReadingBody {
                (Phase::Finished, FetchAction::Finish(decode_body(b)))
            } else {
                (phase, FetchAction::Ignore)
            },
            FetchEvent::BodyFailed(d) => if phase == Phase::ReadingBody {
                (Phase::Finished, FetchAction::Finish(Err(FetchError::Decode(d))))
            } else {
                (phase, FetchAction::Ignore)
            },
        };
        self.phase = p;
        action
    }
}

} // verus!
