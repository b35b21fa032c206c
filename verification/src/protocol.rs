//! One fetch as a state machine. The machine decides; whoever drives it does
//! the blocking work: it carries out each [`Action`] on the transport and
//! hands back what the transport gave as the next [`Event`].

use crate::error::{FetchError, FetchErrorView};
use crate::response::{HeadView, ResponseHead};
use vstd::prelude::*;

verus! {

/// How far a fetch has come.
#[derive(Debug, Clone, Copy, PartialEq, Eq, Structural)]
pub enum Phase {
    /// Nothing has been asked of the transport yet.
    Idle,
    /// The request is out and its response is awaited.
    Requesting,
    /// The response is audio and its body is being read as bytes.
    MaterializingPayload,
    /// The response is not audio and its body is being read as text.
    MaterializingErrorText,
    /// The outcome has been handed out.
    Done,
}

/// What the caller or the transport did.
#[derive(Debug, PartialEq, Eq)]
pub enum Event {
    /// The caller asks for the audio at this URL.
    Call(String),
    /// The transport received a response.
    Response(ResponseHead),
    /// The transport read the whole body as bytes.
    Bytes(Vec<u8>),
    /// The transport read the whole body and decoded it as text.
    Text(String),
    /// The transport failed at what it was last asked to do. Holds its
    /// description of the failure.
    TransportError(String),
}

/// What the driver does next.
#[derive(Debug, PartialEq, Eq)]
pub enum Action {
    /// Send one `GET` request to this URL, with no headers or body of its
    /// own, and wait for the response.
    Get(String),
    /// Consume the body of the response as raw bytes.
    ReadBytes,
    /// Consume the body of the response as decoded text.
    ReadText,
    /// Hand this outcome to the caller: the audio, or why there is none.
    Finish(Result<Vec<u8>, FetchError>),
}

/// An [`Event`] over sequences.
pub enum EventView {
    Call(Seq<char>),
    Response(HeadView),
    Bytes(Seq<u8>),
    Text(Seq<char>),
    TransportError(Seq<char>),
}

/// An [`Action`] over sequences.
pub enum ActionView {
    Get(Seq<char>),
    ReadBytes,
    ReadText,
    Finish(Result<Seq<u8>, FetchErrorView>),
}

impl View for Event {
    type V = EventView;

    open spec fn view(&self) -> EventView {
        match self {
            Event::Call(url) => EventView::Call(url@),
            Event::Response(head) => EventView::Response(head@),
            Event::Bytes(body) => EventView::Bytes(body@),
            Event::Text(text) => EventView::Text(text@),
            Event::TransportError(description) => EventView::TransportError(description@),
        }
    }
}

impl View for Action {
    type V = ActionView;

    open spec fn view(&self) -> ActionView {
        match self {
            Action::Get(url) => ActionView::Get(url@),
            Action::ReadBytes => ActionView::ReadBytes,
            Action::ReadText => ActionView::ReadText,
            Action::Finish(Ok(audio)) => ActionView::Finish(Ok(audio@)),
            Action::Finish(Err(error)) => ActionView::Finish(Err(error@)),
        }
    }
}

/// The phase that follows `phase` on `event`, and the action to carry out.
///
/// An event that does not answer what the machine waits for changes nothing
/// and asks for nothing. A transport failure ends the fetch from every phase
/// in which the transport is at work.
pub open spec fn transition(phase: Phase, event: EventView) -> (Phase, Option<ActionView>) {
    match (phase, event) {
        (Phase::Idle, EventView::Call(url)) => (Phase::Requesting, Some(ActionView::Get(url))),
        (Phase::Requesting, EventView::Response(head)) => if head.is_audio() {
            (Phase::MaterializingPayload, Some(ActionView::ReadBytes))
        } else {
            (Phase::MaterializingErrorText, Some(ActionView::ReadText))
        },
        (Phase::MaterializingPayload, EventView::Bytes(body)) => (
            Phase::Done,
            Some(ActionView::Finish(Ok(body))),
        ),
        (Phase::MaterializingErrorText, EventView::Text(text)) => (
            Phase::Done,
            Some(ActionView::Finish(Err(FetchErrorView::ServerFailure(text)))),
        ),
        (Phase::Requesting, EventView::TransportError(description))
        | (Phase::MaterializingPayload, EventView::TransportError(description))
        | (Phase::MaterializingErrorText, EventView::TransportError(description)) => (
            Phase::Done,
            Some(ActionView::Finish(Err(FetchErrorView::TransportFailure(description)))),
        ),
        _ => (phase, None),
    }
}

/// The actions the machine asks for, in order, when it starts in `phase` and
/// is handed `events` one after the other.
pub open spec fn actions_of(phase: Phase, events: Seq<EventView>) -> Seq<ActionView>
    decreases events.len(),
{
    if events.len() == 0 {
        Seq::empty()
    } else {
        let step = transition(phase, events.first());
        let asked = match step.1 {
            Some(action) => seq![action],
            None => Seq::empty(),
        };
        asked + actions_of(step.0, events.drop_first())
    }
}

/// The view of what a step asks for.
pub open spec fn asked(action: Option<Action>) -> Option<ActionView> {
    match action {
        Some(action) => Some(action@),
        None => None,
    }
}

impl Phase {
    /// Takes one event and says where the fetch stands after it and what is
    /// to be done next, as [`transition`] lays down. No action means that the
    /// event was not the answer awaited: the phase is then the same as before.
    pub fn step(self, event: Event) -> (next: (Phase, Option<Action>))
        ensures
            next.0 == transition(self, event@).0,
            asked(next.1) == transition(self, event@).1,
    {
        match (self, event) {
            (Phase::Idle, Event::Call(url)) => (Phase::Requesting, Some(Action::Get(url))),
            (Phase::Requesting, Event::Response(head)) => {
                if head.is_audio() {
                    (Phase::MaterializingPayload, Some(Action::ReadBytes))
                } else {
                    (Phase::MaterializingErrorText, Some(Action::ReadText))
                }
            },
            (Phase::MaterializingPayload, Event::Bytes(body)) => (
                Phase::Done,
                Some(Action::Finish(Ok(body))),
            ),
            (Phase::MaterializingErrorText, Event::Text(text)) => (
                Phase::Done,
                Some(Action::Finish(Err(FetchError::ServerFailure(text)))),
            ),
            (Phase::Requesting, Event::TransportError(description))
            | (Phase::MaterializingPayload, Event::TransportError(description))
            | (Phase::MaterializingErrorText, Event::TransportError(description)) => (
                Phase::Done,
                Some(Action::Finish(Err(FetchError::TransportFailure(description)))),
            ),
            (phase, _) => (phase, None),
        }
    }
}

} // verus!
