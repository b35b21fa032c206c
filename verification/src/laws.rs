//! What holds of every fetch, proved from the transition table.

use crate::error::FetchErrorView;
use crate::protocol::{actions_of, transition, ActionView, EventView, Phase};
use crate::response::HeadView;
use vstd::prelude::*;

verus! {

/// Handing the machine one event and then the rest is the same as handing it
/// all of them.
proof fn unfold_first(phase: Phase, event: EventView, rest: Seq<EventView>)
    ensures
        actions_of(phase, seq![event] + rest) == (match transition(phase, event).1 {
            Some(action) => seq![action],
            None => Seq::empty(),
        }) + actions_of(transition(phase, event).0, rest),
{
    let events = seq![event] + rest;
    assert(events.first() == event);
    assert(events.drop_first() =~= rest);
}

/// A response with a success status and the media type `audio/wav` yields
/// the bytes of its body, unchanged, whatever they are and however few.
pub proof fn audio_response_yields_body(url: Seq<char>, head: HeadView, body: Seq<u8>)
    requires
        head.is_audio(),
    ensures
        actions_of(
            Phase::Idle,
            seq![EventView::Call(url), EventView::Response(head), EventView::Bytes(body)],
        ) == seq![ActionView::Get(url), ActionView::ReadBytes, ActionView::Finish(Ok(body))],
{
    let third = seq![EventView::Bytes(body)];
    let second = seq![EventView::Response(head)] + third;
    let all = seq![EventView::Call(url)] + second;
    assert(all =~= seq![EventView::Call(url), EventView::Response(head), EventView::Bytes(body)]);
    unfold_first(Phase::Idle, EventView::Call(url), second);
    unfold_first(Phase::Requesting, EventView::Response(head), third);
    unfold_first(Phase::MaterializingPayload, EventView::Bytes(body), Seq::empty());
    assert(third =~= third + Seq::<EventView>::empty());
    assert(actions_of(Phase::Done, Seq::empty()) =~= Seq::<ActionView>::empty());
    assert(actions_of(Phase::Idle, all) =~= seq![
        ActionView::Get(url),
        ActionView::ReadBytes,
        ActionView::Finish(Ok(body)),
    ]);
}

/// A response whose media type is not exactly `audio/wav` has its body read as
/// text and yields a server failure that holds this text, unchanged, even
/// when the status is a success. So does one without a `Content-Type`.
pub proof fn other_media_type_yields_server_failure(url: Seq<char>, head: HeadView, text: Seq<char>)
    requires
        !head.has_audio_media_type(),
    ensures
        actions_of(
            Phase::Idle,
            seq![EventView::Call(url), EventView::Response(head), EventView::Text(text)],
        ) == seq![
            ActionView::Get(url),
            ActionView::ReadText,
            ActionView::Finish(Err(FetchErrorView::ServerFailure(text))),
        ],
{
    rejected_response_yields_server_failure(url, head, text);
}

/// A response whose status is not one of 200 to 299 has its body read as text
/// and yields a server failure that holds this text, unchanged, whatever its
/// media type.
pub proof fn failure_status_yields_server_failure(url: Seq<char>, head: HeadView, text: Seq<char>)
    requires
        !head.is_success(),
    ensures
        actions_of(
            Phase::Idle,
            seq![EventView::Call(url), EventView::Response(head), EventView::Text(text)],
        ) == seq![
            ActionView::Get(url),
            ActionView::ReadText,
            ActionView::Finish(Err(FetchErrorView::ServerFailure(text))),
        ],
{
    rejected_response_yields_server_failure(url, head, text);
}

/// A response that is not audio, for either reason, has its body read as
/// text and yields a server failure that holds this text.
proof fn rejected_response_yields_server_failure(url: Seq<char>, head: HeadView, text: Seq<char>)
    requires
        !head.is_audio(),
    ensures
        actions_of(
            Phase::Idle,
            seq![EventView::Call(url), EventView::Response(head), EventView::Text(text)],
        ) == seq![
            ActionView::Get(url),
            ActionView::ReadText,
            ActionView::Finish(Err(FetchErrorView::ServerFailure(text))),
        ],
{
    let third = seq![EventView::Text(text)];
    let second = seq![EventView::Response(head)] + third;
    let all = seq![EventView::Call(url)] + second;
    assert(all =~= seq![EventView::Call(url), EventView::Response(head), EventView::Text(text)]);
    unfold_first(Phase::Idle, EventView::Call(url), second);
    unfold_first(Phase::Requesting, EventView::Response(head), third);
    unfold_first(Phase::MaterializingErrorText, EventView::Text(text), Seq::empty());
    assert(third =~= third + Seq::<EventView>::empty());
    assert(actions_of(Phase::Done, Seq::empty()) =~= Seq::<ActionView>::empty());
    assert(actions_of(Phase::Idle, all) =~= seq![
        ActionView::Get(url),
        ActionView::ReadText,
        ActionView::Finish(Err(FetchErrorView::ServerFailure(text))),
    ]);
}

/// Once the body is being read as text, nothing the transport does makes the
/// machine hand out audio.
proof fn no_audio_from(phase: Phase, events: Seq<EventView>)
    requires
        phase == Phase::MaterializingErrorText || phase == Phase::Done,
    ensures
        forall|i: int|
            0 <= i < actions_of(phase, events).len() ==> !(#[trigger] actions_of(phase, events)[i]
                matches ActionView::Finish(Ok(_))),
    decreases events.len(),
{
    if events.len() > 0 {
        no_audio_from(transition(phase, events.first()).0, events.drop_first());
    }
}

/// A response that is not audio never yields audio: whatever the transport
/// does after it, no byte of its body is handed out as a payload.
pub proof fn rejected_response_never_yields_audio(
    url: Seq<char>,
    head: HeadView,
    rest: Seq<EventView>,
)
    requires
        !head.is_audio(),
    ensures
        ({
            let actions = actions_of(
                Phase::Idle,
                seq![EventView::Call(url), EventView::Response(head)] + rest,
            );
            forall|i: int|
                0 <= i < actions.len() ==> !(#[trigger] actions[i] matches ActionView::Finish(
                    Ok(_),
                ))
        }),
{
    let second = seq![EventView::Response(head)] + rest;
    let all = seq![EventView::Call(url)] + second;
    assert(all =~= seq![EventView::Call(url), EventView::Response(head)] + rest);
    unfold_first(Phase::Idle, EventView::Call(url), second);
    unfold_first(Phase::Requesting, EventView::Response(head), rest);
    no_audio_from(Phase::MaterializingErrorText, rest);
}

/// Whether `events` hold an audio response and, later, the reading of `body`
/// as bytes.
pub open spec fn audio_was_read(events: Seq<EventView>, body: Seq<u8>) -> bool {
    exists|j: int, k: int|
        #![trigger events[j], events[k]]
        0 <= j < k < events.len() && events[j] is Response && events[j]->Response_0.is_audio()
            && events[k] == EventView::Bytes(body)
}

/// What must have happened for `body` to be handed out from `phase` on.
spec fn source_of(phase: Phase, events: Seq<EventView>, body: Seq<u8>) -> bool {
    match phase {
        Phase::Idle | Phase::Requesting => audio_was_read(events, body),
        Phase::MaterializingPayload => exists|k: int|
            0 <= k < events.len() && #[trigger] events[k] == EventView::Bytes(body),
        Phase::MaterializingErrorText | Phase::Done => false,
    }
}

/// Audio among the actions asked for from `phase` on has its source among the
/// events handed in from there on.
proof fn audio_has_a_source(phase: Phase, events: Seq<EventView>, body: Seq<u8>, i: int)
    requires
        0 <= i < actions_of(phase, events).len(),
        actions_of(phase, events)[i] == ActionView::Finish(Ok(body)),
    ensures
        source_of(phase, events, body),
    decreases events.len(),
{
    let step = transition(phase, events.first());
    let rest = events.drop_first();
    assert(forall|k: int| 0 <= k < rest.len() ==> rest[k] == events[k + 1]);
    if step.1 is Some && i == 0 {
        assert(events[0] == EventView::Bytes(body));
    } else {
        let at = if step.1 is Some {
            i - 1
        } else {
            i
        };
        audio_has_a_source(step.0, rest, body, at);
        if step.0 == Phase::MaterializingPayload {
            let k = choose|k: int| 0 <= k < rest.len() && #[trigger] rest[k] == EventView::Bytes(body);
            assert(events[k + 1] == EventView::Bytes(body));
            if phase == Phase::Requesting {
                assert(events[0] is Response && events[0]->Response_0.is_audio());
            }
        } else {
            let (j, k) = choose|j: int, k: int|
                #![trigger rest[j], rest[k]]
                0 <= j < k < rest.len() && rest[j] is Response && rest[j]->Response_0.is_audio()
                    && rest[k] == EventView::Bytes(body);
            assert(events[j + 1] is Response && events[k + 1] == EventView::Bytes(body));
        }
    }
}

/// Audio is handed out only when both checks passed: if the outcome of a
/// fetch is a payload, then a response with a success status and the media
/// type `audio/wav` arrived, and the payload is what reading its body as
/// bytes gave, unchanged.
pub proof fn audio_only_from_audio_response(events: Seq<EventView>, body: Seq<u8>)
    requires
        actions_of(Phase::Idle, events).contains(ActionView::Finish(Ok(body))),
    ensures
        audio_was_read(events, body),
{
    let actions = actions_of(Phase::Idle, events);
    let i = choose|i: int| 0 <= i < actions.len() && actions[i] == ActionView::Finish(Ok(body));
    audio_has_a_source(Phase::Idle, events, body, i);
}

/// A failure of the transport is reported as a transport failure that holds
/// the transport's description, unchanged, and never as a server failure:
/// when no response arrives, when the body cannot be read or decoded, and in
/// every other phase in which the machine takes the event at all.
pub proof fn transport_failure_is_reported_as_such(
    url: Seq<char>,
    head: HeadView,
    description: Seq<char>,
)
    ensures
        actions_of(
            Phase::Idle,
            seq![EventView::Call(url), EventView::TransportError(description)],
        ) == seq![
            ActionView::Get(url),
            ActionView::Finish(Err(FetchErrorView::TransportFailure(description))),
        ],
        actions_of(
            Phase::Idle,
            seq![
                EventView::Call(url),
                EventView::Response(head),
                EventView::TransportError(description),
            ],
        ) == seq![
            ActionView::Get(url),
            if head.is_audio() {
                ActionView::ReadBytes
            } else {
                ActionView::ReadText
            },
            ActionView::Finish(Err(FetchErrorView::TransportFailure(description))),
        ],
        forall|phase: Phase|
            (#[trigger] transition(phase, EventView::TransportError(description))).1 is Some
                ==> transition(phase, EventView::TransportError(description)) == (
                Phase::Done,
                Some(ActionView::Finish(Err(FetchErrorView::TransportFailure(description)))),
            ),
{
    let failure = seq![EventView::TransportError(description)];
    assert(failure =~= failure + Seq::<EventView>::empty());
    assert(actions_of(Phase::Done, Seq::empty()) =~= Seq::<ActionView>::empty());

    let early = seq![EventView::Call(url)] + failure;
    assert(early =~= seq![EventView::Call(url), EventView::TransportError(description)]);
    unfold_first(Phase::Idle, EventView::Call(url), failure);
    unfold_first(Phase::Requesting, EventView::TransportError(description), Seq::empty());
    assert(actions_of(Phase::Idle, early) =~= seq![
        ActionView::Get(url),
        ActionView::Finish(Err(FetchErrorView::TransportFailure(description))),
    ]);

    let second = seq![EventView::Response(head)] + failure;
    let late = seq![EventView::Call(url)] + second;
    assert(late =~= seq![
        EventView::Call(url),
        EventView::Response(head),
        EventView::TransportError(description),
    ]);
    let reading = transition(Phase::Requesting, EventView::Response(head)).0;
    unfold_first(Phase::Idle, EventView::Call(url), second);
    unfold_first(Phase::Requesting, EventView::Response(head), failure);
    unfold_first(reading, EventView::TransportError(description), Seq::empty());
    assert(actions_of(Phase::Idle, late) =~= seq![
        ActionView::Get(url),
        if head.is_audio() {
            ActionView::ReadBytes
        } else {
            ActionView::ReadText
        },
        ActionView::Finish(Err(FetchErrorView::TransportFailure(description))),
    ]);
}

/// The actions that can still come when the machine stands in `phase`: from
/// `Idle` one request and then what follows it; while requesting, one read of
/// the body and then the outcome, or the outcome alone; while reading, the
/// outcome; and nothing once the fetch is done.
spec fn remaining(phase: Phase, actions: Seq<ActionView>) -> bool {
    let n = actions.len();
    match phase {
        Phase::Idle => n == 0 || (actions[0] is Get && remaining_after_request(
            actions.drop_first(),
        )),
        Phase::Requesting => remaining_after_request(actions),
        Phase::MaterializingPayload | Phase::MaterializingErrorText => remaining_after_read(
            actions,
        ),
        Phase::Done => n == 0,
    }
}

/// Nothing, the outcome alone, or one read of the body and then at most the
/// outcome.
spec fn remaining_after_request(actions: Seq<ActionView>) -> bool {
    actions.len() == 0 || remaining_after_read(actions) || ((actions[0] is ReadBytes
        || actions[0] is ReadText) && remaining_after_read(actions.drop_first()))
}

/// Nothing, or the outcome alone.
spec fn remaining_after_read(actions: Seq<ActionView>) -> bool {
    actions.len() == 0 || (actions.len() == 1 && actions[0] is Finish)
}

/// Whatever events arrive, the actions asked for from `phase` on are among
/// those that can still come.
proof fn actions_keep_their_order(phase: Phase, events: Seq<EventView>)
    ensures
        remaining(phase, actions_of(phase, events)),
    decreases events.len(),
{
    if events.len() > 0 {
        let step = transition(phase, events.first());
        let rest = actions_of(step.0, events.drop_first());
        actions_keep_their_order(step.0, events.drop_first());
        match step.1 {
            Some(action) => {
                assert((seq![action] + rest).drop_first() =~= rest);
            },
            None => {
                assert(Seq::<ActionView>::empty() + rest =~= rest);
            },
        }
    }
}

/// One fetch sends one request and no more: whatever events arrive, and
/// however many of them are failures, the first action asked for is the
/// request and no later action is one. The request goes to the URL of the
/// call that started the fetch.
pub proof fn single_request(events: Seq<EventView>)
    ensures
        ({
            let actions = actions_of(Phase::Idle, events);
            &&& actions.len() > 0 ==> actions[0] is Get
            &&& forall|i: int| 0 < i < actions.len() ==> !(#[trigger] actions[i] is Get)
            &&& events.len() > 0 && events[0] is Call ==> actions.len() > 0 && actions[0]
                == ActionView::Get(events[0]->Call_0)
        }),
{
    let actions = actions_of(Phase::Idle, events);
    actions_keep_their_order(Phase::Idle, events);
    if actions.len() > 0 {
        let later = actions.drop_first();
        assert forall|i: int| 0 < i < actions.len() implies !(#[trigger] actions[i] is Get) by {
            assert(actions[i] == later[i - 1]);
            if later.len() > 1 {
                assert(later.drop_first()[0] == later[1]);
            }
        }
    }
    if events.len() > 0 && events[0] is Call {
        assert(events =~= seq![events[0]] + events.drop_first());
        unfold_first(Phase::Idle, events[0], events.drop_first());
    }
}

/// The body of a response is consumed at most once, in one reading, and one
/// fetch has at most one outcome, after which the machine asks for nothing.
pub proof fn one_read_and_one_outcome(events: Seq<EventView>)
    ensures
        ({
            let actions = actions_of(Phase::Idle, events);
            &&& actions.len() <= 3
            &&& forall|i: int, j: int|
                0 <= i < j < actions.len() ==> !(#[trigger] is_read(actions[i]) && #[trigger] is_read(
                    actions[j],
                ))
            &&& forall|i: int|
                0 <= i < actions.len() && #[trigger] actions[i] is Finish ==> i == actions.len() - 1
        }),
{
    let actions = actions_of(Phase::Idle, events);
    actions_keep_their_order(Phase::Idle, events);
    if actions.len() > 0 {
        let later = actions.drop_first();
        assert(forall|i: int| 0 < i < actions.len() ==> actions[i] == later[i - 1]);
        if later.len() > 1 {
            assert(later.drop_first()[0] == later[1]);
        }
    }
}

/// Whether an action consumes the body.
pub open spec fn is_read(action: ActionView) -> bool {
    action is ReadBytes || action is ReadText
}

} // verus!
