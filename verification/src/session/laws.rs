//! What holds of every session, proved from the transitions of
//! [`SessionModel`].

use crate::codec::{
    binary_unsupported_text, decoded, invalid_message_text, DecodeError, MessageModel,
};
use crate::registry::{ClientId, RegistryModel};
use crate::session::{
    clipboard_frame_text, elapsed, last_sign_of_life, peer_stays, ticks_in_time,
    CloseReasonModel, EventModel, FrameModel, Nanos, ReactionModel, SessionModel, CLIENT_TIMEOUT,
};
use vstd::prelude::*;

verus! {

/// A sign of life keeps a session open. After an active session got a
/// heartbeat message, a connect message, a probe or the answer to one at
/// `seen`, a tick no more than the timeout later closes nothing: the session
/// stays active and registered as before, and probes its peer.
pub proof fn lemma_sign_of_life_keeps_session_open(
    session: SessionModel,
    registry: RegistryModel,
    seen: Nanos,
    tick: Nanos,
    payload: Seq<u8>,
)
    requires
        session.state is Active,
        elapsed(seen, tick) <= CLIENT_TIMEOUT,
    ensures
        ({
            let alive = session.refreshed(seen);
            &&& session.on_message(registry, Ok(MessageModel::Heartbeat), seen).session == alive
            &&& session.on_message(registry, Ok(MessageModel::Connect), seen).session == alive
            &&& session.on_frame(registry, FrameModel::Pong, seen).session == alive
            &&& session.on_frame(registry, FrameModel::Ping(payload), seen).session == alive
            &&& alive.on_tick(registry, tick).session == alive
            &&& alive.on_tick(registry, tick).registry == registry
            &&& alive.on_tick(registry, tick).reaction == ReactionModel::Ping
        }),
{
}

/// The ticks among the first `n` of `events` are in time where those among
/// all of `events` are.
proof fn lemma_ticks_in_time_of_prefix(start: Nanos, events: Seq<EventModel>, n: int)
    requires
        0 <= n <= events.len(),
        ticks_in_time(start, events),
    ensures
        ticks_in_time(start, events.take(n)),
{
    let first = events.take(n);
    assert forall|i: int| 0 <= i < first.len() implies (#[trigger] first[i] matches
        EventModel::Tick(now) ==> elapsed(last_sign_of_life(start, first.take(i)), now)
        <= CLIENT_TIMEOUT) by {
        assert(first[i] == events[i]);
        assert(first.take(i) =~= events.take(i));
    }
}

/// At the end of a run whose ticks are in time the last tick or frame did
/// not stop the session, and a session that is still active remembers the
/// last sign of life.
proof fn lemma_run_in_time(session: SessionModel, registry: RegistryModel, events: Seq<EventModel>)
    requires
        ticks_in_time(session.last_heartbeat, events),
    ensures
        session.run(registry, events).reaction != ReactionModel::Stop,
        session.run(registry, events).session.id == session.id,
        session.run(registry, events).session.state is Active ==> session.state is Active
            && session.run(registry, events).session.last_heartbeat == last_sign_of_life(
            session.last_heartbeat,
            events,
        ),
        session.state is Active && peer_stays(events) ==> session.run(
            registry,
            events,
        ).session.state is Active && session.run(registry, events).registry.clients
            == registry.clients,
    decreases events.len(),
{
    if events.len() > 0 {
        let n = events.len() - 1;
        let earlier = events.drop_last();
        assert(earlier =~= events.take(n));
        lemma_ticks_in_time_of_prefix(session.last_heartbeat, events, n);
        lemma_run_in_time(session, registry, earlier);
        assert(events[n] == events.last());
        if peer_stays(events) {
            assert forall|i: int| 0 <= i < earlier.len() implies !(#[trigger] earlier[i] matches
                EventModel::Frame(FrameModel::Close(_), _)) by {
                assert(earlier[i] == events[i]);
            }
        }
    }
}

/// A session that keeps giving signs of life is never closed by the
/// heartbeat. Take any run of ticks and frames in which every tick comes no
/// more than the timeout after the sign of life before it (or after the
/// session's start, where there was none yet). No tick or frame of the run
/// stops the session. If the session was active and its peer does not close,
/// it is still active at the end, with the same sessions registered as at the
/// beginning.
pub proof fn lemma_live_session_is_never_closed(
    session: SessionModel,
    registry: RegistryModel,
    events: Seq<EventModel>,
)
    requires
        ticks_in_time(session.last_heartbeat, events),
    ensures
        forall|n: int|
            0 <= n <= events.len() ==> (#[trigger] session.run(registry, events.take(n))).reaction
                != ReactionModel::Stop,
        session.state is Active && peer_stays(events) ==> session.run(
            registry,
            events,
        ).session.state is Active && session.run(registry, events).registry.clients
            == registry.clients && session.run(registry, events).session.last_heartbeat
            == last_sign_of_life(session.last_heartbeat, events),
{
    assert forall|n: int| 0 <= n <= events.len() implies (#[trigger] session.run(
        registry,
        events.take(n),
    )).reaction != ReactionModel::Stop by {
        lemma_ticks_in_time_of_prefix(session.last_heartbeat, events, n);
        lemma_run_in_time(session, registry, events.take(n));
    }
    lemma_run_in_time(session, registry, events);
}

/// Silence closes a session, once. A tick more than the timeout after the
/// last sign of life moves an active session to closing, takes it out of the
/// registry and tells it to stop without touching any other session. When the
/// connection then goes away the registry does not change again.
pub proof fn lemma_silent_session_is_closed_once(
    session: SessionModel,
    registry: RegistryModel,
    tick: Nanos,
)
    requires
        session.state is Active,
        tick - session.last_heartbeat > CLIENT_TIMEOUT,
    ensures
        ({
            let expired = session.on_tick(registry, tick);
            let gone = expired.session.on_stop(expired.registry);
            &&& expired.reaction == ReactionModel::Stop
            &&& expired.session.state is Closing
            &&& expired.registry == registry.unregister(session.id)
            &&& !expired.registry.clients.contains(session.id)
            &&& forall|other: ClientId|
                other != session.id ==> expired.registry.clients.contains(other)
                    == registry.clients.contains(other)
            &&& gone.session.state is Closed
            &&& gone.registry == expired.registry
        }),
{
}

/// An update reaches every other session. When an active session gets a
/// clipboard message, the frame that carries the new text goes to each
/// registered session but the sender and to nobody else, and the registry
/// reads the new text from then on.
pub proof fn lemma_update_reaches_every_other_session(
    sender: SessionModel,
    registry: RegistryModel,
    content: Seq<char>,
    now: Nanos,
)
    requires
        sender.state is Active,
    ensures
        ({
            let after = sender.on_message(registry, Ok(MessageModel::Clipboard(content)), now);
            &&& after.registry.read() == content
            &&& after.registry.clients == registry.clients
            &&& after.session == sender
            &&& after.reaction matches ReactionModel::Broadcast { recipients, frame }
            &&& frame == clipboard_frame_text(content)
            &&& forall|other: ClientId|
                recipients.contains(other) <==> other != sender.id && registry.clients.contains(
                    other,
                )
        }),
{
}

/// A sync request is answered to the requester alone: one frame with the
/// current clipboard text, no broadcast, and nothing changes.
pub proof fn lemma_sync_answers_requester_only(
    session: SessionModel,
    registry: RegistryModel,
    now: Nanos,
)
    requires
        session.state is Active,
    ensures
        ({
            let after = session.on_message(registry, Ok(MessageModel::Sync), now);
            &&& after.reaction == ReactionModel::Reply(clipboard_frame_text(registry.read()))
            &&& after.registry == registry
            &&& after.session == session
        }),
{
}

/// A frame that carries no message is answered and forgotten. A text frame
/// that does not decode gets exactly one error frame, a binary frame gets its
/// own; the session stays active and untouched, the registry too, so the next
/// frame is handled as if nothing had happened.
pub proof fn lemma_bad_frame_is_answered_and_forgotten(
    session: SessionModel,
    registry: RegistryModel,
    text: Seq<char>,
    error: DecodeError,
    now: Nanos,
)
    requires
        session.state is Active,
        decoded(text) == Err::<MessageModel, DecodeError>(error),
    ensures
        ({
            let after = session.on_frame(registry, FrameModel::Text(text), now);
            let binary = session.on_frame(registry, FrameModel::Binary, now);
            &&& after.reaction == ReactionModel::Reply(invalid_message_text())
            &&& after.session == session
            &&& after.session.state is Active
            &&& after.registry == registry
            &&& binary.reaction == ReactionModel::Reply(binary_unsupported_text())
            &&& binary.session == session
            &&& binary.registry == registry
        }),
{
}

/// A session that is not active does nothing. Whatever ticks and frames still
/// reach a session that is connecting, closing or closed, the session and the
/// registry stay as they are and nothing is sent, so a session that was
/// closed is never unregistered a second time.
pub proof fn lemma_inactive_session_is_inert(
    session: SessionModel,
    registry: RegistryModel,
    events: Seq<EventModel>,
)
    requires
        !(session.state is Active),
    ensures
        session.run(registry, events) == session.unmoved(registry),
        session.run(registry, events).session.on_stop(registry).registry == registry,
    decreases events.len(),
{
    if events.len() > 0 {
        lemma_inactive_session_is_inert(session, registry, events.drop_last());
    }
}

/// Teardown takes effect once. However a session came to close (its
/// connection went away, its peer closed, it fell silent), it is out of the
/// registry afterwards, and going through the close path again changes
/// neither the session nor the registry.
pub proof fn lemma_teardown_takes_effect_once(
    session: SessionModel,
    registry: RegistryModel,
    reason: Option<CloseReasonModel>,
    now: Nanos,
)
    ensures
        ({
            let first = session.on_stop(registry);
            let second = first.session.on_stop(first.registry);
            &&& first.session.state is Closed
            &&& session.state is Active ==> first.registry == registry.unregister(session.id)
            &&& !(session.state is Active) ==> first.registry == registry
            &&& second.session == first.session
            &&& second.registry == first.registry
        }),
        ({
            let closing = session.on_frame(registry, FrameModel::Close(reason), now);
            let stopped = closing.session.on_stop(closing.registry);
            &&& session.state is Active ==> closing.session.state is Closing && closing.registry
                == registry.unregister(session.id)
            &&& stopped.registry == closing.registry
            &&& stopped.session.state is Closed
        }),
        ({
            let expired = session.on_tick(registry, now);
            let stopped = expired.session.on_stop(expired.registry);
            &&& session.state is Active ==> stopped.registry == registry.unregister(session.id)
            &&& stopped.session.state is Closed
        }),
        ({
            let closing = session.on_frame(registry, FrameModel::Close(reason), now);
            let late = closing.session.on_tick(closing.registry, now);
            &&& session.state is Active ==> late.registry == closing.registry && late.reaction
                == ReactionModel::Nothing
        }),
{
}

/// Membership follows the life cycle. A session that starts on a registry
/// that does not hold its id is in the registry exactly while it is active:
/// after its start, and no longer after its close, whichever way that came.
pub proof fn lemma_membership_follows_life_cycle(
    session: SessionModel,
    registry: RegistryModel,
    reason: Option<CloseReasonModel>,
    now: Nanos,
)
    requires
        session.state is Connecting,
        !registry.clients.contains(session.id),
    ensures
        ({
            let started = session.on_start(registry);
            let closing = started.session.on_frame(
                started.registry,
                FrameModel::Close(reason),
                now,
            );
            let stopped = started.session.on_stop(started.registry);
            &&& started.session.state is Active
            &&& started.registry.clients.contains(session.id)
            &&& started.registry.clients.remove(session.id) == registry.clients
            &&& !closing.registry.clients.contains(session.id)
            &&& closing.registry.clients == registry.clients
            &&& !stopped.registry.clients.contains(session.id)
            &&& stopped.registry.clients == registry.clients
        }),
{
    let started = session.on_start(registry);
    assert(started.registry.clients.remove(session.id) =~= registry.clients);
}

} // verus!
