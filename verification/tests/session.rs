use noplacelike::codec::{DecodeError, WsMessage};
use noplacelike::registry::ClipboardState;
use noplacelike::session::{
    ClientIds, CloseReason, Frame, Reaction, SessionState, WsClipboardSession, CLIENT_TIMEOUT,
    HEARTBEAT_INTERVAL,
};

const SECOND: u64 = 1_000_000_000;

fn active(ids: &mut ClientIds, registry: &mut ClipboardState, now: u64) -> WsClipboardSession {
    let mut session = WsClipboardSession::new(ids, now);
    session.started(registry);
    session
}

fn broadcast(reaction: Reaction) -> (Vec<usize>, String) {
    match reaction {
        Reaction::Broadcast { mut recipients, frame } => {
            recipients.sort();
            (recipients, frame)
        }
        other => panic!("no broadcast: {:?}", other),
    }
}

fn text(frame: &str) -> Frame {
    Frame::Text(String::from(frame))
}

#[test]
fn heartbeat_period_and_timeout_are_fifteen_and_thirty_seconds() {
    assert_eq!(HEARTBEAT_INTERVAL, 15 * SECOND);
    assert_eq!(CLIENT_TIMEOUT, 30 * SECOND);
}

#[test]
fn ids_start_at_one_and_rise() {
    let mut ids = ClientIds::new();
    assert_eq!(ids.allocate(), 1);
    assert_eq!(ids.allocate(), 2);
    assert_eq!(ids.allocate(), 3);
    let a = WsClipboardSession::new(&mut ids, 0);
    let b = WsClipboardSession::new(&mut ids, 0);
    assert_eq!(a.id(), 4);
    assert_eq!(b.id(), 5);
}

#[test]
fn new_session_is_connecting_and_unregistered() {
    let mut ids = ClientIds::new();
    let registry = ClipboardState::new(String::new());
    let session = WsClipboardSession::new(&mut ids, 42);
    assert_eq!(session.state(), SessionState::Connecting);
    assert_eq!(session.last_heartbeat(), 42);
    assert!(!registry.is_registered(session.id()));
}

#[test]
fn start_registers_and_greets_with_the_current_value() {
    let mut ids = ClientIds::new();
    let mut registry = ClipboardState::new(String::from("x"));
    let mut session = WsClipboardSession::new(&mut ids, 0);
    let reaction = session.started(&mut registry);
    assert_eq!(
        reaction,
        Reaction::Reply(String::from("{\"type\":\"Clipboard\",\"data\":\"x\"}"))
    );
    assert_eq!(session.state(), SessionState::Active);
    assert!(registry.is_registered(session.id()));
    assert_eq!(registry.client_count(), 1);
}

#[test]
fn second_start_does_nothing() {
    let mut ids = ClientIds::new();
    let mut registry = ClipboardState::new(String::from("x"));
    let mut session = active(&mut ids, &mut registry, 0);
    assert_eq!(session.started(&mut registry), Reaction::Nothing);
    assert_eq!(session.state(), SessionState::Active);
    assert_eq!(registry.client_count(), 1);
}

#[test]
fn frames_before_the_start_are_ignored() {
    let mut ids = ClientIds::new();
    let mut registry = ClipboardState::new(String::from("x"));
    let mut session = WsClipboardSession::new(&mut ids, 0);
    let frame = text("{\"type\":\"Clipboard\",\"data\":\"y\"}");
    assert_eq!(session.handle(&mut registry, frame, 5), Reaction::Nothing);
    assert_eq!(session.heartbeat(&mut registry, 100 * SECOND), Reaction::Nothing);
    assert_eq!(registry.get_current_content(), "x");
    assert_eq!(session.state(), SessionState::Connecting);
}

#[test]
fn clipboard_update_goes_to_every_other_session() {
    let mut ids = ClientIds::new();
    let mut registry = ClipboardState::new(String::new());
    let mut a = active(&mut ids, &mut registry, 0);
    let b = active(&mut ids, &mut registry, 0);
    let c = active(&mut ids, &mut registry, 0);
    let d = WsClipboardSession::new(&mut ids, 0);
    let reaction = a.handle(&mut registry, text("{\"type\":\"Clipboard\",\"data\":\"hello\"}"), 1);
    let (recipients, frame) = broadcast(reaction);
    assert_eq!(recipients, vec![b.id(), c.id()]);
    assert!(!recipients.contains(&a.id()));
    assert!(!recipients.contains(&d.id()));
    assert_eq!(frame, "{\"type\":\"Clipboard\",\"data\":\"hello\"}");
    assert_eq!(registry.get_current_content(), "hello");
    assert_eq!(a.state(), SessionState::Active);
}

#[test]
fn clipboard_update_skips_sessions_that_left() {
    let mut ids = ClientIds::new();
    let mut registry = ClipboardState::new(String::new());
    let mut a = active(&mut ids, &mut registry, 0);
    let mut b = active(&mut ids, &mut registry, 0);
    let c = active(&mut ids, &mut registry, 0);
    b.stopping(&mut registry);
    let message = Ok(WsMessage::Clipboard(String::from("v")));
    let (recipients, _) = broadcast(a.handle_message(&mut registry, message, 1));
    assert_eq!(recipients, vec![c.id()]);
}

#[test]
fn lone_session_broadcasts_to_nobody() {
    let mut ids = ClientIds::new();
    let mut registry = ClipboardState::new(String::new());
    let mut a = active(&mut ids, &mut registry, 0);
    let message = Ok(WsMessage::Clipboard(String::from("v")));
    let (recipients, frame) = broadcast(a.handle_message(&mut registry, message, 1));
    assert_eq!(recipients, Vec::<usize>::new());
    assert_eq!(frame, "{\"type\":\"Clipboard\",\"data\":\"v\"}");
    assert_eq!(registry.get_current_content(), "v");
}

#[test]
fn clipboard_update_does_not_count_as_sign_of_life() {
    let mut ids = ClientIds::new();
    let mut registry = ClipboardState::new(String::new());
    let mut a = active(&mut ids, &mut registry, 0);
    a.handle(&mut registry, text("{\"type\":\"Clipboard\",\"data\":\"v\"}"), 20 * SECOND);
    a.handle(&mut registry, text("{\"type\":\"Sync\"}"), 21 * SECOND);
    a.handle(&mut registry, text("nonsense"), 22 * SECOND);
    a.handle(&mut registry, Frame::Binary, 23 * SECOND);
    assert_eq!(a.last_heartbeat(), 0);
}

#[test]
fn sync_is_answered_to_the_requester_only() {
    let mut ids = ClientIds::new();
    let mut registry = ClipboardState::new(String::from("x"));
    let mut a = active(&mut ids, &mut registry, 0);
    let _b = active(&mut ids, &mut registry, 0);
    let reaction = a.handle(&mut registry, text("{\"type\":\"Sync\"}"), 1);
    assert_eq!(
        reaction,
        Reaction::Reply(String::from("{\"type\":\"Clipboard\",\"data\":\"x\"}"))
    );
    assert_eq!(registry.get_current_content(), "x");
    assert_eq!(registry.client_count(), 2);
}

#[test]
fn malformed_frame_gets_one_error_frame_and_the_session_goes_on() {
    let mut ids = ClientIds::new();
    let mut registry = ClipboardState::new(String::from("x"));
    let mut a = active(&mut ids, &mut registry, 0);
    let error = Reaction::Reply(String::from(
        "{\"type\":\"error\",\"data\":\"Invalid message format\"}",
    ));
    assert_eq!(a.handle(&mut registry, text("not json"), 1), error);
    assert_eq!(a.handle(&mut registry, text("{\"type\":\"Paste\"}"), 2), error);
    assert_eq!(a.handle(&mut registry, text("{\"type\":\"Clipboard\"}"), 3), error);
    assert_eq!(a.state(), SessionState::Active);
    assert!(registry.is_registered(a.id()));
    assert_eq!(registry.get_current_content(), "x");
    let reaction = a.handle(&mut registry, text("{\"type\":\"Sync\"}"), 4);
    assert_eq!(
        reaction,
        Reaction::Reply(String::from("{\"type\":\"Clipboard\",\"data\":\"x\"}"))
    );
}

#[test]
fn every_decode_error_gets_the_same_error_frame() {
    let mut ids = ClientIds::new();
    let mut registry = ClipboardState::new(String::new());
    let mut a = active(&mut ids, &mut registry, 0);
    let error = Reaction::Reply(String::from(
        "{\"type\":\"error\",\"data\":\"Invalid message format\"}",
    ));
    for failure in [DecodeError::NotJson, DecodeError::UnknownType, DecodeError::BadPayload] {
        assert_eq!(a.handle_message(&mut registry, Err(failure), 1), error);
    }
    assert_eq!(a.state(), SessionState::Active);
}

#[test]
fn binary_frame_gets_its_own_error_frame() {
    let mut ids = ClientIds::new();
    let mut registry = ClipboardState::new(String::new());
    let mut a = active(&mut ids, &mut registry, 0);
    assert_eq!(
        a.handle(&mut registry, Frame::Binary, 1),
        Reaction::Reply(String::from(
            "{\"type\":\"error\",\"data\":\"Binary messages not supported\"}"
        ))
    );
    assert_eq!(a.state(), SessionState::Active);
}

#[test]
fn ping_is_answered_with_its_payload() {
    let mut ids = ClientIds::new();
    let mut registry = ClipboardState::new(String::new());
    let mut a = active(&mut ids, &mut registry, 0);
    assert_eq!(
        a.handle(&mut registry, Frame::Ping(vec![1, 2, 3]), 7),
        Reaction::Pong(vec![1, 2, 3])
    );
    assert_eq!(a.last_heartbeat(), 7);
}

#[test]
fn signs_of_life_refresh_the_timestamp() {
    let mut ids = ClientIds::new();
    let mut registry = ClipboardState::new(String::new());
    let mut a = active(&mut ids, &mut registry, 0);
    assert_eq!(a.handle(&mut registry, Frame::Pong, 5), Reaction::Nothing);
    assert_eq!(a.last_heartbeat(), 5);
    assert_eq!(a.handle(&mut registry, text("{\"type\":\"Heartbeat\"}"), 6), Reaction::Nothing);
    assert_eq!(a.last_heartbeat(), 6);
    assert_eq!(a.handle(&mut registry, text("{\"type\":\"Connect\"}"), 8), Reaction::Nothing);
    assert_eq!(a.last_heartbeat(), 8);
    assert_eq!(a.handle(&mut registry, Frame::Ignored, 9), Reaction::Nothing);
    assert_eq!(a.last_heartbeat(), 8);
}

#[test]
fn tick_within_the_timeout_probes_the_peer() {
    let mut ids = ClientIds::new();
    let mut registry = ClipboardState::new(String::new());
    let mut a = active(&mut ids, &mut registry, 10 * SECOND);
    assert_eq!(a.heartbeat(&mut registry, 25 * SECOND), Reaction::Ping);
    assert_eq!(a.heartbeat(&mut registry, 40 * SECOND), Reaction::Ping);
    assert_eq!(a.state(), SessionState::Active);
    assert!(registry.is_registered(a.id()));
}

#[test]
fn session_that_answers_probes_is_never_closed() {
    let mut ids = ClientIds::new();
    let mut registry = ClipboardState::new(String::new());
    let mut a = active(&mut ids, &mut registry, 0);
    let mut now = 0;
    for _ in 0..20 {
        now += HEARTBEAT_INTERVAL;
        assert_eq!(a.heartbeat(&mut registry, now), Reaction::Ping);
        a.handle(&mut registry, Frame::Pong, now + SECOND);
    }
    assert_eq!(a.state(), SessionState::Active);
    assert!(registry.is_registered(a.id()));
}

#[test]
fn tick_after_the_timeout_closes_the_session() {
    let mut ids = ClientIds::new();
    let mut registry = ClipboardState::new(String::new());
    let mut a = active(&mut ids, &mut registry, 10 * SECOND);
    let b = active(&mut ids, &mut registry, 10 * SECOND);
    assert_eq!(a.heartbeat(&mut registry, 40 * SECOND + 1), Reaction::Stop);
    assert_eq!(a.state(), SessionState::Closing);
    assert!(!registry.is_registered(a.id()));
    assert!(registry.is_registered(b.id()));
    assert_eq!(registry.client_count(), 1);
}

#[test]
fn silent_session_is_unregistered_exactly_once() {
    let mut ids = ClientIds::new();
    let mut registry = ClipboardState::new(String::new());
    let mut a = active(&mut ids, &mut registry, 0);
    assert_eq!(a.heartbeat(&mut registry, 15 * SECOND), Reaction::Ping);
    assert_eq!(a.heartbeat(&mut registry, 30 * SECOND), Reaction::Ping);
    assert_eq!(a.heartbeat(&mut registry, 45 * SECOND), Reaction::Stop);
    assert_eq!(registry.client_count(), 0);
    registry.register_client(a.id());
    assert_eq!(a.heartbeat(&mut registry, 60 * SECOND), Reaction::Nothing);
    a.stopping(&mut registry);
    assert_eq!(a.state(), SessionState::Closed);
    assert!(registry.is_registered(a.id()));
}

#[test]
fn clock_that_steps_back_closes_nothing() {
    let mut ids = ClientIds::new();
    let mut registry = ClipboardState::new(String::new());
    let mut a = active(&mut ids, &mut registry, 50 * SECOND);
    assert_eq!(a.heartbeat(&mut registry, 0), Reaction::Ping);
    assert_eq!(a.state(), SessionState::Active);
}

#[test]
fn close_frame_is_echoed_and_unregisters() {
    let mut ids = ClientIds::new();
    let mut registry = ClipboardState::new(String::new());
    let mut a = active(&mut ids, &mut registry, 0);
    let reason = Some(CloseReason { code: 1000, description: Some(String::from("bye")) });
    assert_eq!(
        a.handle(&mut registry, Frame::Close(reason.clone()), 1),
        Reaction::Close(reason)
    );
    assert_eq!(a.state(), SessionState::Closing);
    assert!(!registry.is_registered(a.id()));
    assert_eq!(a.handle(&mut registry, Frame::Close(None), 2), Reaction::Nothing);
    assert_eq!(a.handle(&mut registry, text("{\"type\":\"Sync\"}"), 3), Reaction::Nothing);
}

#[test]
fn teardown_twice_unregisters_once() {
    let mut ids = ClientIds::new();
    let mut registry = ClipboardState::new(String::new());
    let mut a = active(&mut ids, &mut registry, 0);
    let b = active(&mut ids, &mut registry, 0);
    a.stopping(&mut registry);
    assert_eq!(a.state(), SessionState::Closed);
    assert_eq!(registry.client_count(), 1);
    registry.register_client(a.id());
    a.stopping(&mut registry);
    assert_eq!(a.state(), SessionState::Closed);
    assert!(registry.is_registered(a.id()));
    assert!(registry.is_registered(b.id()));
}

#[test]
fn timeout_racing_with_peer_close_unregisters_once() {
    let mut ids = ClientIds::new();
    let mut registry = ClipboardState::new(String::new());
    let mut a = active(&mut ids, &mut registry, 0);
    assert_eq!(a.heartbeat(&mut registry, 31 * SECOND), Reaction::Stop);
    assert_eq!(a.handle(&mut registry, Frame::Close(None), 31 * SECOND), Reaction::Nothing);
    a.stopping(&mut registry);
    a.stopping(&mut registry);
    assert_eq!(a.state(), SessionState::Closed);
    assert_eq!(registry.client_count(), 0);
}

#[test]
fn session_that_never_started_closes_without_touching_the_registry() {
    let mut ids = ClientIds::new();
    let mut registry = ClipboardState::new(String::new());
    let mut a = WsClipboardSession::new(&mut ids, 0);
    registry.register_client(a.id());
    a.stopping(&mut registry);
    assert_eq!(a.state(), SessionState::Closed);
    assert!(registry.is_registered(a.id()));
}
