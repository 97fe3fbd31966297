//! One session per connected peer: its life cycle, the liveness check, and
//! what it does with each frame the peer sends.
//!
//! A session never touches its connection. It is told what happened (a frame
//! arrived, the heartbeat timer fired, the connection is going away) together
//! with the current time, and answers with the one thing to do.

use crate::codec::{
    bare_error_frame, bare_error_text, binary_unsupported_frame, binary_unsupported_text, decode,
    decoded, encode, invalid_message_frame, invalid_message_text, wire_text, DecodeError,
    MessageModel, WsMessage,
};
use crate::registry::{ClientId, ClipboardState, RegistryModel};
use vstd::prelude::*;

pub mod laws;

verus! {

/// Nanoseconds on a clock that never runs backwards.
pub type Nanos = u64;

/// The period of the liveness check: 15 seconds.
pub const HEARTBEAT_INTERVAL: Nanos = 15_000_000_000;

/// How long a session may stay silent before it is closed: 30 seconds.
pub const CLIENT_TIMEOUT: Nanos = 30_000_000_000;

/// Where a session stands in its life.
#[derive(Debug, Clone, Copy, PartialEq, Eq, Structural)]
pub enum SessionState {
    /// Accepted, not yet registered.
    Connecting,
    /// Registered; frames and heartbeat ticks are acted on.
    Active,
    /// Unregistered; the connection has yet to be released.
    Closing,
    /// Gone.
    Closed,
}

/// Why a peer closes: the status code and the text that came with it.
#[derive(Debug, Clone, PartialEq, Eq)]
pub struct CloseReason {
    pub code: u16,
    pub description: Option<String>,
}

/// A close reason, as mathematics.
pub struct CloseReasonModel {
    pub code: u16,
    pub description: Option<Seq<char>>,
}

impl View for CloseReason {
    type V = CloseReasonModel;

    open spec fn view(&self) -> CloseReasonModel {
        CloseReasonModel {
            code: self.code,
            description: match self.description {
                Some(text) => Some(text@),
                None => None,
            },
        }
    }
}

/// The view of a close reason that may be missing.
pub open spec fn reason_view(reason: Option<CloseReason>) -> Option<CloseReasonModel> {
    match reason {
        Some(reason) => Some(reason@),
        None => None,
    }
}

/// What arrives on a connection.
#[derive(Debug, Clone, PartialEq, Eq)]
pub enum Frame {
    /// A liveness probe from the peer, with its payload.
    Ping(Vec<u8>),
    /// The peer's answer to a probe.
    Pong,
    /// A text frame.
    Text(String),
    /// A binary frame.
    Binary,
    /// The peer closes.
    Close(Option<CloseReason>),
    /// Anything else: a continuation, a no-op, a frame that broke the
    /// transport's rules.
    Ignored,
}

/// What arrives on a connection, as mathematics.
pub enum FrameModel {
    Ping(Seq<u8>),
    Pong,
    Text(Seq<char>),
    Binary,
    Close(Option<CloseReasonModel>),
    Ignored,
}

impl View for Frame {
    type V = FrameModel;

    open spec fn view(&self) -> FrameModel {
        match self {
            Frame::Ping(payload) => FrameModel::Ping(payload@),
            Frame::Pong => FrameModel::Pong,
            Frame::Text(text) => FrameModel::Text(text@),
            Frame::Binary => FrameModel::Binary,
            Frame::Close(reason) => FrameModel::Close(reason_view(*reason)),
            Frame::Ignored => FrameModel::Ignored,
        }
    }
}

/// The one thing to do after an event.
#[derive(Debug, Clone, PartialEq, Eq)]
pub enum Reaction {
    /// Nothing.
    Nothing,
    /// Send a liveness probe with an empty payload.
    Ping,
    /// Answer a probe with its payload.
    Pong(Vec<u8>),
    /// Send one text frame to this session's peer.
    Reply(String),
    /// Deliver one text frame to the peer of each session listed.
    Broadcast { recipients: Vec<ClientId>, frame: String },
    /// Echo the close to the peer and stop.
    Close(Option<CloseReason>),
    /// Stop without a word to the peer.
    Stop,
}

/// A reaction, as mathematics. Who receives a broadcast is a set: the order of
/// delivery means nothing.
pub enum ReactionModel {
    Nothing,
    Ping,
    Pong(Seq<u8>),
    Reply(Seq<char>),
    Broadcast { recipients: Set<ClientId>, frame: Seq<char> },
    Close(Option<CloseReasonModel>),
    Stop,
}

impl View for Reaction {
    type V = ReactionModel;

    open spec fn view(&self) -> ReactionModel {
        match self {
            Reaction::Nothing => ReactionModel::Nothing,
            Reaction::Ping => ReactionModel::Ping,
            Reaction::Pong(payload) => ReactionModel::Pong(payload@),
            Reaction::Reply(frame) => ReactionModel::Reply(frame@),
            Reaction::Broadcast { recipients, frame } => ReactionModel::Broadcast {
                recipients: recipients@.to_set(),
                frame: frame@,
            },
            Reaction::Close(reason) => ReactionModel::Close(reason_view(*reason)),
            Reaction::Stop => ReactionModel::Stop,
        }
    }
}

impl Reaction {
    /// No session is listed twice among the recipients of a broadcast.
    pub open spec fn delivers_once(&self) -> bool {
        match self {
            Reaction::Broadcast { recipients, frame } => recipients@.no_duplicates(),
            _ => true,
        }
    }
}

/// A session, as mathematics.
pub struct SessionModel {
    pub id: ClientId,
    pub last_heartbeat: Nanos,
    pub state: SessionState,
}

/// A session and the registry after an event, and what to do about it.
pub struct Outcome {
    pub session: SessionModel,
    pub registry: RegistryModel,
    pub reaction: ReactionModel,
}

/// The time from `earlier` to `now`; zero where `now` is not later.
pub open spec fn elapsed(earlier: Nanos, now: Nanos) -> int {
    if now >= earlier {
        now - earlier
    } else {
        0
    }
}

/// `frame` where there is one, `fallback` otherwise.
pub open spec fn frame_or(frame: Option<Seq<char>>, fallback: Seq<char>) -> Seq<char> {
    match frame {
        Some(text) => text,
        None => fallback,
    }
}

/// The clipboard frame for `content`; empty where it cannot be written.
pub open spec fn clipboard_frame_text(content: Seq<char>) -> Seq<char> {
    frame_or(wire_text(MessageModel::Clipboard(content)), Seq::empty())
}

/// What happens to a session between its start and its end: the heartbeat
/// timer fires, or a frame arrives, each at its time.
pub enum EventModel {
    Tick(Nanos),
    Frame(FrameModel, Nanos),
}

/// Whether `frame` is a sign of life: a probe, the answer to one, or a text
/// frame that carries a heartbeat or a connect message.
pub open spec fn is_sign_of_life(frame: FrameModel) -> bool {
    match frame {
        FrameModel::Ping(_) => true,
        FrameModel::Pong => true,
        FrameModel::Text(text) => decoded(text) == Ok::<MessageModel, DecodeError>(
            MessageModel::Heartbeat,
        ) || decoded(text) == Ok::<MessageModel, DecodeError>(MessageModel::Connect),
        _ => false,
    }
}

/// When the peer last gave a sign of life in the course of `events`; `start`
/// where it gave none.
pub open spec fn last_sign_of_life(start: Nanos, events: Seq<EventModel>) -> Nanos
    decreases events.len(),
{
    if events.len() == 0 {
        start
    } else {
        match events.last() {
            EventModel::Frame(frame, now) if is_sign_of_life(frame) => now,
            _ => last_sign_of_life(start, events.drop_last()),
        }
    }
}

/// Whether each tick among `events` comes no more than the timeout after the
/// sign of life before it, or after `start` where there was none yet.
pub open spec fn ticks_in_time(start: Nanos, events: Seq<EventModel>) -> bool {
    forall|i: int|
        0 <= i < events.len() ==> (#[trigger] events[i] matches EventModel::Tick(now) ==> elapsed(
            last_sign_of_life(start, events.take(i)),
            now,
        ) <= CLIENT_TIMEOUT)
}

/// Whether no close frame is among `events`.
pub open spec fn peer_stays(events: Seq<EventModel>) -> bool {
    forall|i: int|
        0 <= i < events.len() ==> !(#[trigger] events[i] matches EventModel::Frame(
            FrameModel::Close(_),
            _,
        ))
}

impl SessionModel {
    /// The session with its last sign of life at `now`.
    pub open spec fn refreshed(self, now: Nanos) -> SessionModel {
        SessionModel { last_heartbeat: now, ..self }
    }

    /// The session in state `state`.
    pub open spec fn moved_to(self, state: SessionState) -> SessionModel {
        SessionModel { state, ..self }
    }

    /// Nothing happens.
    pub open spec fn unmoved(self, registry: RegistryModel) -> Outcome {
        Outcome { session: self, registry, reaction: ReactionModel::Nothing }
    }

    /// The handshake is complete. A connecting session registers, becomes
    /// active and greets its peer with the current clipboard value.
    pub open spec fn on_start(self, registry: RegistryModel) -> Outcome {
        if self.state is Connecting {
            Outcome {
                session: self.moved_to(SessionState::Active),
                registry: registry.register(self.id),
                reaction: ReactionModel::Reply(
                    frame_or(
                        wire_text(MessageModel::Clipboard(registry.read())),
                        bare_error_text(),
                    ),
                ),
            }
        } else {
            self.unmoved(registry)
        }
    }

    /// The heartbeat timer fires at `now`. An active session that has been
    /// silent for more than the timeout leaves the registry and is told to
    /// stop; any other active session probes its peer.
    pub open spec fn on_tick(self, registry: RegistryModel, now: Nanos) -> Outcome {
        if !(self.state is Active) {
            self.unmoved(registry)
        } else if elapsed(self.last_heartbeat, now) > CLIENT_TIMEOUT {
            Outcome {
                session: self.moved_to(SessionState::Closing),
                registry: registry.unregister(self.id),
                reaction: ReactionModel::Stop,
            }
        } else {
            Outcome { session: self, registry, reaction: ReactionModel::Ping }
        }
    }

    /// A text frame arrived at `now` and `message` is what it decodes to.
    pub open spec fn on_message(
        self,
        registry: RegistryModel,
        message: Result<MessageModel, DecodeError>,
        now: Nanos,
    ) -> Outcome {
        if !(self.state is Active) {
            self.unmoved(registry)
        } else {
            match message {
                Ok(MessageModel::Connect) | Ok(MessageModel::Heartbeat) => self.refreshed(
                    now,
                ).unmoved(registry),
                Ok(MessageModel::Clipboard(content)) => Outcome {
                    session: self,
                    registry: registry.update(content),
                    reaction: ReactionModel::Broadcast {
                        recipients: registry.clients.remove(self.id),
                        frame: clipboard_frame_text(content),
                    },
                },
                Ok(MessageModel::Sync) => Outcome {
                    session: self,
                    registry,
                    reaction: ReactionModel::Reply(clipboard_frame_text(registry.read())),
                },
                Err(_) => Outcome {
                    session: self,
                    registry,
                    reaction: ReactionModel::Reply(invalid_message_text()),
                },
            }
        }
    }

    /// `frame` arrived at `now`.
    pub open spec fn on_frame(
        self,
        registry: RegistryModel,
        frame: FrameModel,
        now: Nanos,
    ) -> Outcome {
        if !(self.state is Active) {
            self.unmoved(registry)
        } else {
            match frame {
                FrameModel::Ping(payload) => Outcome {
                    session: self.refreshed(now),
                    registry,
                    reaction: ReactionModel::Pong(payload),
                },
                FrameModel::Pong => self.refreshed(now).unmoved(registry),
                FrameModel::Text(text) => self.on_message(registry, decoded(text), now),
                FrameModel::Binary => Outcome {
                    session: self,
                    registry,
                    reaction: ReactionModel::Reply(binary_unsupported_text()),
                },
                FrameModel::Close(reason) => Outcome {
                    session: self.moved_to(SessionState::Closing),
                    registry: registry.unregister(self.id),
                    reaction: ReactionModel::Close(reason),
                },
                FrameModel::Ignored => self.unmoved(registry),
            }
        }
    }

    /// One thing happens to the session.
    pub open spec fn on_event(self, registry: RegistryModel, event: EventModel) -> Outcome {
        match event {
            EventModel::Tick(now) => self.on_tick(registry, now),
            EventModel::Frame(frame, now) => self.on_frame(registry, frame, now),
        }
    }

    /// The events `events` happen to the session, first to last. The reaction
    /// is that to the last of them.
    pub open spec fn run(self, registry: RegistryModel, events: Seq<EventModel>) -> Outcome
        decreases events.len(),
    {
        if events.len() == 0 {
            self.unmoved(registry)
        } else {
            let before = self.run(registry, events.drop_last());
            before.session.on_event(before.registry, events.last())
        }
    }

    /// The connection is going away. A session that is still registered
    /// unregisters; whatever it was, it is closed now.
    pub open spec fn on_stop(self, registry: RegistryModel) -> Outcome {
        Outcome {
            session: self.moved_to(SessionState::Closed),
            registry: if self.state is Active {
                registry.unregister(self.id)
            } else {
                registry
            },
            reaction: ReactionModel::Nothing,
        }
    }
}

/// Whether a session, the registry and a reaction are what `outcome` says.
pub open spec fn achieves(
    session: SessionModel,
    registry: RegistryModel,
    reaction: Reaction,
    outcome: Outcome,
) -> bool {
    &&& session == outcome.session
    &&& registry == outcome.registry
    &&& reaction@ == outcome.reaction
    &&& reaction.delivers_once()
}

/// The source of session ids: each id is handed out once, in rising order.
pub struct ClientIds {
    next: ClientId,
}

impl ClientIds {
    /// The id that the next session gets.
    pub closed spec fn upcoming(&self) -> ClientId {
        self.next
    }

    /// A source whose first id is 1.
    pub fn new() -> (ids: Self)
        ensures
            ids.upcoming() == 1,
    {
        ClientIds { next: 1 }
    }

    /// Hands out the upcoming id and moves on to the next one. After the
    /// largest id the count starts again at 0.
    pub fn allocate(&mut self) -> (id: ClientId)
        ensures
            id == old(self).upcoming(),
            final(self).upcoming() == if id < usize::MAX {
                id + 1
            } else {
                0
            },
    {
        let id = self.next;
        self.next = id.wrapping_add(1);
        id
    }
}

/// The sessions of `snapshot` but `id`, in the order of `snapshot`.
fn others(snapshot: &Vec<ClientId>, id: ClientId) -> (rest: Vec<ClientId>)
    requires
        snapshot@.no_duplicates(),
    ensures
        rest@.to_set() == snapshot@.to_set().remove(id),
        rest@.no_duplicates(),
{
    let mut rest: Vec<ClientId> = Vec::new();
    let mut i: usize = 0;
    while i < snapshot.len()
        invariant
            i <= snapshot.len(),
            snapshot@.no_duplicates(),
            rest@.no_duplicates(),
            forall|k: int|
                0 <= k < rest@.len() ==> rest@[k] != id && exists|j: int|
                    0 <= j < i && snapshot@[j] == #[trigger] rest@[k],
            forall|j: int|
                0 <= j < i && snapshot@[j] != id ==> rest@.contains(#[trigger] snapshot@[j]),
        decreases snapshot.len() - i,
    {
        let candidate = snapshot[i];
        if candidate != id {
            let ghost before = rest@;
            rest.push(candidate);
            assert forall|j: int| 0 <= j <= i && snapshot@[j] != id implies rest@.contains(
                #[trigger] snapshot@[j],
            ) by {
                if j < i {
                    let k = choose|k: int| 0 <= k < before.len() && before[k] == snapshot@[j];
                    assert(rest@[k] == snapshot@[j]);
                } else {
                    assert(rest@[before.len() as int] == candidate);
                }
            }
        }
        i += 1;
    }
    assert(rest@.to_set() =~= snapshot@.to_set().remove(id)) by {
        assert forall|x: ClientId| rest@.to_set().contains(x) == snapshot@.to_set().remove(
            id,
        ).contains(x) by {
            if rest@.contains(x) {
                let k = choose|k: int| 0 <= k < rest@.len() && rest@[k] == x;
                let j = choose|j: int| 0 <= j < i && snapshot@[j] == rest@[k];
                assert(snapshot@.contains(x));
            }
            if snapshot@.contains(x) && x != id {
                let j = choose|j: int| 0 <= j < snapshot@.len() && snapshot@[j] == x;
                assert(rest@.contains(snapshot@[j]));
            }
        }
    }
    rest
}

/// The session of one connected peer.
pub struct WsClipboardSession {
    id: ClientId,
    last_heartbeat: Nanos,
    state: SessionState,
}

impl View for WsClipboardSession {
    type V = SessionModel;

    closed spec fn view(&self) -> SessionModel {
        SessionModel { id: self.id, last_heartbeat: self.last_heartbeat, state: self.state }
    }
}

impl WsClipboardSession {
    /// A session for a connection accepted at `now`. It takes the upcoming id
    /// of `ids` and is not registered yet.
    pub fn new(ids: &mut ClientIds, now: Nanos) -> (session: Self)
        ensures
            session@ == (SessionModel {
                id: old(ids).upcoming(),
                last_heartbeat: now,
                state: SessionState::Connecting,
            }),
            final(ids).upcoming() == if old(ids).upcoming() < usize::MAX {
                old(ids).upcoming() + 1
            } else {
                0
            },
    {
        WsClipboardSession {
            id: ids.allocate(),
            last_heartbeat: now,
            state: SessionState::Connecting,
        }
    }

    /// The session's id.
    pub fn id(&self) -> (id: ClientId)
        ensures
            id == self@.id,
    {
        self.id
    }

    /// Where the session stands in its life.
    pub fn state(&self) -> (state: SessionState)
        ensures
            state == self@.state,
    {
        self.state
    }

    /// When the peer last gave a sign of life.
    pub fn last_heartbeat(&self) -> (at: Nanos)
        ensures
            at == self@.last_heartbeat,
    {
        self.last_heartbeat
    }

    /// The handshake is complete: see [`SessionModel::on_start`].
    pub fn started(&mut self, registry: &mut ClipboardState) -> (reaction: Reaction)
        ensures
            achieves(
                final(self)@,
                final(registry)@,
                reaction,
                old(self)@.on_start(old(registry)@),
            ),
    {
        match self.state {
            SessionState::Connecting => {
                let current = registry.register_client(self.id);
                self.state = SessionState::Active;
                let greeting = match encode(&WsMessage::Clipboard(current)) {
                    Some(frame) => frame,
                    None => bare_error_frame(),
                };
                Reaction::Reply(greeting)
            },
            _ => Reaction::Nothing,
        }
    }

    /// The heartbeat timer fires at `now`: see [`SessionModel::on_tick`].
    pub fn heartbeat(&mut self, registry: &mut ClipboardState, now: Nanos) -> (reaction: Reaction)
        ensures
            achieves(
                final(self)@,
                final(registry)@,
                reaction,
                old(self)@.on_tick(old(registry)@, now),
            ),
    {
        match self.state {
            SessionState::Active => {
                let silent = if now >= self.last_heartbeat {
                    now - self.last_heartbeat
                } else {
                    0
                };
                if silent > CLIENT_TIMEOUT {
                    registry.unregister_client(self.id);
                    self.state = SessionState::Closing;
                    Reaction::Stop
                } else {
                    Reaction::Ping
                }
            },
            _ => Reaction::Nothing,
        }
    }

    /// A text frame arrived at `now` and `message` is what it decodes to: see
    /// [`SessionModel::on_message`].
    pub fn handle_message(
        &mut self,
        registry: &mut ClipboardState,
        message: Result<WsMessage, DecodeError>,
        now: Nanos,
    ) -> (reaction: Reaction)
        ensures
            achieves(
                final(self)@,
                final(registry)@,
                reaction,
                old(self)@.on_message(old(registry)@, message_view(message), now),
            ),
    {
        match self.state {
            SessionState::Active => match message {
                Ok(WsMessage::Connect) => {
                    self.last_heartbeat = now;
                    Reaction::Nothing
                },
                Ok(WsMessage::Heartbeat) => {
                    self.last_heartbeat = now;
                    Reaction::Nothing
                },
                Ok(WsMessage::Clipboard(content)) => {
                    let snapshot = registry.update_content(content.as_str());
                    let recipients = others(&snapshot, self.id);
                    let frame = clipboard_frame_or_empty(content);
                    Reaction::Broadcast { recipients, frame }
                },
                Ok(WsMessage::Sync) => {
                    let current = registry.get_current_content();
                    Reaction::Reply(clipboard_frame_or_empty(current))
                },
                Err(_) => Reaction::Reply(invalid_message_frame()),
            },
            _ => Reaction::Nothing,
        }
    }

    /// `frame` arrived at `now`: see [`SessionModel::on_frame`].
    pub fn handle(
        &mut self,
        registry: &mut ClipboardState,
        frame: Frame,
        now: Nanos,
    ) -> (reaction: Reaction)
        ensures
            achieves(
                final(self)@,
                final(registry)@,
                reaction,
                old(self)@.on_frame(old(registry)@, frame@, now),
            ),
    {
        match self.state {
            SessionState::Active => match frame {
                Frame::Ping(payload) => {
                    self.last_heartbeat = now;
                    Reaction::Pong(payload)
                },
                Frame::Pong => {
                    self.last_heartbeat = now;
                    Reaction::Nothing
                },
                Frame::Text(text) => {
                    let message = decode(text.as_str());
                    self.handle_message(registry, message, now)
                },
                Frame::Binary => Reaction::Reply(binary_unsupported_frame()),
                Frame::Close(reason) => {
                    registry.unregister_client(self.id);
                    self.state = SessionState::Closing;
                    Reaction::Close(reason)
                },
                Frame::Ignored => Reaction::Nothing,
            },
            _ => Reaction::Nothing,
        }
    }

    /// The connection is going away: see [`SessionModel::on_stop`].
    pub fn stopping(&mut self, registry: &mut ClipboardState)
        ensures
            final(self)@ == old(self)@.on_stop(old(registry)@).session,
            final(registry)@ == old(self)@.on_stop(old(registry)@).registry,
    {
        match self.state {
            SessionState::Active => {
                registry.unregister_client(self.id);
            },
            _ => {},
        }
        self.state = SessionState::Closed;
    }
}

/// The view of what a text frame decoded to.
pub open spec fn message_view(message: Result<WsMessage, DecodeError>) -> Result<
    MessageModel,
    DecodeError,
> {
    match message {
        Ok(message) => Ok(message@),
        Err(error) => Err(error),
    }
}

/// The clipboard frame for `content`; empty where it cannot be written.
fn clipboard_frame_or_empty(content: String) -> (frame: String)
    ensures
        frame@ == clipboard_frame_text(content@),
{
    match encode(&WsMessage::Clipboard(content)) {
        Some(frame) => frame,
        None => String::new(),
    }
}

} // verus!
