//! Per-connection handling of client requests: room creation, joining and
//! leaving, and the relaying of signaling messages.
use vstd::prelude::*;

use crate::api::{strings_view, ClientToServer, ErrorCode, RelayIce, RelaySdp, ServerEvent, ServerToClient};
use crate::core_api::{join_answer_view, leave_answer_view, CoreApi};
use crate::rate_limit::{check_spec, fresh_state, SlidingWindow, TimeSpan, Timestamp};
use crate::ids::{uuid_parse, uuid_text, ParticipantId, RoomId};
use crate::room::{ids_view, CreateRoomResult, JoinRoomError};
use crate::signaling::{answer_event, ice_event, offer_event};
use crate::sinks::{BroadcastSink, OutSink};

verus! {

/// Answer to the WebSocket handshake.
#[derive(Debug, PartialEq, Eq, Structural)]
pub struct HandshakeResponse {
    pub status: u16,
}

/// Requests that the handler cannot serve: the connection must be dropped.
#[derive(Debug, Clone, Copy, PartialEq, Eq, Structural)]
pub enum HandlerFault {
    /// A `JoinRoom` whose room id is not a UUID.
    InvalidRoomId,
    /// A `LeaveRoom` or a signaling message before any room was created or
    /// joined.
    NotInRoom,
    /// The core knows no such room.
    RoomNotFound,
    /// A signaling message whose recipient is not a UUID.
    InvalidParticipantId,
}

/// What a connection shows of itself: its room, what it sent to its own
/// client, and what it sent to participants.
#[verifier::ext_equal]
pub struct HandlerView {
    pub room: Option<u128>,
    pub outbox: Seq<ServerEvent>,
    pub broadcasts: Seq<(u128, ServerEvent)>,
}

/// How many signaling messages a connection may send per window.
pub const SIGNALING_LIMIT: u32 = 20;

/// The window of the signaling limit, in milliseconds.
pub const SIGNALING_WINDOW_MILLIS: u64 = 1000;

/// The message sent back with a signaling message that was dropped.
pub open spec fn rate_limited_text() -> Seq<char> {
    "rate limit exceeded"@
}

/// What the connection shows of its client's messages: the sink's own
/// record where the sink keeps one, else the account the handler keeps of
/// what it handed over.
pub open spec fn shown_outbox<S: OutSink>(sink: S, handed: Seq<ServerEvent>) -> Seq<ServerEvent> {
    if S::keeps_record() {
        sink.sent_events()
    } else {
        handed
    }
}

/// What the connection shows of its messages to participants: the sink's
/// own record where it keeps one, else the handler's account.
pub open spec fn shown_broadcasts<B: BroadcastSink>(
    broadcast: B,
    handed: Seq<(u128, ServerEvent)>,
) -> Seq<(u128, ServerEvent)> {
    if B::keeps_record() {
        broadcast.delivered_events()
    } else {
        handed
    }
}

/// The error event with a code and a message.
pub open spec fn error_event(code: ErrorCode, message: Seq<char>) -> ServerEvent {
    ServerEvent::Error { code, message }
}

/// The texts of participant ids.
pub open spec fn texts(ps: Seq<u128>) -> Seq<Seq<char>> {
    ps.map_values(|p: u128| uuid_text(p))
}

/// One delivery of `ev` to each of `ps`, in order.
pub open spec fn to_each(ps: Seq<u128>, ev: ServerEvent) -> Seq<(u128, ServerEvent)> {
    ps.map_values(|p: u128| (p, ev))
}

/// The participant list event of a room.
pub open spec fn participants_event(room_text: Seq<char>, ps: Seq<u128>) -> ServerEvent {
    ServerEvent::RoomParticipants { room_id: room_text, participants: texts(ps) }
}

/// After `CreateRoom`, given the room and owner that the core created.
pub open spec fn create_outcome(pre: HandlerView, room: u128, owner: u128) -> (
    HandlerView,
    Result<(), HandlerFault>,
) {
    (
        HandlerView {
            room: Some(room),
            outbox: pre.outbox.push(
                ServerEvent::RoomCreated { room_id: uuid_text(room), self_id: uuid_text(owner) },
            ),
            broadcasts: pre.broadcasts,
        },
        Ok(()),
    )
}

/// After `JoinRoom` for the room written `text`, given the core's answer:
/// every participant receives the new list, or the client hears that the
/// room is full.
pub open spec fn join_outcome(
    pre: HandlerView,
    text: Seq<char>,
    room: u128,
    answer: Option<Result<Seq<u128>, JoinRoomError>>,
) -> (HandlerView, Result<(), HandlerFault>) {
    match answer {
        Some(Ok(ps)) => (
            HandlerView {
                room: Some(room),
                outbox: pre.outbox,
                broadcasts: pre.broadcasts + to_each(ps, participants_event(text, ps)),
            },
            Ok(()),
        ),
        Some(Err(JoinRoomError::RoomFull)) => (
            HandlerView {
                room: Some(room),
                outbox: pre.outbox.push(error_event(ErrorCode::RoomFull, "room is full"@)),
                broadcasts: pre.broadcasts,
            },
            Ok(()),
        ),
        None => (
            HandlerView { room: Some(room), outbox: pre.outbox, broadcasts: pre.broadcasts },
            Err(HandlerFault::RoomNotFound),
        ),
    }
}

/// After `LeaveRoom` from `room` by `me`, given the core's answer: the
/// remaining participants hear that `me` left, then the new list.
pub open spec fn leave_outcome(pre: HandlerView, me: u128, room: u128, answer: Option<Seq<u128>>) -> (
    HandlerView,
    Result<(), HandlerFault>,
) {
    match answer {
        Some(rest) => (
            HandlerView {
                room: None,
                outbox: pre.outbox,
                broadcasts: pre.broadcasts + to_each(
                    rest,
                    ServerEvent::PeerDisconnected { participant_id: uuid_text(me) },
                ) + to_each(rest, participants_event(uuid_text(room), rest)),
            },
            Ok(()),
        ),
        None => (pre, Err(HandlerFault::RoomNotFound)),
    }
}

/// After a signaling message to `to`, given the core's answer: the
/// recipient gets `ev`, or the client gets the error with `failure`.
pub open spec fn relay_outcome(
    pre: HandlerView,
    to: u128,
    answer: Result<(), ErrorCode>,
    ev: ServerEvent,
    failure: Seq<char>,
) -> HandlerView {
    match answer {
        Ok(()) => HandlerView {
            room: pre.room,
            outbox: pre.outbox,
            broadcasts: pre.broadcasts.push((to, ev)),
        },
        Err(code) => HandlerView {
            room: pre.room,
            outbox: pre.outbox.push(error_event(code, failure)),
            broadcasts: pre.broadcasts,
        },
    }
}

/// After an abnormal close of `me` in `room`, given the core's answer to the
/// leave: the connected participants `notified` hear that `me` left, then
/// the new list; the connection forgets its room either way.
pub open spec fn abnormal_close_outcome(
    pre: HandlerView,
    me: u128,
    room: u128,
    notified: Seq<u128>,
    answer: Option<Seq<u128>>,
) -> HandlerView {
    match answer {
        Some(rest) => HandlerView {
            room: None,
            outbox: pre.outbox,
            broadcasts: pre.broadcasts + to_each(
                notified,
                ServerEvent::PeerDisconnected { participant_id: uuid_text(me) },
            ) + to_each(notified, participants_event(uuid_text(room), rest)),
        },
        None => HandlerView { room: None, outbox: pre.outbox, broadcasts: pre.broadcasts },
    }
}

/// The core went from `before` to `after` creating a room for `me`, and the
/// connection from `pre` to `post` by announcing the room and owner that
/// the core answered.
pub open spec fn create_reached<C: CoreApi>(
    before: C,
    after: C,
    me: u128,
    pre: HandlerView,
    post: HandlerView,
    r: Result<(), HandlerFault>,
) -> bool {
    exists|res: CreateRoomResult|
        #[trigger] C::create_step(before, after, me, res) && create_outcome(
            pre,
            res.room_id@,
            res.self_id@,
        ) == (post, r)
}

/// The core went from `before` to `after` adding `me` to `room`, and the
/// connection from `pre` to `post` as `join_outcome` has it for the core's
/// answer.
pub open spec fn join_reached<C: CoreApi>(
    before: C,
    after: C,
    me: u128,
    pre: HandlerView,
    text: Seq<char>,
    room: u128,
    post: HandlerView,
    r: Result<(), HandlerFault>,
) -> bool {
    exists|answer: Option<Result<Seq<u128>, JoinRoomError>>|
        #[trigger] C::join_step(before, after, room, me, answer) && join_outcome(
            pre,
            text,
            room,
            answer,
        ) == (post, r)
}

/// The core went from `before` to `after` removing `me` from `room`, and
/// the connection from `pre` to `post` as `leave_outcome` has it for the
/// core's answer.
pub open spec fn leave_reached<C: CoreApi>(
    before: C,
    after: C,
    me: u128,
    room: u128,
    pre: HandlerView,
    post: HandlerView,
    r: Result<(), HandlerFault>,
) -> bool {
    exists|answer: Option<Seq<u128>>|
        #[trigger] C::leave_step(before, after, room, me, answer) && leave_outcome(
            pre,
            me,
            room,
            answer,
        ) == (post, r)
}

/// The core went from `before` to `after` removing `me` from `room`, and
/// the connection from `pre` to `post` as `abnormal_close_outcome` has it
/// for the core's answer.
pub open spec fn abnormal_close_reached<C: CoreApi>(
    before: C,
    after: C,
    me: u128,
    room: u128,
    notified: Seq<u128>,
    pre: HandlerView,
    post: HandlerView,
) -> bool {
    exists|answer: Option<Seq<u128>>|
        #[trigger] C::leave_step(before, after, room, me, answer) && abnormal_close_outcome(
            pre,
            me,
            room,
            notified,
            answer,
        ) == post
}

/// The texts of a list of participant ids.
fn id_texts(list: &[ParticipantId]) -> (r: Vec<String>)
    ensures
        strings_view(r@) == texts(ids_view(list@)),
{
    let mut out: Vec<String> = Vec::new();
    let mut i: usize = 0;
    while i < list.len()
        invariant
            i <= list@.len(),
            strings_view(out@) == texts(ids_view(list@.take(i as int))),
        decreases list@.len() - i,
    {
        let s = list[i].to_string();
        let ghost before = out@;
        out.push(s);
        assert(strings_view(out@) =~= strings_view(before).push(uuid_text(list@[i as int]@)));
        assert(texts(ids_view(list@.take(i as int + 1))) =~= texts(ids_view(list@.take(i as int))).push(
            uuid_text(list@[i as int]@),
        ));
        i = i + 1;
    }
    assert(list@.take(list@.len() as int) =~= list@);
    out
}

/// Handler of one WebSocket connection.
pub struct WsHandler<C, S, B> {
    core: C,
    participant_id: ParticipantId,
    /// The room of the connection, set by `CreateRoom` and `JoinRoom`.
    room_id: Option<RoomId>,
    sink: S,
    broadcast: B,
    /// The count of the connection's signaling messages.
    limiter: SlidingWindow,
    /// Everything handed to `sink`, in order.
    sent_log: Ghost<Seq<ServerEvent>>,
    /// Everything handed to `broadcast`, with its recipient, in order.
    broadcast_log: Ghost<Seq<(u128, ServerEvent)>>,
}

impl<C, S: OutSink, B: BroadcastSink> WsHandler<C, S, B> {
    /// The core the connection uses.
    pub closed spec fn core_state(&self) -> C {
        self.core
    }

    /// The participant of the connection.
    pub closed spec fn me(&self) -> ParticipantId {
        self.participant_id
    }

    /// The sink of the connection's own client.
    pub closed spec fn sink_state(&self) -> S {
        self.sink
    }

    /// The sink of messages to participants.
    pub closed spec fn broadcast_state(&self) -> B {
        self.broadcast
    }

    /// The count of the connection's signaling messages.
    pub closed spec fn limiter(&self) -> SlidingWindow {
        self.limiter
    }

    /// What the connection shows of itself: its room, and what its sinks
    /// record (or, for a sink without a record, what was handed to it).
    pub closed spec fn state(&self) -> HandlerView {
        HandlerView {
            room: match self.room_id {
                Some(r) => Some(r@),
                None => None,
            },
            outbox: shown_outbox(self.sink, self.sent_log@),
            broadcasts: shown_broadcasts(self.broadcast, self.broadcast_log@),
        }
    }

    /// The core the connection uses.
    pub fn core_service(&self) -> (r: &C)
        ensures
            *r == self.core_state(),
    {
        &self.core
    }

    /// The participant of the connection.
    pub fn participant_id(&self) -> (r: ParticipantId)
        ensures
            r == self.me(),
    {
        self.participant_id
    }

    /// The room of the connection, if any.
    pub fn room_id(&self) -> (r: Option<RoomId>)
        ensures
            match r {
                Some(id) => self.state().room == Some(id@),
                None => self.state().room is None,
            },
    {
        self.room_id
    }

    /// The sink of the connection's own client.
    pub fn sink(&self) -> (r: &S)
        ensures
            *r == self.sink_state(),
    {
        &self.sink
    }

    /// The sink of messages to participants.
    pub fn broadcast(&self) -> (r: &B)
        ensures
            *r == self.broadcast_state(),
    {
        &self.broadcast
    }

    /// The state shows the records of the sinks that keep one.
    pub proof fn lemma_state_shows_records(&self)
        ensures
            S::keeps_record() ==> self.state().outbox == self.sink_state().sent_events(),
            B::keeps_record() ==> self.state().broadcasts == self.broadcast_state().delivered_events(),
    {
    }

    /// A handler for a connection that is in no room yet and has sent no
    /// signaling message.
    pub fn new(core: C, participant_id: ParticipantId, sink: S, broadcast: B) -> (r: Self)
        ensures
            r.core_state() == core,
            r.me() == participant_id,
            r.state() == (HandlerView {
                room: None,
                outbox: shown_outbox(sink, Seq::empty()),
                broadcasts: shown_broadcasts(broadcast, Seq::empty()),
            }),
            r.sink_state() == sink,
            r.broadcast_state() == broadcast,
            r.limiter()@ == fresh_state(),
            r.limiter().limit() == SIGNALING_LIMIT,
            r.limiter().window() == SIGNALING_WINDOW_MILLIS * 1_000_000,
    {
        WsHandler {
            core,
            participant_id,
            room_id: None,
            sink,
            broadcast,
            limiter: SlidingWindow::new(
                SIGNALING_LIMIT,
                TimeSpan::from_millis(SIGNALING_WINDOW_MILLIS),
            ),
            sent_log: Ghost(Seq::empty()),
            broadcast_log: Ghost(Seq::empty()),
        }
    }
}

impl<C: CoreApi, S: OutSink, B: BroadcastSink> WsHandler<C, S, B> {
    /// Sets the connection's room without telling anyone or asking the core,
    /// as the server does when it drops a connection that sent a frame that
    /// is not served.
    pub fn set_room(&mut self, room: Option<RoomId>)
        ensures
            final(self).state() == (HandlerView {
                room: match room {
                    Some(r) => Some(r@),
                    None => None,
                },
                ..old(self).state()
            }),
            final(self).me() == old(self).me(),
            final(self).core_state() == old(self).core_state(),
            final(self).sink_state() == old(self).sink_state(),
            final(self).broadcast_state() == old(self).broadcast_state(),
            final(self).limiter() == old(self).limiter(),
    {
        self.room_id = room;
    }

    /// Hands `message` to the connection's own client.
    fn emit(&mut self, message: ServerToClient)
        ensures
            final(self).state() == (HandlerView {
                outbox: old(self).state().outbox.push(message@),
                ..old(self).state()
            }),
            final(self).me() == old(self).me(),
            final(self).core_state() == old(self).core_state(),
            final(self).limiter() == old(self).limiter(),
    {
        let ghost ev = message@;
        self.sink.send(message);
        proof {
            self.sent_log@ = self.sent_log@.push(ev);
        }
    }

    /// Hands `message` for `to` to the broadcast sink.
    fn deliver(&mut self, to: &ParticipantId, message: ServerToClient)
        ensures
            final(self).state() == (HandlerView {
                broadcasts: old(self).state().broadcasts.push((to@, message@)),
                ..old(self).state()
            }),
            final(self).me() == old(self).me(),
            final(self).core_state() == old(self).core_state(),
            final(self).limiter() == old(self).limiter(),
    {
        let ghost ev = message@;
        self.broadcast.send_to(to, message);
        proof {
            self.broadcast_log@ = self.broadcast_log@.push((to@, ev));
        }
    }

    fn send_each(&mut self, list: &[ParticipantId], event: &ServerToClient)
        ensures
            final(self).state() == (HandlerView {
                broadcasts: old(self).state().broadcasts + to_each(ids_view(list@), event@),
                ..old(self).state()
            }),
            final(self).me() == old(self).me(),
            final(self).core_state() == old(self).core_state(),
            final(self).limiter() == old(self).limiter(),
    {
        let mut i: usize = 0;
        while i < list.len()
            invariant
                i <= list@.len(),
                self.state() == (HandlerView {
                    broadcasts: old(self).state().broadcasts + to_each(
                        ids_view(list@.take(i as int)),
                        event@,
                    ),
                    ..old(self).state()
                }),
                self.me() == old(self).me(),
                self.core_state() == old(self).core_state(),
                self.limiter() == old(self).limiter(),
            decreases list@.len() - i,
        {
            self.deliver(&list[i], event.clone());
            assert(to_each(ids_view(list@.take(i as int + 1)), event@) =~= to_each(
                ids_view(list@.take(i as int)),
                event@,
            ).push((list@[i as int]@, event@)));
            i = i + 1;
        }
        assert(list@.take(list@.len() as int) =~= list@);
    }

    /// Completes the WebSocket handshake (HTTP 101 Switching Protocols).
    pub fn perform_handshake(&mut self) -> (r: HandshakeResponse)
        ensures
            r.status == 101,
            *final(self) == *old(self),
    {
        HandshakeResponse { status: 101 }
    }

    fn send_error(&mut self, code: ErrorCode, message: &str)
        ensures
            final(self).state() == (HandlerView {
                outbox: old(self).state().outbox.push(error_event(code, message@)),
                ..old(self).state()
            }),
            final(self).me() == old(self).me(),
            final(self).core_state() == old(self).core_state(),
            final(self).limiter() == old(self).limiter(),
    {
        let text = message.to_string();
        self.emit(ServerToClient::Error { code, message: text });
    }

    /// Handles one request from the client, received at `now`; `None`
    /// stands for a text that is not a valid request, which is answered with
    /// `InvalidPayload`. A signaling message past the connection's limit is
    /// answered with `RateLimited` and dropped. Requests that cannot be
    /// served give a `HandlerFault`.
    pub fn handle_client_message(&mut self, message: Option<ClientToServer>, now: Timestamp) -> (r:
        Result<(), HandlerFault>)
        ensures
            final(self).me() == old(self).me(),
            final(self).limiter().limit() == old(self).limiter().limit(),
            final(self).limiter().window() == old(self).limiter().window(),
            match message {
                None => final(self).core_state() == old(self).core_state() && final(self).limiter()
                    == old(self).limiter() && final(self).state() == (HandlerView {
                    outbox: old(self).state().outbox.push(
                        error_event(ErrorCode::InvalidPayload, "invalid payload"@),
                    ),
                    ..old(self).state()
                }) && r is Ok,
                Some(ClientToServer::CreateRoom) => final(self).limiter() == old(self).limiter()
                    && create_reached(
                    old(self).core_state(),
                    final(self).core_state(),
                    old(self).me()@,
                    old(self).state(),
                    final(self).state(),
                    r,
                ),
                Some(ClientToServer::JoinRoom { room_id }) => final(self).limiter() == old(
                    self,
                ).limiter() && match uuid_parse(room_id@) {
                    None => final(self).core_state() == old(self).core_state() && final(self).state()
                        == old(self).state() && r == Err::<(), HandlerFault>(
                        HandlerFault::InvalidRoomId,
                    ),
                    Some(room) => join_reached(
                        old(self).core_state(),
                        final(self).core_state(),
                        old(self).me()@,
                        old(self).state(),
                        room_id@,
                        room,
                        final(self).state(),
                        r,
                    ),
                },
                Some(ClientToServer::LeaveRoom) => final(self).limiter() == old(self).limiter()
                    && match old(self).state().room {
                    None => final(self).core_state() == old(self).core_state() && final(self).state()
                        == old(self).state() && r == Err::<(), HandlerFault>(
                        HandlerFault::NotInRoom,
                    ),
                    Some(room) => leave_reached(
                        old(self).core_state(),
                        final(self).core_state(),
                        old(self).me()@,
                        room,
                        old(self).state(),
                        final(self).state(),
                        r,
                    ),
                },
                Some(ClientToServer::Offer { to, payload }) => signal_handled(
                    old(self).core_state(),
                    final(self).core_state(),
                    old(self).me()@,
                    old(self).limiter(),
                    final(self).limiter(),
                    now@,
                    old(self).state(),
                    final(self).state(),
                    r,
                    to@,
                    Signal::Offer(payload),
                ),
                Some(ClientToServer::Answer { to, payload }) => signal_handled(
                    old(self).core_state(),
                    final(self).core_state(),
                    old(self).me()@,
                    old(self).limiter(),
                    final(self).limiter(),
                    now@,
                    old(self).state(),
                    final(self).state(),
                    r,
                    to@,
                    Signal::Answer(payload),
                ),
                Some(ClientToServer::IceCandidate { to, payload }) => signal_handled(
                    old(self).core_state(),
                    final(self).core_state(),
                    old(self).me()@,
                    old(self).limiter(),
                    final(self).limiter(),
                    now@,
                    old(self).state(),
                    final(self).state(),
                    r,
                    to@,
                    Signal::Ice(payload),
                ),
            },
    {
        let message = match message {
            None => {
                self.send_error(ErrorCode::InvalidPayload, "invalid payload");
                return Ok(());
            },
            Some(m) => m,
        };
        match message {
            ClientToServer::CreateRoom => {
                let result = self.core.create_room(self.participant_id);
                let ghost answered = result;
                let ghost stepped = self.core;
                self.room_id = Some(result.room_id);
                let response = ServerToClient::RoomCreated {
                    room_id: result.room_id.to_string(),
                    self_id: result.self_id.to_string(),
                };
                self.emit(response);
                assert(C::create_step(old(self).core_state(), self.core_state(), old(self).me()@, answered));
                assert(create_outcome(old(self).state(), result.room_id@, result.self_id@) == (
                self.state(), Ok::<(), HandlerFault>(())));
                Ok(())
            },
            ClientToServer::JoinRoom { room_id } => self.handle_join(room_id),
            ClientToServer::LeaveRoom => self.handle_leave(),
            ClientToServer::Offer { to, payload } => self.handle_limited(to, Signal::Offer(payload), now),
            ClientToServer::Answer { to, payload } => self.handle_limited(to, Signal::Answer(payload), now),
            ClientToServer::IceCandidate { to, payload } => self.handle_limited(
                to,
                Signal::Ice(payload),
                now,
            ),
        }
    }

    /// Counts a signaling message at `now`; relays it within the limit, and
    /// answers `RateLimited` and drops it past the limit.
    fn handle_limited(&mut self, to: String, signal: Signal, now: Timestamp) -> (r: Result<(), HandlerFault>)
        ensures
            final(self).me() == old(self).me(),
            final(self).limiter().limit() == old(self).limiter().limit(),
            final(self).limiter().window() == old(self).limiter().window(),
            signal_handled(
                old(self).core_state(),
                final(self).core_state(),
                old(self).me()@,
                old(self).limiter(),
                final(self).limiter(),
                now@,
                old(self).state(),
                final(self).state(),
                r,
                to@,
                signal,
            ),
    {
        let decision = self.limiter.check_at(now);
        if !decision.allowed {
            self.send_error(ErrorCode::RateLimited, "rate limit exceeded");
            return Ok(());
        }
        self.handle_signaling(to, signal)
    }

    fn handle_join(&mut self, room_text: String) -> (r: Result<(), HandlerFault>)
        ensures
            final(self).me() == old(self).me(),
            final(self).limiter() == old(self).limiter(),
            match uuid_parse(room_text@) {
                None => final(self).core_state() == old(self).core_state() && final(self).state()
                    == old(self).state() && r == Err::<(), HandlerFault>(HandlerFault::InvalidRoomId),
                Some(room) => join_reached(
                    old(self).core_state(),
                    final(self).core_state(),
                    old(self).me()@,
                    old(self).state(),
                    room_text@,
                    room,
                    final(self).state(),
                    r,
                ),
            },
    {
        let room_id = match RoomId::parse_str(room_text.as_str()) {
            Ok(id) => id,
            Err(_) => {
                return Err(HandlerFault::InvalidRoomId);
            },
        };
        self.room_id = Some(room_id);
        let answer = self.core.join_room(&room_id, self.participant_id);
        let ghost answered = join_answer_view(answer);
        assert(C::join_step(old(self).core_state(), self.core_state(), room_id@, old(self).me()@, answered));
        match answer {
            Some(Ok(participants)) => {
                let names = id_texts(participants.as_slice());
                let event = ServerToClient::RoomParticipants {
                    room_id: room_text,
                    participants: names,
                };
                self.send_each(participants.as_slice(), &event);
                assert(join_outcome(
                    old(self).state(),
                    room_text@,
                    room_id@,
                    Some(Ok(ids_view(participants@))),
                ) == (self.state(), Ok::<(), HandlerFault>(())));
                Ok(())
            },
            Some(Err(JoinRoomError::RoomFull)) => {
                self.send_error(ErrorCode::RoomFull, "room is full");
                assert(join_outcome(
                    old(self).state(),
                    room_text@,
                    room_id@,
                    Some(Err(JoinRoomError::RoomFull)),
                ) == (self.state(), Ok::<(), HandlerFault>(())));
                Ok(())
            },
            None => {
                assert(join_outcome(old(self).state(), room_text@, room_id@, None) == (
                self.state(), Err::<(), HandlerFault>(HandlerFault::RoomNotFound)));
                Err(HandlerFault::RoomNotFound)
            },
        }
    }

    fn handle_leave(&mut self) -> (r: Result<(), HandlerFault>)
        ensures
            final(self).me() == old(self).me(),
            final(self).limiter() == old(self).limiter(),
            match old(self).state().room {
                None => final(self).core_state() == old(self).core_state() && final(self).state()
                    == old(self).state() && r == Err::<(), HandlerFault>(HandlerFault::NotInRoom),
                Some(room) => leave_reached(
                    old(self).core_state(),
                    final(self).core_state(),
                    old(self).me()@,
                    room,
                    old(self).state(),
                    final(self).state(),
                    r,
                ),
            },
    {
        let room_id = match self.room_id {
            Some(id) => id,
            None => {
                return Err(HandlerFault::NotInRoom);
            },
        };
        let answer = self.core.leave_room(&room_id, &self.participant_id);
        let ghost answered = leave_answer_view(answer);
        assert(C::leave_step(old(self).core_state(), self.core_state(), room_id@, old(self).me()@, answered));
        match answer {
            Some(remaining) => {
                let names = id_texts(remaining.as_slice());
                let disconnect_evt = ServerToClient::PeerDisconnected {
                    participant_id: self.participant_id.to_string(),
                };
                self.send_each(remaining.as_slice(), &disconnect_evt);
                let participants_evt = ServerToClient::RoomParticipants {
                    room_id: room_id.to_string(),
                    participants: names,
                };
                self.send_each(remaining.as_slice(), &participants_evt);
                self.room_id = None;
                assert(leave_outcome(
                    old(self).state(),
                    self.participant_id@,
                    room_id@,
                    Some(ids_view(remaining@)),
                ) == (self.state(), Ok::<(), HandlerFault>(())));
                Ok(())
            },
            None => {
                assert(leave_outcome(old(self).state(), self.participant_id@, room_id@, None) == (
                self.state(), Err::<(), HandlerFault>(HandlerFault::RoomNotFound)));
                Err(HandlerFault::RoomNotFound)
            },
        }
    }

    fn handle_signaling(&mut self, to: String, signal: Signal) -> (r: Result<(), HandlerFault>)
        ensures
            final(self).me() == old(self).me(),
            final(self).limiter() == old(self).limiter(),
            signal_contract(
                old(self).core_state(),
                final(self).core_state(),
                old(self).me()@,
                old(self).state(),
                final(self).state(),
                r,
                to@,
                signal,
            ),
    {
        let room_id = match self.room_id {
            Some(id) => id,
            None => {
                return Err(HandlerFault::NotInRoom);
            },
        };
        let to_id = match ParticipantId::parse_str(to.as_str()) {
            Ok(id) => id,
            Err(_) => {
                return Err(HandlerFault::InvalidParticipantId);
            },
        };
        let ghost ev = signal.event(self.participant_id@);
        let ghost sig = signal;
        let answer = match &signal {
            Signal::Offer(p) => self.core.relay_offer(
                &room_id,
                &self.participant_id,
                &to_id,
                p.clone(),
            ),
            Signal::Answer(p) => self.core.relay_answer(
                &room_id,
                &self.participant_id,
                &to_id,
                p.clone(),
            ),
            Signal::Ice(p) => self.core.relay_ice_candidate(
                &room_id,
                &self.participant_id,
                &to_id,
                p.clone(),
            ),
        };
        assert(relay_step(
            old(self).core_state(),
            self.core_state(),
            room_id@,
            old(self).me()@,
            to_id@,
            sig,
            answer,
        ));
        let ghost answered = answer;
        match answer {
            Ok(()) => {
                let event = match &signal {
                    Signal::Offer(payload) => ServerToClient::Offer {
                        from: self.participant_id.to_string(),
                        payload: payload.clone(),
                    },
                    Signal::Answer(payload) => ServerToClient::Answer {
                        from: self.participant_id.to_string(),
                        payload: payload.clone(),
                    },
                    Signal::Ice(payload) => ServerToClient::IceCandidate {
                        from: self.participant_id.to_string(),
                        payload: payload.clone(),
                    },
                };
                self.deliver(&to_id, event);
                assert(relay_step(old(self).core_state(), self.core_state(), room_id@, old(self).me()@, to_id@, sig, answered) && relay_outcome(old(self).state(), to_id@, answered, ev, sig.failure())
                    == self.state());
            },
            Err(code) => {
                let failure = match &signal {
                    Signal::Offer(_) => "failed to relay offer",
                    Signal::Answer(_) => "failed to relay answer",
                    Signal::Ice(_) => "failed to relay ice",
                };
                self.send_error(code, failure);
                assert(relay_outcome(old(self).state(), to_id@, Err(code), ev, signal.failure())
                    == self.state());
                assert(relay_step(old(self).core_state(), self.core_state(), room_id@, old(self).me()@, to_id@, sig, answered) && relay_outcome(old(self).state(), to_id@, answered, ev, sig.failure())
                    == self.state());
            },
        }
        assert(old(self).state().room->0 == room_id@ && uuid_parse(to@)->0 == to_id@);
        Ok(())
    }

    /// Tells each of `participants` that `joined` connected.
    pub fn broadcast_peer_connected(&mut self, participants: &[ParticipantId], joined: &ParticipantId)
        ensures
            final(self).state() == (HandlerView {
                broadcasts: old(self).state().broadcasts + to_each(
                    ids_view(participants@),
                    ServerEvent::PeerConnected { participant_id: uuid_text(joined@) },
                ),
                ..old(self).state()
            }),
            final(self).me() == old(self).me(),
            final(self).core_state() == old(self).core_state(),
            final(self).limiter() == old(self).limiter(),
    {
        let event = ServerToClient::PeerConnected { participant_id: joined.to_string() };
        self.send_each(participants, &event);
    }

    /// Tells each of `participants` that `left` disconnected.
    pub fn broadcast_peer_disconnected(
        &mut self,
        participants: &[ParticipantId],
        left: &ParticipantId,
    )
        ensures
            final(self).state() == (HandlerView {
                broadcasts: old(self).state().broadcasts + to_each(
                    ids_view(participants@),
                    ServerEvent::PeerDisconnected { participant_id: uuid_text(left@) },
                ),
                ..old(self).state()
            }),
            final(self).me() == old(self).me(),
            final(self).core_state() == old(self).core_state(),
            final(self).limiter() == old(self).limiter(),
    {
        let event = ServerToClient::PeerDisconnected { participant_id: left.to_string() };
        self.send_each(participants, &event);
    }

    /// Handles a connection lost abnormally, once its grace has passed:
    /// leaves the room once and tells the connected `participants`.
    pub fn handle_abnormal_close(&mut self, participants: &[ParticipantId])
        ensures
            final(self).me() == old(self).me(),
            final(self).limiter() == old(self).limiter(),
            match old(self).state().room {
                None => final(self).core_state() == old(self).core_state() && final(self).state()
                    == old(self).state(),
                Some(room) => abnormal_close_reached(
                    old(self).core_state(),
                    final(self).core_state(),
                    old(self).me()@,
                    room,
                    ids_view(participants@),
                    old(self).state(),
                    final(self).state(),
                ),
            },
    {
        if let Some(room_id) = self.room_id {
            let remaining = self.core.leave_room(&room_id, &self.participant_id);
            let ghost answered = leave_answer_view(remaining);
            assert(C::leave_step(old(self).core_state(), self.core_state(), room_id@, old(self).me()@, answered));
            match remaining {
                Some(rem) => {
                    let disconnect_evt = ServerToClient::PeerDisconnected {
                        participant_id: self.participant_id.to_string(),
                    };
                    self.send_each(participants, &disconnect_evt);
                    let names = id_texts(rem.as_slice());
                    let participants_evt = ServerToClient::RoomParticipants {
                        room_id: room_id.to_string(),
                        participants: names,
                    };
                    self.send_each(participants, &participants_evt);
                    self.room_id = None;
                    assert(abnormal_close_outcome(
                        old(self).state(),
                        self.participant_id@,
                        room_id@,
                        ids_view(participants@),
                        Some(ids_view(rem@)),
                    ) == self.state());
                },
                None => {
                    self.room_id = None;
                    assert(abnormal_close_outcome(
                        old(self).state(),
                        self.participant_id@,
                        room_id@,
                        ids_view(participants@),
                        None,
                    ) == self.state());
                },
            }
        }
    }
}

/// A signaling payload on its way to a participant.
pub enum Signal {
    Offer(RelaySdp),
    Answer(RelaySdp),
    Ice(RelayIce),
}

impl Signal {
    /// The event that the recipient gets from `from`.
    pub open spec fn event(&self, from: u128) -> ServerEvent {
        match self {
            Signal::Offer(p) => offer_event(from, p.sdp@),
            Signal::Answer(p) => answer_event(from, p.sdp@),
            Signal::Ice(p) => ice_event(from, p.candidate@),
        }
    }

    /// The error message sent back when the core refuses the relay.
    pub open spec fn failure(&self) -> Seq<char> {
        match self {
            Signal::Offer(_) => "failed to relay offer"@,
            Signal::Answer(_) => "failed to relay answer"@,
            Signal::Ice(_) => "failed to relay ice"@,
        }
    }
}

/// Whether relaying `signal` from `from` to `to` in `room` can take the
/// core from `before` to `after` and answer `answer`.
pub open spec fn relay_step<C: CoreApi>(
    before: C,
    after: C,
    room: u128,
    from: u128,
    to: u128,
    signal: Signal,
    answer: Result<(), ErrorCode>,
) -> bool {
    match signal {
        Signal::Offer(p) => C::offer_step(before, after, room, from, to, p, answer),
        Signal::Answer(p) => C::answer_step(before, after, room, from, to, p, answer),
        Signal::Ice(p) => C::ice_step(before, after, room, from, to, p, answer),
    }
}

/// What handling a signaling message from `me` to the recipient written
/// `to` does: without a room, or with a recipient that is not a UUID,
/// nothing happens and the request fails; otherwise the core is asked to
/// relay it, and `relay_outcome` holds for the core's answer.
pub open spec fn signal_contract<C: CoreApi>(
    before: C,
    after: C,
    me: u128,
    pre: HandlerView,
    post: HandlerView,
    r: Result<(), HandlerFault>,
    to: Seq<char>,
    signal: Signal,
) -> bool {
    if pre.room is None {
        after == before && post == pre && r == Err::<(), HandlerFault>(HandlerFault::NotInRoom)
    } else if uuid_parse(to) is None {
        after == before && post == pre && r == Err::<(), HandlerFault>(
            HandlerFault::InvalidParticipantId,
        )
    } else {
        r is Ok && exists|answer: Result<(), ErrorCode>|
            #[trigger] relay_step(before, after, pre.room->0, me, uuid_parse(to)->0, signal, answer)
                && relay_outcome(pre, uuid_parse(to)->0, answer, signal.event(me), signal.failure())
                == post
    }
}

/// What a signaling message received at `now` does: it is counted; past
/// the limit it is answered `RateLimited` and dropped, with the core and
/// participants untouched; within it, `signal_contract` holds.
pub open spec fn signal_handled<C: CoreApi>(
    before: C,
    after: C,
    me: u128,
    lim_pre: SlidingWindow,
    lim_post: SlidingWindow,
    now: u64,
    pre: HandlerView,
    post: HandlerView,
    r: Result<(), HandlerFault>,
    to: Seq<char>,
    signal: Signal,
) -> bool {
    let (counted, allowed) = check_spec(lim_pre@, now, lim_pre.limit(), lim_pre.window());
    &&& lim_post@ == counted
    &&& if allowed {
        signal_contract(before, after, me, pre, post, r, to, signal)
    } else {
        after == before && post == (HandlerView {
            outbox: pre.outbox.push(error_event(ErrorCode::RateLimited, rate_limited_text())),
            ..pre
        }) && r is Ok
    }
}

/// Law: a signaling message reaches its recipient and no one else: the
/// relay adds at most one delivery, to the recipient; a refusal is answered
/// to the sender alone, with the core's code.
pub proof fn lemma_relay_reaches_only_recipient(
    pre: HandlerView,
    to: u128,
    answer: Result<(), ErrorCode>,
    ev: ServerEvent,
    failure: Seq<char>,
)
    ensures
        relay_outcome(pre, to, answer, ev, failure).room == pre.room,
        answer is Ok ==> relay_outcome(pre, to, answer, ev, failure).broadcasts == pre.broadcasts.push(
            (to, ev),
        ) && relay_outcome(pre, to, answer, ev, failure).outbox == pre.outbox,
        answer matches Err(code) ==> relay_outcome(pre, to, answer, ev, failure).broadcasts
            == pre.broadcasts && relay_outcome(pre, to, answer, ev, failure).outbox == pre.outbox.push(
            error_event(code, failure),
        ),
{
}

/// Law: a signaling message from a connection in a room, to a recipient
/// that is a UUID, is relayed by the core once with the sender, recipient
/// and payload of the message; on the core's `Ok` the recipient alone gets
/// the event, on its refusal the sender alone gets the refusal's code.
pub proof fn lemma_signal_follows_core_answer<C: CoreApi>(
    before: C,
    after: C,
    me: u128,
    pre: HandlerView,
    post: HandlerView,
    r: Result<(), HandlerFault>,
    to: Seq<char>,
    signal: Signal,
)
    requires
        signal_contract(before, after, me, pre, post, r, to, signal),
        pre.room is Some,
        uuid_parse(to) is Some,
    ensures
        r is Ok,
        exists|answer: Result<(), ErrorCode>|
            #[trigger] relay_step(before, after, pre.room->0, me, uuid_parse(to)->0, signal, answer)
                && (answer is Ok ==> post.broadcasts == pre.broadcasts.push(
                (uuid_parse(to)->0, signal.event(me)),
            ) && post.outbox == pre.outbox) && (answer matches Err(code) ==> post.outbox
                == pre.outbox.push(error_event(code, signal.failure())) && post.broadcasts
                == pre.broadcasts) && post.room == pre.room,
{
    let answer = choose|answer: Result<(), ErrorCode>|
        #[trigger] relay_step(before, after, pre.room->0, me, uuid_parse(to)->0, signal, answer)
            && relay_outcome(pre, uuid_parse(to)->0, answer, signal.event(me), signal.failure())
            == post;
    lemma_relay_reaches_only_recipient(pre, uuid_parse(to)->0, answer, signal.event(me), signal.failure());
}

/// Law: after a leave that the core answered with the remaining
/// participants, every one of them hears that the leaver left, and then every
/// one of them gets the new list; nothing else is sent, the client's own
/// messages are unchanged and the connection is in no room.
pub proof fn lemma_leave_tells_every_remaining(
    pre: HandlerView,
    me: u128,
    room: u128,
    rest: Seq<u128>,
)
    ensures
        leave_outcome(pre, me, room, Some(rest)).1 is Ok,
        leave_outcome(pre, me, room, Some(rest)).0.room is None,
        leave_outcome(pre, me, room, Some(rest)).0.outbox == pre.outbox,
        leave_outcome(pre, me, room, Some(rest)).0.broadcasts.len() == pre.broadcasts.len() + 2
            * rest.len(),
        leave_outcome(pre, me, room, Some(rest)).0.broadcasts.subrange(0, pre.broadcasts.len() as int)
            == pre.broadcasts,
        forall|i: int|
            0 <= i < rest.len() ==> leave_outcome(pre, me, room, Some(rest)).0.broadcasts[pre.broadcasts.len()
                + i] == (rest[i], ServerEvent::PeerDisconnected { participant_id: uuid_text(me) }),
        forall|i: int|
            0 <= i < rest.len() ==> leave_outcome(pre, me, room, Some(rest)).0.broadcasts[pre.broadcasts.len()
                + rest.len() + i] == (rest[i], participants_event(uuid_text(room), rest)),
{
    let post = leave_outcome(pre, me, room, Some(rest)).0;
    assert(post.broadcasts.subrange(0, pre.broadcasts.len() as int) =~= pre.broadcasts);
}

/// Law: after an abnormal close that the core answered with the remaining
/// participants, every connected participant that is notified hears that
/// the participant left, then gets the list the core returned; without an
/// answer nobody hears anything; either way the connection is in no room.
pub proof fn lemma_abnormal_close_tells_every_notified(
    pre: HandlerView,
    me: u128,
    room: u128,
    notified: Seq<u128>,
    answer: Option<Seq<u128>>,
)
    ensures
        abnormal_close_outcome(pre, me, room, notified, answer).room is None,
        abnormal_close_outcome(pre, me, room, notified, answer).outbox == pre.outbox,
        answer is None ==> abnormal_close_outcome(pre, me, room, notified, answer).broadcasts
            == pre.broadcasts,
        answer matches Some(rest) ==> {
            let post = abnormal_close_outcome(pre, me, room, notified, answer);
            &&& post.broadcasts.len() == pre.broadcasts.len() + 2 * notified.len()
            &&& post.broadcasts.subrange(0, pre.broadcasts.len() as int) == pre.broadcasts
            &&& forall|i: int|
                0 <= i < notified.len() ==> post.broadcasts[pre.broadcasts.len() + i] == (
                    notified[i],
                    ServerEvent::PeerDisconnected { participant_id: uuid_text(me) },
                )
            &&& forall|i: int|
                0 <= i < notified.len() ==> post.broadcasts[pre.broadcasts.len() + notified.len()
                    + i] == (notified[i], participants_event(uuid_text(room), rest))
        },
{
    let post = abnormal_close_outcome(pre, me, room, notified, answer);
    assert(post.broadcasts.subrange(0, pre.broadcasts.len() as int) =~= pre.broadcasts);
}

/// Law: a full room is answered with `RoomFull` to the joiner alone; no
/// participant hears anything.
pub proof fn lemma_full_room_tells_only_the_joiner(pre: HandlerView, text: Seq<char>, room: u128)
    ensures
        join_outcome(pre, text, room, Some(Err(JoinRoomError::RoomFull))).0.broadcasts
            == pre.broadcasts,
        join_outcome(pre, text, room, Some(Err(JoinRoomError::RoomFull))).0.outbox
            == pre.outbox.push(error_event(ErrorCode::RoomFull, "room is full"@)),
        join_outcome(pre, text, room, Some(Err(JoinRoomError::RoomFull))).1 is Ok,
{
}

/// Law: after a successful join, every member of the room, the joiner
/// included, receives the new participant list exactly once.
pub proof fn lemma_join_reaches_every_member(
    pre: HandlerView,
    text: Seq<char>,
    room: u128,
    members: Seq<u128>,
    i: int,
)
    requires
        0 <= i < members.len(),
    ensures
        join_outcome(pre, text, room, Some(Ok(members))).0.broadcasts[pre.broadcasts.len() + i]
            == (members[i], participants_event(text, members)),
        join_outcome(pre, text, room, Some(Ok(members))).0.broadcasts.len() == pre.broadcasts.len()
            + members.len(),
{
}

} // verus!
