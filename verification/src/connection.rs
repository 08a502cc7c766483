//! Decisions of a WebSocket connection's read loop: how handshakes are
//! answered, what to do with each incoming frame, when the keep-alive pings
//! give up on a silent peer, and whether a departure leaves the room. The loop itself, which waits on the
//! socket and the timer, runs outside this crate and performs the actions.
use vstd::prelude::*;

use crate::ids::ParticipantId;
use crate::rate_limit::{elapsed, TimeSpan, Timestamp, MAX_SPAN_NANOS};
use crate::room::ids_view;

verus! {

/// The one path on which the WebSocket upgrade is accepted.
pub open spec fn ws_path() -> Seq<char> {
    "/ws"@
}

/// How a handshake request is answered.
#[derive(Debug, Clone, Copy, PartialEq, Eq, Structural)]
pub enum HandshakeVerdict {
    /// Switch to WebSocket (101).
    Upgrade,
    /// A path other than the WebSocket one: 404, without upgrade headers.
    NotFound,
    /// The WebSocket path without an upgrade request: 426, naming the
    /// upgrade that is required.
    UpgradeRequired,
}

impl HandshakeVerdict {
    /// The HTTP status of the answer.
    pub open spec fn spec_status(&self) -> u16 {
        match self {
            HandshakeVerdict::Upgrade => 101,
            HandshakeVerdict::NotFound => 404,
            HandshakeVerdict::UpgradeRequired => 426,
        }
    }

    /// The HTTP status of the answer.
    pub fn status(&self) -> (r: u16)
        ensures
            r == self.spec_status(),
    {
        match self {
            HandshakeVerdict::Upgrade => 101,
            HandshakeVerdict::NotFound => 404,
            HandshakeVerdict::UpgradeRequired => 426,
        }
    }

    /// Whether a refusal names the upgrade (`Upgrade: websocket`,
    /// `Connection: Upgrade`); only the 426 answer does.
    pub fn advertises_upgrade(&self) -> (r: bool)
        ensures
            r == (*self == HandshakeVerdict::UpgradeRequired),
    {
        match self {
            HandshakeVerdict::UpgradeRequired => true,
            _ => false,
        }
    }
}

/// The answer to a handshake on `path`, which asks to upgrade or not.
pub open spec fn handshake_spec(path: Seq<char>, upgrade_requested: bool) -> HandshakeVerdict {
    if path != ws_path() {
        HandshakeVerdict::NotFound
    } else if !upgrade_requested {
        HandshakeVerdict::UpgradeRequired
    } else {
        HandshakeVerdict::Upgrade
    }
}

/// Decides how to answer a handshake request on `path`: only the WebSocket
/// path may upgrade, and only when the request asks to.
pub fn handshake_verdict(path: &str, upgrade_requested: bool) -> (r: HandshakeVerdict)
    ensures
        r == handshake_spec(path@, upgrade_requested),
{
    if String::from_str(path) != String::from_str("/ws") {
        HandshakeVerdict::NotFound
    } else if !upgrade_requested {
        HandshakeVerdict::UpgradeRequired
    } else {
        HandshakeVerdict::Upgrade
    }
}

/// The close code of a normal closure.
pub const NORMAL_CLOSE_CODE: u16 = 1000;

/// How long a connection that was lost stays in its room before it leaves,
/// in milliseconds.
pub const ABNORMAL_DISCONNECT_GRACE_MILLIS: u64 = 2000;

/// How long a lost connection stays in its room.
pub fn abnormal_disconnect_grace() -> (r: TimeSpan)
    ensures
        r@ == ABNORMAL_DISCONNECT_GRACE_MILLIS * 1_000_000,
{
    TimeSpan::from_millis(ABNORMAL_DISCONNECT_GRACE_MILLIS)
}

/// Settings of the keep-alive pings: how often to ping, and how many
/// intervals may pass without a pong.
#[derive(Debug, Clone, Copy, PartialEq, Eq, Structural)]
pub struct PingConfig {
    pub interval: TimeSpan,
    pub miss_allowed: u32,
}

impl PingConfig {
    /// How long without a pong ends the connection.
    pub open spec fn timeout(&self) -> int {
        self.interval@ * self.miss_allowed
    }

    /// A ping every 30 seconds; two missed pongs end the connection.
    pub fn standard() -> (r: Self)
        ensures
            r.interval@ == 30_000_000_000,
            r.miss_allowed == 2,
    {
        PingConfig { interval: TimeSpan::from_secs(30), miss_allowed: 2 }
    }
}

impl Default for PingConfig {
    fn default() -> (r: Self)
        ensures
            r.interval@ == 30_000_000_000,
            r.miss_allowed == 2,
    {
        PingConfig::standard()
    }
}

/// Why the server closes a connection.
#[derive(Debug, Clone, Copy, PartialEq, Eq, Structural)]
pub enum CloseReason {
    /// A frame that is neither text nor control (1003).
    Unsupported,
    /// No pong for too long (1006).
    PingTimeout,
}

impl CloseReason {
    /// The WebSocket close code.
    pub open spec fn spec_code(&self) -> u16 {
        match self {
            CloseReason::Unsupported => 1003,
            CloseReason::PingTimeout => 1006,
        }
    }

    /// The text sent with the close frame.
    pub open spec fn text(&self) -> Seq<char> {
        match self {
            CloseReason::Unsupported => "unsupported data"@,
            CloseReason::PingTimeout => "ping timeout"@,
        }
    }

    /// The WebSocket close code.
    pub fn code(&self) -> (r: u16)
        ensures
            r == self.spec_code(),
    {
        match self {
            CloseReason::Unsupported => 1003,
            CloseReason::PingTimeout => 1006,
        }
    }

    /// The text sent with the close frame.
    pub fn message(&self) -> (r: String)
        ensures
            r@ == self.text(),
    {
        match self {
            CloseReason::Unsupported => "unsupported data".to_string(),
            CloseReason::PingTimeout => "ping timeout".to_string(),
        }
    }
}

/// What the read loop observed.
#[derive(Debug, PartialEq, Eq)]
pub enum WireEvent {
    /// A text frame.
    Text(String),
    /// A ping from the peer, with its payload.
    Ping(Vec<u8>),
    /// A pong from the peer.
    Pong,
    /// A close frame from the peer, with its close code if it carries one.
    Close(Option<u16>),
    /// Any other frame (binary or raw).
    Other,
    /// The socket reported an error.
    Failed,
    /// The socket has no more frames.
    Ended,
    /// The keep-alive timer fired.
    PingTick,
}

/// What the read loop must do next.
#[derive(Debug, PartialEq, Eq)]
pub enum WireAction {
    /// Hand the text to the connection's handler, then read on.
    Deliver(String),
    /// Answer the peer's ping with a pong carrying the same payload, then read on.
    ReplyPong(Vec<u8>),
    /// Nothing to do; read on.
    Nothing,
    /// Send a ping, then read on.
    SendPing,
    /// Send a ping, then close with the reason and stop.
    SendPingThenClose(CloseReason),
    /// Forget the connection's room, close with the reason and stop.
    DropRoomAndClose(CloseReason),
    /// The peer left normally: stop reading.
    Stop,
    /// The connection was lost: stop reading; the participant leaves its
    /// room once the grace has passed.
    Lost,
}

/// Whether the read loop goes on after `action`.
pub open spec fn continues(action: WireAction) -> bool {
    match action {
        WireAction::Deliver(_) | WireAction::ReplyPong(_) | WireAction::Nothing
        | WireAction::SendPing => true,
        _ => false,
    }
}

/// Whether the participant leaves its room, after the grace, once the read
/// loop has stopped with `action`: when the connection was lost or timed
/// out; not when the peer closed normally.
pub open spec fn leaves_after_grace(action: WireAction) -> bool {
    match action {
        WireAction::Lost | WireAction::SendPingThenClose(_) => true,
        _ => false,
    }
}

/// The decision on `event` at `now`, given the time of the last pong, and
/// the new time of the last pong.
pub open spec fn step_spec(last_pong: u64, timeout: int, event: WireEvent, now: u64) -> (
    u64,
    WireAction,
) {
    match event {
        WireEvent::Text(t) => (last_pong, WireAction::Deliver(t)),
        WireEvent::Ping(p) => (last_pong, WireAction::ReplyPong(p)),
        WireEvent::Pong => (now, WireAction::Nothing),
        WireEvent::Close(code) => if code == Some(NORMAL_CLOSE_CODE) {
            (last_pong, WireAction::Stop)
        } else {
            (last_pong, WireAction::Lost)
        },
        WireEvent::Failed | WireEvent::Ended => (last_pong, WireAction::Lost),
        WireEvent::Other => (last_pong, WireAction::DropRoomAndClose(CloseReason::Unsupported)),
        WireEvent::PingTick => if elapsed(now, last_pong) >= timeout {
            (last_pong, WireAction::SendPingThenClose(CloseReason::PingTimeout))
        } else {
            (last_pong, WireAction::SendPing)
        },
    }
}

/// The keep-alive state of one connection.
pub struct ConnectionMonitor {
    config: PingConfig,
    last_pong: u64,
}

impl ConnectionMonitor {
    /// The settings of the pings.
    pub closed spec fn config(&self) -> PingConfig {
        self.config
    }

    /// When the last pong came (or the connection opened).
    pub closed spec fn last_pong(&self) -> u64 {
        self.last_pong
    }

    /// A monitor for a connection opened at `now`. The time without pong
    /// that ends it must be a span of time.
    pub fn new(config: PingConfig, now: Timestamp) -> (r: Self)
        requires
            config.timeout() <= MAX_SPAN_NANOS,
        ensures
            r.config() == config,
            r.last_pong() == now@,
    {
        ConnectionMonitor { config, last_pong: now.as_nanos() }
    }

    /// Decides what to do with `event`, observed at `now`.
    pub fn on_event(&mut self, event: WireEvent, now: Timestamp) -> (r: WireAction)
        requires
            old(self).config().timeout() <= MAX_SPAN_NANOS,
        ensures
            final(self).config() == old(self).config(),
            (final(self).last_pong(), r) == step_spec(
                old(self).last_pong(),
                old(self).config().timeout(),
                event,
                now@,
            ),
    {
        let now_nanos = now.as_nanos();
        match event {
            WireEvent::Text(t) => WireAction::Deliver(t),
            WireEvent::Ping(p) => WireAction::ReplyPong(p),
            WireEvent::Pong => {
                self.last_pong = now_nanos;
                WireAction::Nothing
            },
            WireEvent::Close(code) => match code {
                Some(c) => if c == NORMAL_CLOSE_CODE {
                    WireAction::Stop
                } else {
                    WireAction::Lost
                },
                None => WireAction::Lost,
            },
            WireEvent::Failed => WireAction::Lost,
            WireEvent::Ended => WireAction::Lost,
            WireEvent::Other => WireAction::DropRoomAndClose(CloseReason::Unsupported),
            WireEvent::PingTick => {
                let interval = self.config.interval.as_nanos();
                let timeout: u128 = interval * (self.config.miss_allowed as u128);
                let silent: u128 = if now_nanos >= self.last_pong {
                    (now_nanos - self.last_pong) as u128
                } else {
                    0
                };
                if silent >= timeout {
                    WireAction::SendPingThenClose(CloseReason::PingTimeout)
                } else {
                    WireAction::SendPing
                }
            },
        }
    }

    /// Whether the participant leaves its room, after the grace, once the
    /// read loop stopped with `action`.
    pub fn leaves_after_grace(action: &WireAction) -> (r: bool)
        ensures
            r == leaves_after_grace(*action),
    {
        match action {
            WireAction::Lost => true,
            WireAction::SendPingThenClose(_) => true,
            _ => false,
        }
    }

    /// Whether the read loop goes on after `action`.
    pub fn keeps_reading(action: &WireAction) -> (r: bool)
        ensures
            r == continues(*action),
    {
        match action {
            WireAction::Deliver(_) => true,
            WireAction::ReplyPong(_) => true,
            WireAction::Nothing => true,
            WireAction::SendPing => true,
            _ => false,
        }
    }
}

/// The connected participants other than `me`, in the given order.
pub fn other_peers(peers: &[ParticipantId], me: &ParticipantId) -> (r: Vec<ParticipantId>)
    ensures
        ids_view(r@) == ids_view(peers@).filter(|p: u128| p != me@),
{
    let mut out: Vec<ParticipantId> = Vec::new();
    let mut i: usize = 0;
    while i < peers.len()
        invariant
            i <= peers@.len(),
            ids_view(out@) == ids_view(peers@.take(i as int)).filter(|p: u128| p != me@),
        decreases peers@.len() - i,
    {
        let ghost before = peers@.take(i as int);
        proof {
            assert(ids_view(peers@.take(i as int + 1)).drop_last() =~= ids_view(before));
            reveal(Seq::filter);
        }
        if peers[i].as_u128() != me.as_u128() {
            out.push(peers[i]);
            assert(ids_view(out@) =~= ids_view(before).filter(|p: u128| p != me@).push(
                peers@[i as int]@,
            ));
        }
        i = i + 1;
    }
    assert(peers@.take(peers@.len() as int) =~= peers@);
    out
}

/// Law: a tick gives up on the peer exactly when a full timeout has
/// passed since its last pong.
pub proof fn lemma_tick_gives_up_after_timeout(last_pong: u64, timeout: int, now: u64)
    requires
        now >= last_pong,
    ensures
        step_spec(last_pong, timeout, WireEvent::PingTick, now).1 is SendPingThenClose
            <==> now - last_pong >= timeout,
        !continues(step_spec(last_pong, timeout, WireEvent::PingTick, now).1)
            <==> now - last_pong >= timeout,
{
}

/// Law: a pong restarts the wait: right after it, a tick only pings (for a
/// positive timeout).
pub proof fn lemma_pong_restarts_wait(last_pong: u64, timeout: int, now: u64)
    requires
        timeout > 0,
    ensures
        step_spec(
            step_spec(last_pong, timeout, WireEvent::Pong, now).0,
            timeout,
            WireEvent::PingTick,
            now,
        ).1 == WireAction::SendPing,
{
}

/// Law: a normal closure never leaves the room; a lost connection (any
/// other closure, a socket error, the end of the stream) always does, after
/// the grace.
pub proof fn lemma_only_lost_connections_leave(last_pong: u64, timeout: int, code: Option<u16>, now: u64)
    ensures
        leaves_after_grace(step_spec(last_pong, timeout, WireEvent::Close(code), now).1) <==> code
            != Some(NORMAL_CLOSE_CODE),
        leaves_after_grace(step_spec(last_pong, timeout, WireEvent::Failed, now).1),
        leaves_after_grace(step_spec(last_pong, timeout, WireEvent::Ended, now).1),
        !continues(step_spec(last_pong, timeout, WireEvent::Close(code), now).1),
{
}

/// Law: only the WebSocket path upgrades, and only when asked to; any other
/// path is answered 404 without naming the upgrade.
pub proof fn lemma_other_paths_not_found(path: Seq<char>, upgrade_requested: bool)
    ensures
        handshake_spec(path, upgrade_requested).spec_status() == 101 <==> (path == ws_path()
            && upgrade_requested),
        path != ws_path() ==> handshake_spec(path, upgrade_requested).spec_status() == 404
            && handshake_spec(path, upgrade_requested) != HandshakeVerdict::UpgradeRequired,
{
}

} // verus!
