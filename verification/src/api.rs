//! Bloom signaling protocol types: what clients send to the server and what
//! the server sends back.
use vstd::prelude::*;

verus! {

/// Error codes that the server reports to a client.
#[derive(Debug, Clone, Copy, PartialEq, Eq, Structural)]
pub enum ErrorCode {
    RoomFull,
    RoomNotFound,
    InvalidPayload,
    ParticipantNotFound,
    RateLimited,
    Internal,
}

/// Payload of a relayed WebRTC offer or answer.
#[derive(Debug, PartialEq)]
pub struct RelaySdp {
    pub sdp: String,
}

/// Payload of a relayed ICE candidate.
#[derive(Debug, PartialEq)]
pub struct RelayIce {
    pub candidate: String,
}

impl Clone for RelaySdp {
    fn clone(&self) -> (r: Self)
        ensures
            r == *self,
    {
        RelaySdp { sdp: self.sdp.clone() }
    }
}

impl Clone for RelayIce {
    fn clone(&self) -> (r: Self)
        ensures
            r == *self,
    {
        RelayIce { candidate: self.candidate.clone() }
    }
}

/// Requests that a client sends to the server.
#[derive(Debug, PartialEq)]
pub enum ClientToServer {
    /// Create a new room (no fields).
    CreateRoom,
    /// Join an existing room (`room_id` is required).
    JoinRoom { room_id: String },
    /// Leave the current room (no fields).
    LeaveRoom,
    /// Relay a WebRTC offer to one participant.
    Offer { to: String, payload: RelaySdp },
    /// Relay a WebRTC answer to one participant.
    Answer { to: String, payload: RelaySdp },
    /// Relay an ICE candidate to one participant.
    IceCandidate { to: String, payload: RelayIce },
}

impl Clone for ClientToServer {
    fn clone(&self) -> (r: Self)
        ensures
            r == *self,
    {
        match self {
            ClientToServer::CreateRoom => ClientToServer::CreateRoom,
            ClientToServer::JoinRoom { room_id } => ClientToServer::JoinRoom {
                room_id: room_id.clone(),
            },
            ClientToServer::LeaveRoom => ClientToServer::LeaveRoom,
            ClientToServer::Offer { to, payload } => ClientToServer::Offer {
                to: to.clone(),
                payload: payload.clone(),
            },
            ClientToServer::Answer { to, payload } => ClientToServer::Answer {
                to: to.clone(),
                payload: payload.clone(),
            },
            ClientToServer::IceCandidate { to, payload } => ClientToServer::IceCandidate {
                to: to.clone(),
                payload: payload.clone(),
            },
        }
    }
}

/// Events that the server sends to clients.
#[derive(Debug, PartialEq)]
pub enum ServerToClient {
    RoomCreated { room_id: String, self_id: String },
    RoomParticipants { room_id: String, participants: Vec<String> },
    PeerConnected { participant_id: String },
    PeerDisconnected { participant_id: String },
    Offer { from: String, payload: RelaySdp },
    Answer { from: String, payload: RelaySdp },
    IceCandidate { from: String, payload: RelayIce },
    Error { code: ErrorCode, message: String },
}

/// The mathematical content of a server event: every string is taken as its
/// sequence of characters.
pub enum ServerEvent {
    RoomCreated { room_id: Seq<char>, self_id: Seq<char> },
    RoomParticipants { room_id: Seq<char>, participants: Seq<Seq<char>> },
    PeerConnected { participant_id: Seq<char> },
    PeerDisconnected { participant_id: Seq<char> },
    Offer { from: Seq<char>, sdp: Seq<char> },
    Answer { from: Seq<char>, sdp: Seq<char> },
    IceCandidate { from: Seq<char>, candidate: Seq<char> },
    Error { code: ErrorCode, message: Seq<char> },
}

/// The character sequences of a list of strings.
pub open spec fn strings_view(v: Seq<String>) -> Seq<Seq<char>> {
    v.map_values(|s: String| s@)
}

impl View for ServerToClient {
    type V = ServerEvent;

    open spec fn view(&self) -> ServerEvent {
        match self {
            ServerToClient::RoomCreated { room_id, self_id } => ServerEvent::RoomCreated {
                room_id: room_id@,
                self_id: self_id@,
            },
            ServerToClient::RoomParticipants { room_id, participants } =>
                ServerEvent::RoomParticipants {
                room_id: room_id@,
                participants: strings_view(participants@),
            },
            ServerToClient::PeerConnected { participant_id } => ServerEvent::PeerConnected {
                participant_id: participant_id@,
            },
            ServerToClient::PeerDisconnected { participant_id } => ServerEvent::PeerDisconnected {
                participant_id: participant_id@,
            },
            ServerToClient::Offer { from, payload } => ServerEvent::Offer {
                from: from@,
                sdp: payload.sdp@,
            },
            ServerToClient::Answer { from, payload } => ServerEvent::Answer {
                from: from@,
                sdp: payload.sdp@,
            },
            ServerToClient::IceCandidate { from, payload } => ServerEvent::IceCandidate {
                from: from@,
                candidate: payload.candidate@,
            },
            ServerToClient::Error { code, message } => ServerEvent::Error {
                code: *code,
                message: message@,
            },
        }
    }
}

impl Clone for ServerToClient {
    fn clone(&self) -> (r: Self)
        ensures
            r@ == self@,
    {
        match self {
            ServerToClient::RoomCreated { room_id, self_id } => ServerToClient::RoomCreated {
                room_id: room_id.clone(),
                self_id: self_id.clone(),
            },
            ServerToClient::RoomParticipants { room_id, participants } => {
                let ps = participants.clone();
                proof {
                    assert(strings_view(ps@) =~= strings_view(participants@));
                }
                ServerToClient::RoomParticipants { room_id: room_id.clone(), participants: ps }
            },
            ServerToClient::PeerConnected { participant_id } => ServerToClient::PeerConnected {
                participant_id: participant_id.clone(),
            },
            ServerToClient::PeerDisconnected { participant_id } =>
                ServerToClient::PeerDisconnected { participant_id: participant_id.clone() },
            ServerToClient::Offer { from, payload } => ServerToClient::Offer {
                from: from.clone(),
                payload: payload.clone(),
            },
            ServerToClient::Answer { from, payload } => ServerToClient::Answer {
                from: from.clone(),
                payload: payload.clone(),
            },
            ServerToClient::IceCandidate { from, payload } => ServerToClient::IceCandidate {
                from: from.clone(),
                payload: payload.clone(),
            },
            ServerToClient::Error { code, message } => ServerToClient::Error {
                code: *code,
                message: message.clone(),
            },
        }
    }
}

} // verus!
