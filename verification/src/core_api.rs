//! The room and signaling operations that the WebSocket layer asks of the
//! core.
use vstd::prelude::*;

use crate::api::{ErrorCode, RelayIce, RelaySdp};
use crate::ids::{ParticipantId, RoomId};
use crate::room::{ids_view, CreateRoomResult, JoinRoomError};

verus! {

/// The participant values of a join answer.
pub open spec fn join_answer_view(r: Option<Result<Vec<ParticipantId>, JoinRoomError>>) -> Option<
    Result<Seq<u128>, JoinRoomError>,
> {
    match r {
        None => None,
        Some(Ok(v)) => Some(Ok(ids_view(v@))),
        Some(Err(e)) => Some(Err(e)),
    }
}

/// The participant values of a leave answer.
pub open spec fn leave_answer_view(r: Option<Vec<ParticipantId>>) -> Option<Seq<u128>> {
    match r {
        None => None,
        Some(v) => Some(ids_view(v@)),
    }
}

/// Core domain operations that the WebSocket layer depends on.
///
/// Each core says, by a relation over the core before and after the call,
/// the call's arguments and the answer, which outcomes its operations can
/// have; a core that does not say allows every outcome.
pub trait CoreApi: Sized {
    /// Whether creating a room owned by `owner` can take the core from
    /// `before` to `after` and answer `r`.
    open spec fn create_step(before: Self, after: Self, owner: u128, r: CreateRoomResult) -> bool {
        true
    }

    /// Whether adding `participant` to `room` can take the core from
    /// `before` to `after` and answer `r`.
    open spec fn join_step(
        before: Self,
        after: Self,
        room: u128,
        participant: u128,
        r: Option<Result<Seq<u128>, JoinRoomError>>,
    ) -> bool {
        true
    }

    /// Whether removing `participant` from `room` can take the core from
    /// `before` to `after` and answer `r`.
    open spec fn leave_step(
        before: Self,
        after: Self,
        room: u128,
        participant: u128,
        r: Option<Seq<u128>>,
    ) -> bool {
        true
    }

    /// Whether relaying an offer from `from` to `to` in `room` can take the
    /// core from `before` to `after` and answer `r`.
    open spec fn offer_step(
        before: Self,
        after: Self,
        room: u128,
        from: u128,
        to: u128,
        payload: RelaySdp,
        r: Result<(), ErrorCode>,
    ) -> bool {
        true
    }

    /// Whether relaying an answer from `from` to `to` in `room` can take the
    /// core from `before` to `after` and answer `r`.
    open spec fn answer_step(
        before: Self,
        after: Self,
        room: u128,
        from: u128,
        to: u128,
        payload: RelaySdp,
        r: Result<(), ErrorCode>,
    ) -> bool {
        true
    }

    /// Whether relaying an ICE candidate from `from` to `to` in `room` can
    /// take the core from `before` to `after` and answer `r`.
    open spec fn ice_step(
        before: Self,
        after: Self,
        room: u128,
        from: u128,
        to: u128,
        payload: RelayIce,
        r: Result<(), ErrorCode>,
    ) -> bool {
        true
    }

    fn create_room(&mut self, room_owner: ParticipantId) -> (r: CreateRoomResult)
        ensures
            Self::create_step(*old(self), *final(self), room_owner@, r),
    ;

    fn participants(&self, room_id: &RoomId) -> Option<Vec<ParticipantId>>;

    fn join_room(&mut self, room_id: &RoomId, participant: ParticipantId) -> (r: Option<
        Result<Vec<ParticipantId>, JoinRoomError>,
    >)
        ensures
            Self::join_step(*old(self), *final(self), room_id@, participant@, join_answer_view(r)),
    ;

    fn leave_room(&mut self, room_id: &RoomId, participant: &ParticipantId) -> (r: Option<
        Vec<ParticipantId>,
    >)
        ensures
            Self::leave_step(*old(self), *final(self), room_id@, participant@, leave_answer_view(r)),
    ;

    fn relay_offer(
        &mut self,
        room_id: &RoomId,
        from: &ParticipantId,
        to: &ParticipantId,
        payload: RelaySdp,
    ) -> (r: Result<(), ErrorCode>)
        ensures
            Self::offer_step(*old(self), *final(self), room_id@, from@, to@, payload, r),
    ;

    fn relay_answer(
        &mut self,
        room_id: &RoomId,
        from: &ParticipantId,
        to: &ParticipantId,
        payload: RelaySdp,
    ) -> (r: Result<(), ErrorCode>)
        ensures
            Self::answer_step(*old(self), *final(self), room_id@, from@, to@, payload, r),
    ;

    fn relay_ice_candidate(
        &mut self,
        room_id: &RoomId,
        from: &ParticipantId,
        to: &ParticipantId,
        payload: RelayIce,
    ) -> (r: Result<(), ErrorCode>)
        ensures
            Self::ice_step(*old(self), *final(self), room_id@, from@, to@, payload, r),
    ;
}

/// Hooks through which the core reports room events to a connection.
pub trait CoreEventReceiver {
    fn on_peer_connected(&mut self, participants: &[ParticipantId], joined: &ParticipantId);

    fn on_peer_disconnected(&mut self, participants: &[ParticipantId], left: &ParticipantId);

    fn on_participants_updated(&mut self, room_id: &RoomId, participants: &[ParticipantId]);
}

} // verus!
