//! The in-memory core that the WebSocket server runs on.
use vstd::prelude::*;

use crate::api::{ErrorCode, RelayIce, RelaySdp};
use crate::core_api::CoreApi;
use crate::ids::{is_v4, ParticipantId, RoomId};
use crate::room::{ids_view, join_spec, leave_spec, CreateRoomResult, JoinRoomError, RoomManager};
use crate::signaling::{both_members, contains_participant};

verus! {

/// Whether a relay between `from` and `to` in `room` is allowed: the room
/// exists and both are among its participants.
pub open spec fn relay_allowed(rooms: Map<u128, Seq<u128>>, room: u128, from: u128, to: u128) -> bool {
    rooms.contains_key(room) && both_members(rooms[room], from, to)
}

/// A relay check: the rooms stay as they were, and the answer is `Ok`
/// exactly when the relay is allowed, `ParticipantNotFound` otherwise.
pub open spec fn relay_checked(
    before: RealCore,
    after: RealCore,
    room: u128,
    from: u128,
    to: u128,
    r: Result<(), ErrorCode>,
) -> bool {
    &&& after@ == before@
    &&& (r is Ok <==> relay_allowed(before@, room, from, to))
    &&& (r matches Err(e) ==> e == ErrorCode::ParticipantNotFound)
}

/// Core backed by a `RoomManager`.
pub struct RealCore {
    rooms: RoomManager,
}

impl View for RealCore {
    type V = Map<u128, Seq<u128>>;

    closed spec fn view(&self) -> Map<u128, Seq<u128>> {
        self.rooms@
    }
}

impl RealCore {
    /// A core without rooms.
    pub fn new() -> (r: Self)
        ensures
            r@ == Map::<u128, Seq<u128>>::empty(),
    {
        RealCore { rooms: RoomManager::new() }
    }

    /// Checks a relay request against the room's participants.
    fn check_relay(&self, room_id: &RoomId, from: &ParticipantId, to: &ParticipantId) -> (r:
        Result<(), ErrorCode>)
        ensures
            r is Ok <==> relay_allowed(self@, room_id@, from@, to@),
            r matches Err(e) ==> e == ErrorCode::ParticipantNotFound,
    {
        let participants = match self.rooms.participants(room_id) {
            Some(p) => p,
            None => {
                return Err(ErrorCode::ParticipantNotFound);
            },
        };
        if !contains_participant(participants.as_slice(), from) || !contains_participant(
            participants.as_slice(),
            to,
        ) {
            return Err(ErrorCode::ParticipantNotFound);
        }
        Ok(())
    }
}

impl Default for RealCore {
    fn default() -> (r: Self)
        ensures
            r@ == Map::<u128, Seq<u128>>::empty(),
    {
        RealCore::new()
    }
}

impl CoreApi for RealCore {
    /// A fresh version 4 room id, owned by `owner` as its sole member.
    open spec fn create_step(before: Self, after: Self, owner: u128, r: CreateRoomResult) -> bool {
        &&& is_v4(r.room_id@)
        &&& r.self_id@ == owner
        &&& ids_view(r.participants@) == seq![owner]
        &&& after@ == before@.insert(r.room_id@, seq![owner])
    }

    /// The rooms and the answer follow `join_spec`.
    open spec fn join_step(
        before: Self,
        after: Self,
        room: u128,
        participant: u128,
        r: Option<Result<Seq<u128>, JoinRoomError>>,
    ) -> bool {
        after@ == join_spec(before@, room, participant).0 && r == join_spec(
            before@,
            room,
            participant,
        ).1
    }

    /// The rooms and the answer follow `leave_spec`.
    open spec fn leave_step(
        before: Self,
        after: Self,
        room: u128,
        participant: u128,
        r: Option<Seq<u128>>,
    ) -> bool {
        after@ == leave_spec(before@, room, participant).0 && r == leave_spec(
            before@,
            room,
            participant,
        ).1
    }

    /// Nothing changes; the relay is allowed exactly between two members of
    /// the room, and refused with `ParticipantNotFound` otherwise.
    open spec fn offer_step(
        before: Self,
        after: Self,
        room: u128,
        from: u128,
        to: u128,
        payload: RelaySdp,
        r: Result<(), ErrorCode>,
    ) -> bool {
        relay_checked(before, after, room, from, to, r)
    }

    /// As for an offer.
    open spec fn answer_step(
        before: Self,
        after: Self,
        room: u128,
        from: u128,
        to: u128,
        payload: RelaySdp,
        r: Result<(), ErrorCode>,
    ) -> bool {
        relay_checked(before, after, room, from, to, r)
    }

    /// As for an offer.
    open spec fn ice_step(
        before: Self,
        after: Self,
        room: u128,
        from: u128,
        to: u128,
        payload: RelayIce,
        r: Result<(), ErrorCode>,
    ) -> bool {
        relay_checked(before, after, room, from, to, r)
    }

    fn create_room(&mut self, room_owner: ParticipantId) -> (r: CreateRoomResult)
        ensures
            is_v4(r.room_id@),
            r.self_id == room_owner,
            ids_view(r.participants@) == seq![room_owner@],
            final(self)@ == old(self)@.insert(r.room_id@, seq![room_owner@]),
    {
        self.rooms.create_room(room_owner)
    }

    fn participants(&self, room_id: &RoomId) -> (r: Option<Vec<ParticipantId>>)
        ensures
            match r {
                None => !self@.contains_key(room_id@),
                Some(v) => self@.contains_key(room_id@) && ids_view(v@) == self@[room_id@],
            },
    {
        self.rooms.participants(room_id)
    }

    fn join_room(&mut self, room_id: &RoomId, participant: ParticipantId) -> (r: Option<
        Result<Vec<ParticipantId>, JoinRoomError>,
    >)
        ensures
            final(self)@ == join_spec(old(self)@, room_id@, participant@).0,
            match (r, join_spec(old(self)@, room_id@, participant@).1) {
                (None, None) => true,
                (Some(Ok(v)), Some(Ok(s))) => ids_view(v@) == s,
                (Some(Err(e)), Some(Err(f))) => e == f,
                _ => false,
            },
    {
        self.rooms.join_room(room_id, participant)
    }

    fn leave_room(&mut self, room_id: &RoomId, participant: &ParticipantId) -> (r: Option<
        Vec<ParticipantId>,
    >)
        ensures
            final(self)@ == leave_spec(old(self)@, room_id@, participant@).0,
            match (r, leave_spec(old(self)@, room_id@, participant@).1) {
                (None, None) => true,
                (Some(v), Some(s)) => ids_view(v@) == s,
                _ => false,
            },
    {
        self.rooms.leave_room(room_id, participant)
    }

    fn relay_offer(
        &mut self,
        room_id: &RoomId,
        from: &ParticipantId,
        to: &ParticipantId,
        payload: RelaySdp,
    ) -> (r: Result<(), ErrorCode>)
        ensures
            final(self)@ == old(self)@,
            r is Ok <==> relay_allowed(old(self)@, room_id@, from@, to@),
            r matches Err(e) ==> e == ErrorCode::ParticipantNotFound,
    {
        self.check_relay(room_id, from, to)
    }

    fn relay_answer(
        &mut self,
        room_id: &RoomId,
        from: &ParticipantId,
        to: &ParticipantId,
        payload: RelaySdp,
    ) -> (r: Result<(), ErrorCode>)
        ensures
            final(self)@ == old(self)@,
            r is Ok <==> relay_allowed(old(self)@, room_id@, from@, to@),
            r matches Err(e) ==> e == ErrorCode::ParticipantNotFound,
    {
        self.check_relay(room_id, from, to)
    }

    fn relay_ice_candidate(
        &mut self,
        room_id: &RoomId,
        from: &ParticipantId,
        to: &ParticipantId,
        payload: RelayIce,
    ) -> (r: Result<(), ErrorCode>)
        ensures
            final(self)@ == old(self)@,
            r is Ok <==> relay_allowed(old(self)@, room_id@, from@, to@),
            r matches Err(e) ==> e == ErrorCode::ParticipantNotFound,
    {
        self.check_relay(room_id, from, to)
    }
}

} // verus!
