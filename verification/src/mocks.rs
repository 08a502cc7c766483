//! A core that answers with preset results and records every call, for
//! exercising the WebSocket layer.
use vstd::prelude::*;
use std::collections::HashMap;

use crate::api::{ErrorCode, RelayIce, RelaySdp};
use crate::core_api::{join_answer_view, leave_answer_view, CoreApi};
use crate::ids::{ParticipantId, RoomId};
use crate::room::{clone_ids, ids_view, CreateRoomResult, JoinRoomError};

verus! {

broadcast use vstd::std_specs::hash::group_hash_axioms;

/// The values of recorded (room, participant) calls.
pub open spec fn pair_calls_view(calls: Seq<(RoomId, ParticipantId)>) -> Seq<(u128, u128)> {
    calls.map_values(|c: (RoomId, ParticipantId)| (c.0@, c.1@))
}

/// The values of recorded relay calls.
pub open spec fn relay_calls_view<P>(calls: Seq<(RoomId, ParticipantId, ParticipantId, P)>) -> Seq<
    (u128, u128, u128, P),
> {
    calls.map_values(|c: (RoomId, ParticipantId, ParticipantId, P)| (c.0@, c.1@, c.2@, c.3))
}

/// The answer of a preset relay result: the preset, or `Ok` when none is set.
pub open spec fn preset_relay(preset: Option<Result<(), ErrorCode>>) -> Result<(), ErrorCode> {
    match preset {
        Some(res) => res,
        None => Ok(()),
    }
}

/// The answer of the mock's `join_room` for `participant`: the preset
/// answer, where a preset empty list stands for the created room's members
/// (its owner when it has none) followed by the joiner.
pub open spec fn mock_join_answer(m: MockCore, participant: u128) -> Option<
    Result<Seq<u128>, JoinRoomError>,
> {
    match join_answer_view(m.join_room_result) {
        Some(Ok(s)) if s.len() == 0 => {
            let base = ids_view(m.create_room_result.participants@);
            let base = if base.len() == 0 {
                seq![m.create_room_result.self_id@]
            } else {
                base
            };
            Some(Ok(base.push(participant)))
        },
        other => other,
    }
}

fn clone_join_answer(r: &Option<Result<Vec<ParticipantId>, JoinRoomError>>) -> (c: Option<
    Result<Vec<ParticipantId>, JoinRoomError>,
>)
    ensures
        join_answer_view(c) == join_answer_view(*r),
{
    match r {
        None => None,
        Some(Ok(v)) => Some(Ok(clone_ids(v))),
        Some(Err(e)) => Some(Err(*e)),
    }
}

fn clone_leave_answer(r: &Option<Vec<ParticipantId>>) -> (c: Option<Vec<ParticipantId>>)
    ensures
        leave_answer_view(c) == leave_answer_view(*r),
{
    match r {
        None => None,
        Some(v) => Some(clone_ids(v)),
    }
}

/// Core that returns preset values and records its calls. The owner of a
/// created room, and a joiner when the preset join answer is an empty list,
/// are taken from the call.
#[derive(Debug)]
pub struct MockCore {
    pub create_room_result: CreateRoomResult,
    pub create_room_calls: Vec<ParticipantId>,
    pub join_room_result: Option<Result<Vec<ParticipantId>, JoinRoomError>>,
    pub join_room_calls: Vec<(RoomId, ParticipantId)>,
    pub leave_room_result: Option<Vec<ParticipantId>>,
    pub leave_room_calls: Vec<(RoomId, ParticipantId)>,
    pub relay_offer_calls: Vec<(RoomId, ParticipantId, ParticipantId, RelaySdp)>,
    pub relay_offer_result: Option<Result<(), ErrorCode>>,
    pub relay_answer_calls: Vec<(RoomId, ParticipantId, ParticipantId, RelaySdp)>,
    pub relay_answer_result: Option<Result<(), ErrorCode>>,
    pub relay_ice_calls: Vec<(RoomId, ParticipantId, ParticipantId, RelayIce)>,
    pub relay_ice_result: Option<Result<(), ErrorCode>>,
    pub participants_map: HashMap<u128, Vec<ParticipantId>>,
}

impl MockCore {
    /// A mock whose `create_room` answers `create_room_result`, with no other
    /// preset answer and no call recorded.
    pub fn new(create_room_result: CreateRoomResult) -> (r: Self)
        ensures
            r.create_room_result == create_room_result,
            r.create_room_calls@.len() == 0,
            r.join_room_result is None,
            r.join_room_calls@.len() == 0,
            r.leave_room_result is None,
            r.leave_room_calls@.len() == 0,
            r.relay_offer_calls@.len() == 0,
            r.relay_offer_result is None,
            r.relay_answer_calls@.len() == 0,
            r.relay_answer_result is None,
            r.relay_ice_calls@.len() == 0,
            r.relay_ice_result is None,
            r.participants_map@ == Map::<u128, Vec<ParticipantId>>::empty(),
    {
        MockCore {
            create_room_result,
            create_room_calls: Vec::new(),
            join_room_result: None,
            join_room_calls: Vec::new(),
            leave_room_result: None,
            leave_room_calls: Vec::new(),
            relay_offer_calls: Vec::new(),
            relay_offer_result: None,
            relay_answer_calls: Vec::new(),
            relay_answer_result: None,
            relay_ice_calls: Vec::new(),
            relay_ice_result: None,
            participants_map: HashMap::new(),
        }
    }

    /// Presets the answer of `join_room`.
    pub fn with_join_result(self, result: Option<Result<Vec<ParticipantId>, JoinRoomError>>) -> (r:
        Self)
        ensures
            r == (MockCore { join_room_result: result, ..self }),
    {
        let mut s = self;
        s.join_room_result = result;
        s
    }

    /// Presets the answer of `leave_room`.
    pub fn with_leave_result(self, result: Option<Vec<ParticipantId>>) -> (r: Self)
        ensures
            r == (MockCore { leave_room_result: result, ..self }),
    {
        let mut s = self;
        s.leave_room_result = result;
        s
    }

    /// Presets the answer of `relay_offer`.
    pub fn with_relay_offer_result(self, result: Result<(), ErrorCode>) -> (r: Self)
        ensures
            r == (MockCore { relay_offer_result: Some(result), ..self }),
    {
        let mut s = self;
        s.relay_offer_result = Some(result);
        s
    }

    /// Presets the answer of `relay_answer`.
    pub fn with_relay_answer_result(self, result: Result<(), ErrorCode>) -> (r: Self)
        ensures
            r == (MockCore { relay_answer_result: Some(result), ..self }),
    {
        let mut s = self;
        s.relay_answer_result = Some(result);
        s
    }

    /// Presets the answer of `relay_ice_candidate`.
    pub fn with_relay_ice_result(self, result: Result<(), ErrorCode>) -> (r: Self)
        ensures
            r == (MockCore { relay_ice_result: Some(result), ..self }),
    {
        let mut s = self;
        s.relay_ice_result = Some(result);
        s
    }

    /// Presets the participants that `participants` reports for a room.
    pub fn with_participants(self, room_id: RoomId, participants: Vec<ParticipantId>) -> (r: Self)
        ensures
            r.participants_map@ == self.participants_map@.insert(room_id@, participants),
            r.create_room_result == self.create_room_result,
            r.join_room_result == self.join_room_result,
            r.leave_room_result == self.leave_room_result,
    {
        let mut s = self;
        s.participants_map.insert(room_id.as_u128(), participants);
        s
    }
}

impl CoreApi for MockCore {
    /// Records the owner, answers the preset room with the owner as self
    /// and as sole member when the preset has none, and keeps that answer as
    /// the preset; nothing else changes.
    open spec fn create_step(before: Self, after: Self, owner: u128, r: CreateRoomResult) -> bool {
        &&& ids_view(after.create_room_calls@) == ids_view(before.create_room_calls@).push(owner)
        &&& r.room_id == before.create_room_result.room_id
        &&& r.self_id@ == owner
        &&& ids_view(r.participants@) == if before.create_room_result.participants@.len() == 0 {
            seq![owner]
        } else {
            ids_view(before.create_room_result.participants@)
        }
        &&& after.create_room_result.room_id == r.room_id
        &&& after.create_room_result.self_id == r.self_id
        &&& after.create_room_result.participants@ == r.participants@
        &&& after == (MockCore {
            create_room_calls: after.create_room_calls,
            create_room_result: after.create_room_result,
            ..before
        })
    }

    /// Records the call and answers `mock_join_answer`; nothing else changes.
    open spec fn join_step(
        before: Self,
        after: Self,
        room: u128,
        participant: u128,
        r: Option<Result<Seq<u128>, JoinRoomError>>,
    ) -> bool {
        &&& pair_calls_view(after.join_room_calls@) == pair_calls_view(before.join_room_calls@).push(
            (room, participant),
        )
        &&& r == mock_join_answer(before, participant)
        &&& after == (MockCore { join_room_calls: after.join_room_calls, ..before })
    }

    /// Records the call and answers the preset; nothing else changes.
    open spec fn leave_step(
        before: Self,
        after: Self,
        room: u128,
        participant: u128,
        r: Option<Seq<u128>>,
    ) -> bool {
        &&& pair_calls_view(after.leave_room_calls@) == pair_calls_view(before.leave_room_calls@).push(
            (room, participant),
        )
        &&& r == leave_answer_view(before.leave_room_result)
        &&& after == (MockCore { leave_room_calls: after.leave_room_calls, ..before })
    }

    /// Records the call and answers the preset (`Ok` when none); nothing
    /// else changes.
    open spec fn offer_step(
        before: Self,
        after: Self,
        room: u128,
        from: u128,
        to: u128,
        payload: RelaySdp,
        r: Result<(), ErrorCode>,
    ) -> bool {
        &&& relay_calls_view(after.relay_offer_calls@) == relay_calls_view(
            before.relay_offer_calls@,
        ).push((room, from, to, payload))
        &&& r == preset_relay(before.relay_offer_result)
        &&& after == (MockCore { relay_offer_calls: after.relay_offer_calls, ..before })
    }

    /// Records the call and answers the preset (`Ok` when none); nothing
    /// else changes.
    open spec fn answer_step(
        before: Self,
        after: Self,
        room: u128,
        from: u128,
        to: u128,
        payload: RelaySdp,
        r: Result<(), ErrorCode>,
    ) -> bool {
        &&& relay_calls_view(after.relay_answer_calls@) == relay_calls_view(
            before.relay_answer_calls@,
        ).push((room, from, to, payload))
        &&& r == preset_relay(before.relay_answer_result)
        &&& after == (MockCore { relay_answer_calls: after.relay_answer_calls, ..before })
    }

    /// Records the call and answers the preset (`Ok` when none); nothing
    /// else changes.
    open spec fn ice_step(
        before: Self,
        after: Self,
        room: u128,
        from: u128,
        to: u128,
        payload: RelayIce,
        r: Result<(), ErrorCode>,
    ) -> bool {
        &&& relay_calls_view(after.relay_ice_calls@) == relay_calls_view(
            before.relay_ice_calls@,
        ).push((room, from, to, payload))
        &&& r == preset_relay(before.relay_ice_result)
        &&& after == (MockCore { relay_ice_calls: after.relay_ice_calls, ..before })
    }

    fn create_room(&mut self, room_owner: ParticipantId) -> (r: CreateRoomResult) {
        let ghost before = *self;
        self.create_room_calls.push(room_owner);
        let mut res = self.create_room_result.clone();
        res.self_id = room_owner;
        if res.participants.len() == 0 {
            res.participants.push(room_owner);
            assert(ids_view(res.participants@) =~= seq![room_owner@]);
        }
        self.create_room_result = res.clone();
        assert(ids_view(self.create_room_calls@) =~= ids_view(before.create_room_calls@).push(
            room_owner@,
        ));
        res
    }

    fn participants(&self, room_id: &RoomId) -> (r: Option<Vec<ParticipantId>>)
        ensures
            match r {
                None => !self.participants_map@.contains_key(room_id@),
                Some(v) => self.participants_map@.contains_key(room_id@) && v@
                    == self.participants_map@[room_id@]@,
            },
    {
        match self.participants_map.get(&room_id.as_u128()) {
            Some(v) => Some(clone_ids(v)),
            None => None,
        }
    }

    fn join_room(&mut self, room_id: &RoomId, participant: ParticipantId) -> (r: Option<
        Result<Vec<ParticipantId>, JoinRoomError>,
    >) {
        let ghost before = *self;
        self.join_room_calls.push((*room_id, participant));
        assert(pair_calls_view(self.join_room_calls@) =~= pair_calls_view(
            before.join_room_calls@,
        ).push((room_id@, participant@)));
        let preset = clone_join_answer(&self.join_room_result);
        match preset {
            Some(Ok(v)) => {
                assert(ids_view(v@).len() == v@.len());
                if v.len() == 0 {
                    let mut participants = clone_ids(&self.create_room_result.participants);
                    if participants.len() == 0 {
                        participants.push(self.create_room_result.self_id);
                        assert(ids_view(participants@) =~= seq![
                            self.create_room_result.self_id@,
                        ]);
                    }
                    let ghost base = ids_view(participants@);
                    participants.push(participant);
                    assert(ids_view(participants@) =~= base.push(participant@));
                    Some(Ok(participants))
                } else {
                    Some(Ok(v))
                }
            },
            other => other,
        }
    }

    fn leave_room(&mut self, room_id: &RoomId, participant: &ParticipantId) -> (r: Option<
        Vec<ParticipantId>,
    >) {
        let ghost before = *self;
        self.leave_room_calls.push((*room_id, *participant));
        assert(pair_calls_view(self.leave_room_calls@) =~= pair_calls_view(
            before.leave_room_calls@,
        ).push((room_id@, participant@)));
        clone_leave_answer(&self.leave_room_result)
    }

    fn relay_offer(
        &mut self,
        room_id: &RoomId,
        from: &ParticipantId,
        to: &ParticipantId,
        payload: RelaySdp,
    ) -> (r: Result<(), ErrorCode>) {
        let ghost before = *self;
        let ghost p = payload;
        self.relay_offer_calls.push((*room_id, *from, *to, payload));
        assert(relay_calls_view(self.relay_offer_calls@) =~= relay_calls_view(
            before.relay_offer_calls@,
        ).push((room_id@, from@, to@, p)));
        match self.relay_offer_result {
            Some(res) => res,
            None => Ok(()),
        }
    }

    fn relay_answer(
        &mut self,
        room_id: &RoomId,
        from: &ParticipantId,
        to: &ParticipantId,
        payload: RelaySdp,
    ) -> (r: Result<(), ErrorCode>) {
        let ghost before = *self;
        let ghost p = payload;
        self.relay_answer_calls.push((*room_id, *from, *to, payload));
        assert(relay_calls_view(self.relay_answer_calls@) =~= relay_calls_view(
            before.relay_answer_calls@,
        ).push((room_id@, from@, to@, p)));
        match self.relay_answer_result {
            Some(res) => res,
            None => Ok(()),
        }
    }

    fn relay_ice_candidate(
        &mut self,
        room_id: &RoomId,
        from: &ParticipantId,
        to: &ParticipantId,
        payload: RelayIce,
    ) -> (r: Result<(), ErrorCode>) {
        let ghost before = *self;
        let ghost p = payload;
        self.relay_ice_calls.push((*room_id, *from, *to, payload));
        assert(relay_calls_view(self.relay_ice_calls@) =~= relay_calls_view(
            before.relay_ice_calls@,
        ).push((room_id@, from@, to@, p)));
        match self.relay_ice_result {
            Some(res) => res,
            None => Ok(()),
        }
    }
}

} // verus!
