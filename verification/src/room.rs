//! Rooms and their participants, in joining order.
use vstd::prelude::*;
use std::collections::HashMap;

use crate::ids::{is_v4, ParticipantId, RoomId};

verus! {

broadcast use vstd::std_specs::hash::group_hash_axioms;

/// Participants of a room, in the order in which they joined.
pub type ParticipantList = Vec<ParticipantId>;

/// Largest number of participants in one room.
pub const MAX_PARTICIPANTS: usize = 8;

/// The values of a list of participant ids.
pub open spec fn ids_view(v: Seq<ParticipantId>) -> Seq<u128> {
    v.map_values(|p: ParticipantId| p@)
}

/// `ps` with every occurrence of `p` removed, the others kept in order.
pub open spec fn without(ps: Seq<u128>, p: u128) -> Seq<u128>
    decreases ps.len(),
{
    if ps.len() == 0 {
        ps
    } else {
        let rest = without(ps.drop_last(), p);
        if ps.last() == p {
            rest
        } else {
            rest.push(ps.last())
        }
    }
}

/// A room's participant list is valid: not empty, no one twice, and at most
/// `MAX_PARTICIPANTS` members.
pub open spec fn valid_members(ps: Seq<u128>) -> bool {
    &&& 0 < ps.len() <= MAX_PARTICIPANTS
    &&& ps.no_duplicates()
}

/// Every room of the map holds a valid participant list.
pub open spec fn valid_rooms(rooms: Map<u128, Seq<u128>>) -> bool {
    forall|r: u128| #[trigger] rooms.contains_key(r) ==> valid_members(rooms[r])
}

/// What joining does: the rooms afterwards and the answer.
pub open spec fn join_spec(rooms: Map<u128, Seq<u128>>, room: u128, p: u128) -> (
    Map<u128, Seq<u128>>,
    Option<Result<Seq<u128>, JoinRoomError>>,
) {
    if !rooms.contains_key(room) {
        (rooms, None)
    } else {
        let ps = rooms[room];
        if ps.contains(p) {
            (rooms, Some(Ok(ps)))
        } else if ps.len() >= MAX_PARTICIPANTS {
            (rooms, Some(Err(JoinRoomError::RoomFull)))
        } else {
            (rooms.insert(room, ps.push(p)), Some(Ok(ps.push(p))))
        }
    }
}

/// What leaving does: the rooms afterwards and the answer. A room whose last
/// participant leaves is removed.
pub open spec fn leave_spec(rooms: Map<u128, Seq<u128>>, room: u128, p: u128) -> (
    Map<u128, Seq<u128>>,
    Option<Seq<u128>>,
) {
    if !rooms.contains_key(room) {
        (rooms, None)
    } else {
        let rest = without(rooms[room], p);
        if rest.len() == 0 {
            (rooms.remove(room), Some(rest))
        } else {
            (rooms.insert(room, rest), Some(rest))
        }
    }
}

/// Membership in `without(ps, p)`.
pub proof fn lemma_without_contains(ps: Seq<u128>, p: u128, x: u128)
    ensures
        without(ps, p).contains(x) <==> (ps.contains(x) && x != p),
    decreases ps.len(),
{
    if ps.len() > 0 {
        lemma_without_contains(ps.drop_last(), p, x);
        let rest = without(ps.drop_last(), p);
        if ps.contains(x) && x != p {
            let i = choose|i: int| 0 <= i < ps.len() && ps[i] == x;
            if i < ps.len() - 1 {
                assert(ps.drop_last()[i] == x);
            }
        }
        if ps.drop_last().contains(x) {
            let i = choose|i: int| 0 <= i < ps.drop_last().len() && ps.drop_last()[i] == x;
            assert(ps[i] == x);
        }
        if ps.last() != p {
            assert(rest.push(ps.last())[rest.len() as int] == ps.last());
            if rest.contains(x) {
                let i = choose|i: int| 0 <= i < rest.len() && rest[i] == x;
                assert(rest.push(ps.last())[i] == x);
            }
            if rest.push(ps.last()).contains(x) {
                let i = choose|i: int|
                    0 <= i < rest.push(ps.last()).len() && rest.push(ps.last())[i] == x;
                if i < rest.len() {
                    assert(rest[i] == x);
                }
            }
        }
    }
}

/// `without` keeps a list free of duplicates and never makes it longer.
pub proof fn lemma_without_no_duplicates(ps: Seq<u128>, p: u128)
    requires
        ps.no_duplicates(),
    ensures
        without(ps, p).no_duplicates(),
        without(ps, p).len() <= ps.len(),
    decreases ps.len(),
{
    if ps.len() > 0 {
        assert(ps.drop_last().no_duplicates()) by {
            assert forall|i: int, j: int|
                0 <= i < ps.drop_last().len() && 0 <= j < ps.drop_last().len() && i != j
                implies ps.drop_last()[i] != ps.drop_last()[j] by {
                assert(ps[i] != ps[j]);
            }
        }
        lemma_without_no_duplicates(ps.drop_last(), p);
        let rest = without(ps.drop_last(), p);
        if ps.last() != p {
            lemma_without_contains(ps.drop_last(), p, ps.last());
            assert(!ps.drop_last().contains(ps.last())) by {
                if ps.drop_last().contains(ps.last()) {
                    let i = choose|i: int|
                        0 <= i < ps.drop_last().len() && ps.drop_last()[i] == ps.last();
                    assert(ps[i] == ps[ps.len() - 1]);
                }
            }
            let out = rest.push(ps.last());
            assert forall|i: int, j: int|
                0 <= i < out.len() && 0 <= j < out.len() && i != j implies out[i] != out[j] by {
                if i < rest.len() && j < rest.len() {
                    assert(rest[i] != rest[j]);
                } else if i < rest.len() {
                    assert(rest.contains(rest[i]));
                } else if j < rest.len() {
                    assert(rest.contains(rest[j]));
                }
            }
        }
    }
}

/// Removing a participant that is not in the list changes nothing.
pub proof fn lemma_without_absent(ps: Seq<u128>, p: u128)
    requires
        !ps.contains(p),
    ensures
        without(ps, p) == ps,
    decreases ps.len(),
{
    if ps.len() > 0 {
        assert(!ps.drop_last().contains(p)) by {
            if ps.drop_last().contains(p) {
                let i = choose|i: int| 0 <= i < ps.drop_last().len() && ps.drop_last()[i] == p;
                assert(ps[i] == p);
            }
        }
        lemma_without_absent(ps.drop_last(), p);
        assert(ps.last() != p) by {
            assert(ps[ps.len() - 1] == ps.last());
        }
        assert(ps.drop_last().push(ps.last()) =~= ps);
    }
}

/// Result of creating a room.
#[derive(Debug)]
pub struct CreateRoomResult {
    pub room_id: RoomId,
    pub self_id: ParticipantId,
    pub participants: ParticipantList,
}

impl Clone for CreateRoomResult {
    fn clone(&self) -> (r: Self)
        ensures
            r.room_id == self.room_id,
            r.self_id == self.self_id,
            r.participants@ == self.participants@,
    {
        CreateRoomResult {
            room_id: self.room_id,
            self_id: self.self_id,
            participants: clone_ids(&self.participants),
        }
    }
}

/// Why a join was refused.
#[derive(Debug, Clone, Copy, PartialEq, Eq, Structural)]
pub enum JoinRoomError {
    RoomFull,
}

/// Copies a list of participant ids.
pub fn clone_ids(v: &Vec<ParticipantId>) -> (r: Vec<ParticipantId>)
    ensures
        r@ == v@,
{
    let mut out: Vec<ParticipantId> = Vec::new();
    let mut i: usize = 0;
    while i < v.len()
        invariant
            i <= v.len(),
            out@ == v@.take(i as int),
        decreases v.len() - i,
    {
        out.push(v[i]);
        i = i + 1;
        assert(out@ =~= v@.take(i as int));
    }
    assert(v@.take(v.len() as int) =~= v@);
    out
}

/// Whether `p` is in the list.
pub fn contains_id(v: &Vec<ParticipantId>, p: &ParticipantId) -> (r: bool)
    ensures
        r == ids_view(v@).contains(p@),
{
    let mut i: usize = 0;
    while i < v.len()
        invariant
            i <= v.len(),
            forall|j: int| 0 <= j < i ==> v@[j]@ != p@,
        decreases v.len() - i,
    {
        if v[i].as_u128() == p.as_u128() {
            assert(ids_view(v@)[i as int] == p@);
            return true;
        }
        i = i + 1;
    }
    assert(!ids_view(v@).contains(p@)) by {
        if ids_view(v@).contains(p@) {
            let j = choose|j: int| 0 <= j < ids_view(v@).len() && ids_view(v@)[j] == p@;
            assert(v@[j]@ == p@);
        }
    }
    false
}

/// The list without any occurrence of `p`, others kept in order.
fn remove_id(v: &Vec<ParticipantId>, p: &ParticipantId) -> (r: Vec<ParticipantId>)
    ensures
        ids_view(r@) == without(ids_view(v@), p@),
{
    let mut out: Vec<ParticipantId> = Vec::new();
    let mut i: usize = 0;
    while i < v.len()
        invariant
            i <= v.len(),
            ids_view(out@) == without(ids_view(v@.take(i as int)), p@),
        decreases v.len() - i,
    {
        let ghost before = v@.take(i as int);
        assert(ids_view(v@.take(i as int + 1)).drop_last() =~= ids_view(before));
        assert(ids_view(v@.take(i as int + 1)).last() == v@[i as int]@);
        if v[i].as_u128() != p.as_u128() {
            out.push(v[i]);
            assert(ids_view(out@) =~= without(ids_view(before), p@).push(v@[i as int]@));
        }
        i = i + 1;
    }
    assert(v@.take(v.len() as int) =~= v@);
    out
}

/// All rooms, each with its participants in joining order.
pub struct RoomManager {
    rooms: HashMap<u128, ParticipantList>,
}

impl View for RoomManager {
    type V = Map<u128, Seq<u128>>;

    closed spec fn view(&self) -> Map<u128, Seq<u128>> {
        rooms_view(self.rooms@)
    }
}

/// The participant values of stored rooms.
pub open spec fn rooms_view(rooms: Map<u128, ParticipantList>) -> Map<u128, Seq<u128>> {
    rooms.map_values(|v: Vec<ParticipantId>| ids_view(v@))
}

impl Default for RoomManager {
    fn default() -> (r: Self)
        ensures
            valid_rooms(r@),
            r@ == Map::<u128, Seq<u128>>::empty(),
    {
        RoomManager::new()
    }
}

impl RoomManager {
    /// The manager's invariant: every room holds a valid participant list.
    #[verifier::type_invariant]
    closed spec fn wf(self) -> bool {
        valid_rooms(rooms_view(self.rooms@))
    }

    /// A manager without rooms.
    pub fn new() -> (r: Self)
        ensures
            valid_rooms(r@),
            r@ == Map::<u128, Seq<u128>>::empty(),
    {
        let rooms: HashMap<u128, ParticipantList> = HashMap::new();
        assert(rooms_view(rooms@) =~= Map::<u128, Seq<u128>>::empty());
        RoomManager { rooms }
    }

    /// Creates a room with a fresh id whose only participant is `room_owner`.
    pub fn create_room(&mut self, room_owner: ParticipantId) -> (r: CreateRoomResult)
        ensures
            valid_rooms(final(self)@),
            is_v4(r.room_id@),
            r.self_id == room_owner,
            ids_view(r.participants@) == seq![room_owner@],
            final(self)@ == old(self)@.insert(r.room_id@, seq![room_owner@]),
    {
        proof {
            use_type_invariant(&*self);
        }
        let room_id = RoomId::new();
        let self_id = room_owner;
        let mut participants: Vec<ParticipantId> = Vec::new();
        participants.push(self_id);
        let stored = clone_ids(&participants);
        let mut rooms = HashMap::new();
        std::mem::swap(&mut rooms, &mut self.rooms);
        rooms.insert(room_id.as_u128(), stored);
        assert(ids_view(participants@) =~= seq![room_owner@]);
        assert(rooms_view(rooms@) =~= old(self)@.insert(room_id@, seq![room_owner@]));
        assert(seq![room_owner@].no_duplicates());
        self.rooms = rooms;
        CreateRoomResult { room_id, self_id, participants }
    }

    /// Adds `participant` to an existing room and returns its participant
    /// list. A participant already in the room is not added twice; a full
    /// room refuses a newcomer; an unknown room gives `None`.
    pub fn join_room(&mut self, room_id: &RoomId, participant: ParticipantId) -> (r: Option<
        Result<ParticipantList, JoinRoomError>,
    >)
        ensures
            valid_rooms(final(self)@),
            final(self)@ == join_spec(old(self)@, room_id@, participant@).0,
            match (r, join_spec(old(self)@, room_id@, participant@).1) {
                (None, None) => true,
                (Some(Ok(v)), Some(Ok(s))) => ids_view(v@) == s,
                (Some(Err(e)), Some(Err(f))) => e == f,
                _ => false,
            },
    {
        proof {
            use_type_invariant(&*self);
        }
        let key = room_id.as_u128();
        match self.rooms.get(&key) {
            None => None,
            Some(list) => {
                let ghost ps = ids_view(list@);
                assert(self@.contains_key(key) && self@[key] == ps);
                let present = contains_id(list, &participant);
                if !present && list.len() >= MAX_PARTICIPANTS {
                    return Some(Err(JoinRoomError::RoomFull));
                }
                if present {
                    return Some(Ok(clone_ids(list)));
                }
                let mut updated = clone_ids(list);
                updated.push(participant);
                assert(ids_view(updated@) =~= ps.push(participant@));
                let answer = clone_ids(&updated);
                let mut rooms = HashMap::new();
                std::mem::swap(&mut rooms, &mut self.rooms);
                rooms.insert(key, updated);
                assert(rooms_view(rooms@) =~= old(self)@.insert(key, ps.push(participant@)));
                let ghost now = rooms_view(rooms@);
                proof {
                    assert(ps.push(participant@).no_duplicates()) by {
                        let q = ps.push(participant@);
                        assert forall|i: int, j: int|
                            0 <= i < q.len() && 0 <= j < q.len() && i != j implies q[i]
                            != q[j] by {
                            if i < ps.len() && j < ps.len() {
                                assert(ps[i] != ps[j]);
                            } else if i < ps.len() {
                                assert(ps.contains(ps[i]));
                            } else if j < ps.len() {
                                assert(ps.contains(ps[j]));
                            }
                        }
                    }
                    assert forall|r: u128| #[trigger] now.contains_key(r) implies valid_members(
                        now[r],
                    ) by {
                        if r != key {
                            assert(old(self)@.contains_key(r));
                        }
                    }
                }
                self.rooms = rooms;
                Some(Ok(answer))
            },
        }
    }

    /// Removes `participant` from a room and returns the remaining
    /// participants; the room is deleted when nobody is left. An unknown room
    /// gives `None`.
    pub fn leave_room(&mut self, room_id: &RoomId, participant: &ParticipantId) -> (r: Option<
        ParticipantList,
    >)
        ensures
            valid_rooms(final(self)@),
            final(self)@ == leave_spec(old(self)@, room_id@, participant@).0,
            match (r, leave_spec(old(self)@, room_id@, participant@).1) {
                (None, None) => true,
                (Some(v), Some(s)) => ids_view(v@) == s,
                _ => false,
            },
    {
        proof {
            use_type_invariant(&*self);
        }
        let key = room_id.as_u128();
        match self.rooms.get(&key) {
            None => None,
            Some(list) => {
                let ghost ps = ids_view(list@);
                assert(self@.contains_key(key) && self@[key] == ps);
                let rest = remove_id(list, participant);
                proof {
                    lemma_without_no_duplicates(ps, participant@);
                }
                let mut rooms = HashMap::new();
                std::mem::swap(&mut rooms, &mut self.rooms);
                if rest.len() == 0 {
                    rooms.remove(&key);
                    assert(rooms_view(rooms@) =~= old(self)@.remove(key));
                    let ghost now = rooms_view(rooms@);
                    proof {
                        assert forall|r: u128| #[trigger] now.contains_key(r) implies valid_members(
                            now[r],
                        ) by {
                            assert(old(self)@.contains_key(r));
                        }
                    }
                    self.rooms = rooms;
                    return Some(Vec::new());
                }
                let answer = clone_ids(&rest);
                rooms.insert(key, rest);
                assert(rooms_view(rooms@) =~= old(self)@.insert(key, without(ps, participant@)));
                let ghost now = rooms_view(rooms@);
                proof {
                    assert forall|r: u128| #[trigger] now.contains_key(r) implies valid_members(
                        now[r],
                    ) by {
                        if r != key {
                            assert(old(self)@.contains_key(r));
                        }
                    }
                }
                self.rooms = rooms;
                Some(answer)
            },
        }
    }

    /// The participants of a room, or `None` for an unknown room.
    pub fn participants(&self, room_id: &RoomId) -> (r: Option<ParticipantList>)
        ensures
            match r {
                None => !self@.contains_key(room_id@),
                Some(v) => self@.contains_key(room_id@) && ids_view(v@) == self@[room_id@],
            },
    {
        match self.rooms.get(&room_id.as_u128()) {
            None => None,
            Some(list) => Some(clone_ids(list)),
        }
    }
}

/// Law: a participant that joins a room it was not in, and then leaves it,
/// leaves the rooms as they were.
pub proof fn lemma_join_then_leave_restores(rooms: Map<u128, Seq<u128>>, room: u128, p: u128)
    requires
        valid_rooms(rooms),
        rooms.contains_key(room),
        !rooms[room].contains(p),
        join_spec(rooms, room, p).1 matches Some(Ok(_)),
    ensures
        leave_spec(join_spec(rooms, room, p).0, room, p).0 == rooms,
{
    let ps = rooms[room];
    let joined = join_spec(rooms, room, p).0;
    assert(joined[room] == ps.push(p));
    assert(ps.push(p).drop_last() =~= ps);
    lemma_without_absent(ps, p);
    assert(without(ps.push(p), p) == ps);
    assert(leave_spec(joined, room, p).0 =~= rooms);
}

/// Law: joining twice gives the same rooms and the same answer as joining
/// once.
pub proof fn lemma_join_idempotent(rooms: Map<u128, Seq<u128>>, room: u128, p: u128)
    ensures
        join_spec(join_spec(rooms, room, p).0, room, p).0 == join_spec(rooms, room, p).0,
        join_spec(rooms, room, p).1 matches Some(Ok(s)) ==> join_spec(
            join_spec(rooms, room, p).0,
            room,
            p,
        ).1 == Some(Ok::<Seq<u128>, JoinRoomError>(s)),
{
    let once = join_spec(rooms, room, p).0;
    if rooms.contains_key(room) && !rooms[room].contains(p) && rooms[room].len()
        < MAX_PARTICIPANTS {
        assert(once[room] == rooms[room].push(p));
        assert(once[room][rooms[room].len() as int] == p);
        assert(once[room].contains(p));
        assert(once.insert(room, once[room]) =~= once);
    }
}

/// Law: a participant that leaves a room is no longer in it, and everybody
/// else stays, in the same order.
pub proof fn lemma_leave_removes_only_leaver(
    rooms: Map<u128, Seq<u128>>,
    room: u128,
    p: u128,
    q: u128,
)
    requires
        rooms.contains_key(room),
    ensures
        leave_spec(rooms, room, p).1 matches Some(rest) ==> (!rest.contains(p) && (
        rest.contains(q) <==> (rooms[room].contains(q) && q != p))),
{
    lemma_without_contains(rooms[room], p, p);
    lemma_without_contains(rooms[room], p, q);
}

/// Law: leaving keeps the room as long as anybody is left in it, holding
/// exactly the answer given; the room goes away only with its last
/// participant; a participant who is not in the room changes nothing; other
/// rooms are untouched.
pub proof fn lemma_leave_keeps_occupied_room(
    rooms: Map<u128, Seq<u128>>,
    room: u128,
    p: u128,
    other: u128,
)
    requires
        rooms.contains_key(room),
    ensures
        leave_spec(rooms, room, p).1 is Some,
        leave_spec(rooms, room, p).1->0.len() > 0 ==> leave_spec(rooms, room, p).0.contains_key(
            room,
        ) && leave_spec(rooms, room, p).0[room] == leave_spec(rooms, room, p).1->0,
        leave_spec(rooms, room, p).1->0.len() == 0 ==> !leave_spec(
            rooms,
            room,
            p,
        ).0.contains_key(room),
        rooms[room].len() > 0 && !rooms[room].contains(p) ==> leave_spec(rooms, room, p).0
            == rooms && leave_spec(rooms, room, p).1 == Some(rooms[room]),
        other != room ==> (leave_spec(rooms, room, p).0.contains_key(other) == rooms.contains_key(
            other,
        ) && (rooms.contains_key(other) ==> leave_spec(rooms, room, p).0[other] == rooms[other])),
{
    if !rooms[room].contains(p) {
        lemma_without_absent(rooms[room], p);
        if rooms[room].len() > 0 {
            assert(rooms.insert(room, rooms[room]) =~= rooms);
        }
    }
}

/// Law: a newcomer to a room with fewer than `MAX_PARTICIPANTS` members is
/// added after everybody already there, and is told the new list; a full
/// room refuses a newcomer and changes nothing; a member joining again
/// changes nothing and is told the list; an unknown room gives no answer.
pub proof fn lemma_join_appends_newcomer(rooms: Map<u128, Seq<u128>>, room: u128, p: u128)
    ensures
        !rooms.contains_key(room) ==> join_spec(rooms, room, p) == (rooms, None::<
            Result<Seq<u128>, JoinRoomError>,
        >),
        rooms.contains_key(room) && !rooms[room].contains(p) && rooms[room].len()
            < MAX_PARTICIPANTS ==> {
            let after = join_spec(rooms, room, p).0;
            &&& after.contains_key(room)
            &&& after[room].len() == rooms[room].len() + 1
            &&& after[room].subrange(0, rooms[room].len() as int) == rooms[room]
            &&& after[room][rooms[room].len() as int] == p
            &&& join_spec(rooms, room, p).1 == Some(Ok::<Seq<u128>, JoinRoomError>(after[room]))
            &&& forall|r: u128| r != room ==> (after.contains_key(r) == rooms.contains_key(r)
                && (rooms.contains_key(r) ==> after[r] == rooms[r]))
        },
        rooms.contains_key(room) && !rooms[room].contains(p) && rooms[room].len()
            >= MAX_PARTICIPANTS ==> join_spec(rooms, room, p) == (rooms, Some(
            Err::<Seq<u128>, JoinRoomError>(JoinRoomError::RoomFull),
        )),
        rooms.contains_key(room) && rooms[room].contains(p) ==> join_spec(rooms, room, p) == (
            rooms,
            Some(Ok::<Seq<u128>, JoinRoomError>(rooms[room])),
        ),
{
    if rooms.contains_key(room) && !rooms[room].contains(p) && rooms[room].len()
        < MAX_PARTICIPANTS {
        assert(rooms[room].push(p).subrange(0, rooms[room].len() as int) =~= rooms[room]);
    }
}

} // verus!
