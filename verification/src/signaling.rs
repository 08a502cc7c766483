//! One-to-one relaying of WebRTC signaling (offer, answer, ICE candidate)
//! between the participants of a room.
use vstd::prelude::*;
use std::collections::HashMap;

use crate::api::{ErrorCode, RelayIce, RelaySdp, ServerEvent, ServerToClient};
use crate::ids::{uuid_text, ParticipantId};
use crate::room::ids_view;

verus! {

broadcast use vstd::std_specs::hash::group_hash_axioms;

/// The events of a list of messages.
pub open spec fn events_view(v: Seq<ServerToClient>) -> Seq<ServerEvent> {
    v.map_values(|m: ServerToClient| m@)
}

/// The events, in order, that a delivery log holds for recipient `p`.
pub open spec fn inbox(log: Seq<(u128, ServerEvent)>, p: u128) -> Seq<ServerEvent>
    decreases log.len(),
{
    if log.len() == 0 {
        Seq::empty()
    } else {
        let rest = inbox(log.drop_last(), p);
        if log.last().0 == p {
            rest.push(log.last().1)
        } else {
            rest
        }
    }
}

/// Delivery point for signaling events addressed to one participant.
pub trait DeliverySink {
    /// Everything handed to this sink so far: recipient and event, in order.
    spec fn delivered(&self) -> Seq<(u128, ServerEvent)>;

    fn send(&mut self, to: &ParticipantId, message: ServerToClient)
        ensures
            final(self).delivered() == old(self).delivered().push((to@, message@)),
    ;
}

/// Messages kept per recipient, in the order in which they were delivered.
pub struct Mailboxes {
    boxes: HashMap<u128, Vec<ServerToClient>>,
    log: Ghost<Seq<(u128, ServerEvent)>>,
}

impl Mailboxes {
    /// Everything delivered so far.
    pub closed spec fn log(&self) -> Seq<(u128, ServerEvent)> {
        self.log@
    }

    /// The stored messages agree with the log: a recipient has a mailbox
    /// exactly when something was delivered to it, and the mailbox holds
    /// those events.
    #[verifier::type_invariant]
    closed spec fn wf(self) -> bool {
        forall|p: u128|
            (#[trigger] self.boxes@.contains_key(p) <==> inbox(self.log@, p).len() > 0) && (
            self.boxes@.contains_key(p) ==> events_view(self.boxes@[p]@) == inbox(self.log@, p))
    }

    /// No mailbox and an empty log.
    pub fn new() -> (r: Self)
        ensures
            r.log() == Seq::<(u128, ServerEvent)>::empty(),
    {
        Mailboxes { boxes: HashMap::new(), log: Ghost(Seq::empty()) }
    }

    /// Appends `message` to the mailbox of `to`.
    pub fn deliver(&mut self, to: &ParticipantId, message: ServerToClient)
        ensures
            final(self).log() == old(self).log().push((to@, message@)),
    {
        let mut current = Mailboxes::new();
        std::mem::swap(&mut current, self);
        proof {
            use_type_invariant(&current);
        }
        let Mailboxes { mut boxes, log } = current;
        let key = to.as_u128();
        let ghost ev = message@;
        let ghost new_log = log@.push((key, ev));
        let mut list = match boxes.remove(&key) {
            Some(v) => v,
            None => Vec::new(),
        };
        list.push(message);
        assert(events_view(list@) =~= inbox(log@, key).push(ev));
        boxes.insert(key, list);
        assert forall|p: u128|
            (#[trigger] boxes@.contains_key(p) <==> inbox(new_log, p).len() > 0) && (
            boxes@.contains_key(p) ==> events_view(boxes@[p]@) == inbox(new_log, p)) by {
            assert(new_log.drop_last() =~= log@);
        }
        *self = Mailboxes { boxes, log: Ghost(new_log) };
    }

    /// The messages delivered to `participant`, if any.
    pub fn messages_for(&self, participant: &ParticipantId) -> (r: Option<&[ServerToClient]>)
        ensures
            r is Some <==> inbox(self.log(), participant@).len() > 0,
            r matches Some(s) ==> events_view(s@) == inbox(self.log(), participant@),
    {
        proof {
            use_type_invariant(self);
        }
        let key = participant.as_u128();
        assert(self.boxes@.contains_key(key) <==> inbox(self.log@, key).len() > 0);
        match self.boxes.get(&key) {
            Some(v) => Some(v.as_slice()),
            None => None,
        }
    }
}

/// In-memory sink that records what was sent to whom.
pub struct MockDeliverySink {
    boxes: Mailboxes,
}

impl MockDeliverySink {
    /// A sink with nothing recorded.
    pub fn new() -> (r: Self)
        ensures
            r.delivered() == Seq::<(u128, ServerEvent)>::empty(),
    {
        MockDeliverySink { boxes: Mailboxes::new() }
    }

    /// What was sent to `participant`, in order, if anything.
    pub fn messages_for(&self, participant: &ParticipantId) -> (r: Option<&[ServerToClient]>)
        ensures
            r is Some <==> inbox(self.delivered(), participant@).len() > 0,
            r matches Some(s) ==> events_view(s@) == inbox(self.delivered(), participant@),
    {
        self.boxes.messages_for(participant)
    }
}

impl Default for MockDeliverySink {
    fn default() -> (r: Self)
        ensures
            r.delivered() == Seq::<(u128, ServerEvent)>::empty(),
    {
        MockDeliverySink::new()
    }
}

impl DeliverySink for MockDeliverySink {
    closed spec fn delivered(&self) -> Seq<(u128, ServerEvent)> {
        self.boxes.log()
    }

    fn send(&mut self, to: &ParticipantId, message: ServerToClient) {
        self.boxes.deliver(to, message);
    }
}

/// Whether `p` is in the list.
pub fn contains_participant(list: &[ParticipantId], p: &ParticipantId) -> (r: bool)
    ensures
        r == ids_view(list@).contains(p@),
{
    let mut i: usize = 0;
    while i < list.len()
        invariant
            i <= list@.len(),
            forall|j: int| 0 <= j < i ==> list@[j]@ != p@,
        decreases list@.len() - i,
    {
        if list[i].as_u128() == p.as_u128() {
            assert(ids_view(list@)[i as int] == p@);
            return true;
        }
        i = i + 1;
    }
    assert(!ids_view(list@).contains(p@)) by {
        if ids_view(list@).contains(p@) {
            let j = choose|j: int| 0 <= j < ids_view(list@).len() && ids_view(list@)[j] == p@;
            assert(list@[j]@ == p@);
        }
    }
    false
}

/// The offer event that `to` receives: it names the sender and carries no
/// recipient.
pub open spec fn offer_event(from: u128, sdp: Seq<char>) -> ServerEvent {
    ServerEvent::Offer { from: uuid_text(from), sdp }
}

/// The answer event that the recipient receives.
pub open spec fn answer_event(from: u128, sdp: Seq<char>) -> ServerEvent {
    ServerEvent::Answer { from: uuid_text(from), sdp }
}

/// The ICE candidate event that the recipient receives.
pub open spec fn ice_event(from: u128, candidate: Seq<char>) -> ServerEvent {
    ServerEvent::IceCandidate { from: uuid_text(from), candidate }
}

/// Both the sender and the recipient are members.
pub open spec fn both_members(participants: Seq<u128>, from: u128, to: u128) -> bool {
    participants.contains(from) && participants.contains(to)
}

/// Shapes the offer event: it carries `from` and no `to`.
pub fn shape_offer_event(from: &ParticipantId, payload: RelaySdp) -> (r: ServerToClient)
    ensures
        r@ == offer_event(from@, payload.sdp@),
{
    ServerToClient::Offer { from: from.to_string(), payload }
}

/// Shapes the answer event.
pub fn shape_answer_event(from: &ParticipantId, payload: RelaySdp) -> (r: ServerToClient)
    ensures
        r@ == answer_event(from@, payload.sdp@),
{
    ServerToClient::Answer { from: from.to_string(), payload }
}

/// Shapes the ICE candidate event.
pub fn shape_ice_event(from: &ParticipantId, payload: RelayIce) -> (r: ServerToClient)
    ensures
        r@ == ice_event(from@, payload.candidate@),
{
    ServerToClient::IceCandidate { from: from.to_string(), payload }
}

/// Delivers an offer to `to` only.
pub fn relay_offer(
    delivery: &mut impl DeliverySink,
    from: &ParticipantId,
    to: &ParticipantId,
    payload: RelaySdp,
)
    ensures
        final(delivery).delivered() == old(delivery).delivered().push(
            (to@, offer_event(from@, payload.sdp@)),
        ),
{
    let message = shape_offer_event(from, payload);
    delivery.send(to, message);
}

/// Delivers an answer to `to` only.
pub fn relay_answer(
    delivery: &mut impl DeliverySink,
    from: &ParticipantId,
    to: &ParticipantId,
    payload: RelaySdp,
)
    ensures
        final(delivery).delivered() == old(delivery).delivered().push(
            (to@, answer_event(from@, payload.sdp@)),
        ),
{
    let message = shape_answer_event(from, payload);
    delivery.send(to, message);
}

/// Delivers an ICE candidate to `to` only.
pub fn relay_ice_candidate(
    delivery: &mut impl DeliverySink,
    from: &ParticipantId,
    to: &ParticipantId,
    payload: RelayIce,
)
    ensures
        final(delivery).delivered() == old(delivery).delivered().push(
            (to@, ice_event(from@, payload.candidate@)),
        ),
{
    let message = shape_ice_event(from, payload);
    delivery.send(to, message);
}

/// Checks that sender and recipient are both in the participant list.
fn validate_membership(participants: &[ParticipantId], from: &ParticipantId, to: &ParticipantId) -> (r:
    Result<(), ErrorCode>)
    ensures
        r is Ok <==> both_members(ids_view(participants@), from@, to@),
        r matches Err(e) ==> e == ErrorCode::ParticipantNotFound,
{
    if contains_participant(participants, from) && contains_participant(participants, to) {
        Ok(())
    } else {
        Err(ErrorCode::ParticipantNotFound)
    }
}

/// Delivers an answer after checking that sender and recipient are members;
/// otherwise delivers nothing and reports `ParticipantNotFound`.
pub fn relay_answer_checked(
    delivery: &mut impl DeliverySink,
    participants: &[ParticipantId],
    from: &ParticipantId,
    to: &ParticipantId,
    payload: RelaySdp,
) -> (r: Result<(), ErrorCode>)
    ensures
        r is Ok <==> both_members(ids_view(participants@), from@, to@),
        r matches Err(e) ==> e == ErrorCode::ParticipantNotFound,
        final(delivery).delivered() == if r is Ok {
            old(delivery).delivered().push((to@, answer_event(from@, payload.sdp@)))
        } else {
            old(delivery).delivered()
        },
{
    validate_membership(participants, from, to)?;
    relay_answer(delivery, from, to, payload);
    Ok(())
}

/// Delivers an offer after checking that sender and recipient are members;
/// otherwise delivers nothing and reports `ParticipantNotFound`.
pub fn relay_offer_checked(
    delivery: &mut impl DeliverySink,
    participants: &[ParticipantId],
    from: &ParticipantId,
    to: &ParticipantId,
    payload: RelaySdp,
) -> (r: Result<(), ErrorCode>)
    ensures
        r is Ok <==> both_members(ids_view(participants@), from@, to@),
        r matches Err(e) ==> e == ErrorCode::ParticipantNotFound,
        final(delivery).delivered() == if r is Ok {
            old(delivery).delivered().push((to@, offer_event(from@, payload.sdp@)))
        } else {
            old(delivery).delivered()
        },
{
    validate_membership(participants, from, to)?;
    relay_offer(delivery, from, to, payload);
    Ok(())
}

/// Delivers an ICE candidate after checking that sender and recipient are
/// members; otherwise delivers nothing and reports `ParticipantNotFound`.
pub fn relay_ice_candidate_checked(
    delivery: &mut impl DeliverySink,
    participants: &[ParticipantId],
    from: &ParticipantId,
    to: &ParticipantId,
    payload: RelayIce,
) -> (r: Result<(), ErrorCode>)
    ensures
        r is Ok <==> both_members(ids_view(participants@), from@, to@),
        r matches Err(e) ==> e == ErrorCode::ParticipantNotFound,
        final(delivery).delivered() == if r is Ok {
            old(delivery).delivered().push((to@, ice_event(from@, payload.candidate@)))
        } else {
            old(delivery).delivered()
        },
{
    validate_membership(participants, from, to)?;
    relay_ice_candidate(delivery, from, to, payload);
    Ok(())
}

/// Law: a relayed message reaches its recipient and nobody else: the inbox of
/// every other participant is unchanged.
pub proof fn lemma_relay_reaches_only_recipient(
    log: Seq<(u128, ServerEvent)>,
    to: u128,
    ev: ServerEvent,
    other: u128,
)
    ensures
        inbox(log.push((to, ev)), to) == inbox(log, to).push(ev),
        other != to ==> inbox(log.push((to, ev)), other) == inbox(log, other),
{
    assert(log.push((to, ev)).drop_last() =~= log);
}

} // verus!
