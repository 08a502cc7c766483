//! Where the WebSocket layer sends what it has to say: to its own client, or
//! to particular participants.
use vstd::prelude::*;

use crate::api::{ServerEvent, ServerToClient};
use crate::ids::ParticipantId;
use crate::signaling::{events_view, inbox, Mailboxes};

verus! {

/// Outgoing messages to the connection's own client.
pub trait OutSink: Sized {
    /// Whether the sink keeps the record `sent_events`; a sink that does not
    /// say keeps none.
    open spec fn keeps_record() -> bool {
        false
    }

    /// What the sink was given, in order, where it keeps a record.
    open spec fn sent_events(&self) -> Seq<ServerEvent> {
        Seq::empty()
    }

    fn send(&mut self, message: ServerToClient)
        ensures
            Self::keeps_record() ==> final(self).sent_events() == old(self).sent_events().push(
                message@,
            ),
    ;
}

/// Messages addressed to particular participants.
pub trait BroadcastSink: Sized {
    /// Whether the sink keeps the record `delivered_events`; a sink that
    /// does not say keeps none.
    open spec fn keeps_record() -> bool {
        false
    }

    /// What the sink was given, with its recipient, in order, where it
    /// keeps a record.
    open spec fn delivered_events(&self) -> Seq<(u128, ServerEvent)> {
        Seq::empty()
    }

    fn send_to(&mut self, to: &ParticipantId, message: ServerToClient)
        ensures
            Self::keeps_record() ==> final(self).delivered_events() == old(
                self,
            ).delivered_events().push((to@, message@)),
    ;
}

/// Sink that records the messages it is given.
#[derive(Default, Debug)]
pub struct RecordingSink {
    pub sent: Vec<ServerToClient>,
}

impl OutSink for RecordingSink {
    open spec fn keeps_record() -> bool {
        true
    }

    /// The events of the recorded messages.
    open spec fn sent_events(&self) -> Seq<ServerEvent> {
        events_view(self.sent@)
    }

    fn send(&mut self, message: ServerToClient)
        ensures
            final(self).sent@ == old(self).sent@.push(message),
    {
        let ghost before = self.sent@;
        self.sent.push(message);
        assert(events_view(self.sent@) =~= events_view(before).push(message@));
    }
}

/// Broadcast sink that records the messages per recipient.
pub struct RecordingBroadcastSink {
    boxes: Mailboxes,
}

impl RecordingBroadcastSink {
    /// Everything sent so far: recipient and event, in order.
    pub closed spec fn broadcasts(&self) -> Seq<(u128, ServerEvent)> {
        self.boxes.log()
    }

    /// A sink with nothing recorded.
    pub fn new() -> (r: Self)
        ensures
            r.broadcasts() == Seq::<(u128, ServerEvent)>::empty(),
    {
        RecordingBroadcastSink { boxes: Mailboxes::new() }
    }

    /// What was sent to `participant`, in order, if anything.
    pub fn messages_for(&self, participant: &ParticipantId) -> (r: Option<&[ServerToClient]>)
        ensures
            r is Some <==> inbox(self.broadcasts(), participant@).len() > 0,
            r matches Some(s) ==> events_view(s@) == inbox(self.broadcasts(), participant@),
    {
        self.boxes.messages_for(participant)
    }
}

impl Default for RecordingBroadcastSink {
    fn default() -> (r: Self)
        ensures
            r.broadcasts() == Seq::<(u128, ServerEvent)>::empty(),
    {
        RecordingBroadcastSink::new()
    }
}

impl BroadcastSink for RecordingBroadcastSink {
    open spec fn keeps_record() -> bool {
        true
    }

    open spec fn delivered_events(&self) -> Seq<(u128, ServerEvent)> {
        self.broadcasts()
    }

    fn send_to(&mut self, to: &ParticipantId, message: ServerToClient)
        ensures
            final(self).broadcasts() == old(self).broadcasts().push((to@, message@)),
    {
        self.boxes.deliver(to, message);
    }
}

/// Broadcast sink that discards what it is given.
#[derive(Debug, Default, Clone, Copy)]
pub struct NoopBroadcastSink;

impl BroadcastSink for NoopBroadcastSink {
    fn send_to(&mut self, to: &ParticipantId, message: ServerToClient) {
    }
}

} // verus!
