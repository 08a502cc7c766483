//! Decisions of the engine node that hosts the client: the bounded queue of
//! input events waiting for the next frame, and how an outcome of the
//! pipeline is reported to the engine (a flag, with the error kept for
//! `last_error`). The engine's own types and calls stay outside this crate.
use vstd::prelude::*;

use crate::client_errors::{BridgeError, BridgeErrorState};
use crate::projection::ProjectionError;

verus! {

/// Most input events kept waiting for the next frame.
pub const MAX_PENDING_INPUT_EVENTS: usize = 1024;

/// Input events waiting for the next frame, oldest first, at most
/// `MAX_PENDING_INPUT_EVENTS` of them.
pub struct PendingInputs<T> {
    events: Vec<T>,
}

/// The queue after `event` arrives: when it is full, the oldest event is
/// dropped first.
pub open spec fn pushed<T>(queue: Seq<T>, event: T) -> Seq<T> {
    if queue.len() >= MAX_PENDING_INPUT_EVENTS {
        queue.drop_first().push(event)
    } else {
        queue.push(event)
    }
}

impl<T> PendingInputs<T> {
    #[verifier::type_invariant]
    closed spec fn bounded(self) -> bool {
        self.events@.len() <= MAX_PENDING_INPUT_EVENTS
    }

    /// The waiting events, oldest first.
    pub closed spec fn view(&self) -> Seq<T> {
        self.events@
    }

    /// No waiting event.
    pub fn new() -> (r: Self)
        ensures
            r.view() == Seq::<T>::empty(),
    {
        PendingInputs { events: Vec::new() }
    }

    /// Adds `event`, dropping the oldest one when the queue is full.
    pub fn push(&mut self, event: T)
        ensures
            final(self).view() == pushed(old(self).view(), event),
            final(self).view().len() <= MAX_PENDING_INPUT_EVENTS,
    {
        proof {
            use_type_invariant(&*self);
        }
        let mut events = self.take_all();
        if events.len() >= MAX_PENDING_INPUT_EVENTS {
            events.remove(0);
        }
        events.push(event);
        *self = PendingInputs { events };
    }

    /// Hands out every waiting event, oldest first, and empties the queue.
    pub fn take_all(&mut self) -> (r: Vec<T>)
        ensures
            r@ == old(self).view(),
            final(self).view() == Seq::<T>::empty(),
    {
        let mut current = PendingInputs::new();
        std::mem::swap(&mut current, self);
        let PendingInputs { events } = current;
        events
    }

    /// The number of waiting events.
    pub fn len(&self) -> (r: usize)
        ensures
            r == self.view().len(),
    {
        self.events.len()
    }
}

impl<T> Default for PendingInputs<T> {
    fn default() -> (r: Self)
        ensures
            r.view() == Seq::<T>::empty(),
    {
        PendingInputs::new()
    }
}

/// Reports an outcome of the pipeline to the engine: success is `true`; a
/// failure is kept as the last error and reported as `false`.
pub fn report_outcome(errors: &mut BridgeErrorState, outcome: Result<(), BridgeError>) -> (r: bool)
    ensures
        r == outcome is Ok,
        outcome is Ok ==> final(errors).recorded() == old(errors).recorded(),
        outcome matches Err(e) ==> final(errors).recorded() == Some(e),
{
    match outcome {
        Ok(()) => true,
        Err(e) => {
            errors.record(&e);
            false
        },
    }
}

/// The bridge error that a failed projection becomes.
pub fn projection_failure(error: ProjectionError) -> (r: BridgeError)
    ensures
        r matches BridgeError::ProjectionFailed { reason } && reason@ == error.text(),
{
    BridgeError::ProjectionFailed { reason: error.message() }
}

/// Law: the queue keeps the newest events: after an event arrives it is the
/// last one waiting, the queue never exceeds its bound, and only the oldest
/// event can be lost.
pub proof fn lemma_pushed_keeps_newest<T>(queue: Seq<T>, event: T)
    requires
        queue.len() <= MAX_PENDING_INPUT_EVENTS,
    ensures
        pushed(queue, event).last() == event,
        pushed(queue, event).len() <= MAX_PENDING_INPUT_EVENTS,
        pushed(queue, event).len() == if queue.len() == MAX_PENDING_INPUT_EVENTS {
            queue.len()
        } else {
            queue.len() + 1
        },
        forall|i: int|
            0 <= i < pushed(queue, event).len() - 1 ==> #[trigger] pushed(queue, event)[i] == queue[i
                + queue.len() + 1 - pushed(queue, event).len()],
{
}

} // verus!
