use vstd::prelude::*;

use crate::ident::{IdModel, Identifier};

verus! {

/// What an event is, mathematically: its identifier and its cancellation flag.
pub struct EventState {
    pub id: IdModel,
    pub cancelled: bool,
}

/// The state an event is in after `cancel`.
pub open spec fn cancelled(e: EventState) -> EventState {
    EventState { cancelled: true, ..e }
}

/// Cancelling twice leaves an event as cancelling once does: flag set,
/// identifier unchanged.
pub proof fn lemma_cancel_idempotent(e: EventState)
    ensures
        cancelled(cancelled(e)) == cancelled(e),
        cancelled(e).cancelled,
        cancelled(e).id == e.id,
{
}

/// The module's own event: an identifier and a cancellation flag.
#[derive(Debug)]
pub struct CustomEvent {
    pub id: Identifier,
    pub cancelled: bool,
}

impl View for CustomEvent {
    type V = EventState;

    open spec fn view(&self) -> EventState {
        EventState { id: self.id@, cancelled: self.cancelled }
    }
}

impl CustomEvent {
    /// A fresh event under `id`, not cancelled.
    pub fn new(id: Identifier) -> (r: CustomEvent)
        ensures
            r@ == (EventState { id: id@, cancelled: false }),
    {
        CustomEvent { id, cancelled: false }
    }

    /// An independent copy of this event.
    pub fn clone_box(&self) -> (r: CustomEvent)
        ensures
            r@ == self@,
    {
        CustomEvent { id: (self.id.0.clone(), self.id.1.clone()), cancelled: self.cancelled }
    }

    /// Sets the cancellation flag.
    pub fn cancel(&mut self)
        ensures
            final(self)@ == cancelled(old(self)@),
    {
        self.cancelled = true;
    }

    /// Whether `cancel` was called on this event.
    pub fn is_cancelled(&self) -> (r: bool)
        ensures
            r == self@.cancelled,
    {
        self.cancelled
    }

    /// This event's identifier.
    pub fn get_id(&self) -> (r: Identifier)
        ensures
            r@ == self@.id,
    {
        (self.id.0.clone(), self.id.1.clone())
    }
}

} // verus!
