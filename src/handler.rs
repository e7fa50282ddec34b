use vstd::prelude::*;

use crate::event::{CustomEvent, EventState};
use crate::ident::{same_id, IdModel, Identifier};
use crate::registry::{items_for, Registry};

verus! {

/// A callback bound to the module's event type.
pub trait EventHandler {
    /// What one call of the handler does to an event.
    spec fn on_event(&self, e: EventState) -> EventState;

    /// Handles one dispatch of `event`.
    fn handle(&self, event: &mut CustomEvent)
        ensures
            final(event)@ == self.on_event(old(event)@),
    ;
}

/// The event after each of `hs` has handled it in turn, first to last, each
/// seeing what the ones before it did.
pub open spec fn handled_in_order<H: EventHandler>(hs: Seq<H>, e: EventState) -> EventState
    decreases hs.len(),
{
    if hs.len() == 0 {
        e
    } else {
        hs.last().on_event(handled_in_order(hs.drop_last(), e))
    }
}

/// A handler registered after others runs last, on the event as the earlier
/// handlers left it, the cancellation flag included.
pub proof fn lemma_handler_order<H: EventHandler>(hs: Seq<H>, h: H, e: EventState)
    ensures
        handled_in_order(hs.push(h), e) == h.on_event(handled_in_order(hs, e)),
        handled_in_order(hs.push(h), e).cancelled == h.on_event(handled_in_order(hs, e)).cancelled,
{
    assert(hs.push(h).drop_last() =~= hs);
}

/// Dispatches `event` under `id`: every handler registered under `id` handles
/// it, in the order of registration. Cancelling is a mark on the event; it
/// does not stop the handlers that come after.
pub fn dispatch<H: EventHandler>(handlers: &Registry<H>, id: &Identifier, event: &mut CustomEvent)
    ensures
        final(event)@ == handled_in_order(items_for(handlers.view(), id@), old(event)@),
{
    let n = handlers.len();
    let mut i: usize = 0;
    assert(handlers.view().take(0) =~= Seq::<(IdModel, H)>::empty());
    while i < n
        invariant
            n == handlers.view().len(),
            i <= n,
            event@ == handled_in_order(items_for(handlers.view().take(i as int), id@), old(event)@),
        decreases n - i,
    {
        let (key, h) = handlers.entry(i);
        let ghost prefix = handlers.view().take(i as int);
        assert(handlers.view().take(i + 1).drop_last() =~= prefix);
        if same_id(key, id) {
            h.handle(event);
            proof {
                lemma_handler_order(items_for(prefix, id@), *h, old(event)@);
            }
        }
        i = i + 1;
    }
    assert(handlers.view().take(n as int) =~= handlers.view());
}

/// The module's handler for its own event: it leaves the event as it is.
pub struct CustomEventHandler;

impl EventHandler for CustomEventHandler {
    open spec fn on_event(&self, e: EventState) -> EventState {
        e
    }

    fn handle(&self, event: &mut CustomEvent) {
    }
}

} // verus!
