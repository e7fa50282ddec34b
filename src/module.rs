use std::sync::Arc;
use vstd::prelude::*;

use crate::event::CustomEvent;
use crate::fib::FibTask;
use crate::ident::{identifier, IdModel};
use crate::meta::{metadata, LibraryMetadata};
use crate::registry::{after_register, Registry};

verus! {

/// The handlers this module supplies, each bound to one event type.
#[derive(Debug)]
pub enum HandlerKind {
    /// Reports the host's start event, with the module's record as context.
    Start(Arc<LibraryMetadata>),
    /// Moves the payload of a gRPC event to its output.
    Cgrpc,
    /// Handles the module's own event.
    Custom,
}

/// The host's registries, as the module sees them while it loads.
pub struct Host {
    pub tasks: Registry<FibTask>,
    pub events: Registry<CustomEvent>,
    pub handlers: Registry<HandlerKind>,
}

impl Host {
    /// All three registries are well formed.
    pub open spec fn wf(&self) -> bool {
        self.tasks.wf() && self.events.wf() && self.handlers.wf()
    }
}

/// ("engine_core", "fib"): the Fibonacci task.
pub open spec fn fib_id() -> IdModel {
    ("engine_core"@, "fib"@)
}

/// ("engine_core", "custom_event"): the module's own event.
pub open spec fn custom_event_id() -> IdModel {
    ("engine_core"@, "custom_event"@)
}

/// ("core", "start_event"): the host's start event.
pub open spec fn start_event_id() -> IdModel {
    ("core"@, "start_event"@)
}

/// ("core", "cgrpc_event"): the host's gRPC event.
pub open spec fn cgrpc_event_id() -> IdModel {
    ("core"@, "cgrpc_event"@)
}

/// The module's one registration call: the custom event type, the Fibonacci
/// task template, and its three handlers, each under its identifier and as
/// each registry's policy says.
pub fn run(api: &mut Host)
    requires
        old(api).wf(),
    ensures
        final(api).wf(),
        final(api).tasks.spec_policy() == old(api).tasks.spec_policy(),
        final(api).events.spec_policy() == old(api).events.spec_policy(),
        final(api).handlers.spec_policy() == old(api).handlers.spec_policy(),
        exists|e: CustomEvent| #![auto]
            e@.id == custom_event_id() && !e@.cancelled && final(api).events.view() == after_register(
                old(api).events.spec_policy(),
                old(api).events.view(),
                custom_event_id(),
                e,
            ),
        final(api).tasks.view() == after_register(
            old(api).tasks.spec_policy(),
            old(api).tasks.view(),
            fib_id(),
            FibTask { iter: 0, result: 0 },
        ),
        exists|meta: Arc<LibraryMetadata>| #![auto]
            meta.mod_id@ == "engine_core"@ && meta.mod_author@ == "@ign-styly"@ && meta.mod_name@
                == "Engine Core External"@ && meta.mod_version@ == "0.0.1"@
                && final(api).handlers.view() == after_register(
                old(api).handlers.spec_policy(),
                after_register(
                    old(api).handlers.spec_policy(),
                    after_register(
                        old(api).handlers.spec_policy(),
                        old(api).handlers.view(),
                        start_event_id(),
                        HandlerKind::Start(meta),
                    ),
                    cgrpc_event_id(),
                    HandlerKind::Cgrpc,
                ),
                custom_event_id(),
                HandlerKind::Custom,
            ),
{
    let mod_ctx = Arc::new(metadata());
    let template = CustomEvent::new(identifier("engine_core", "custom_event"));
    let ghost ev = template;
    let ghost events_before = api.events.view();
    let _ = api.events.register(template, identifier("engine_core", "custom_event"));
    let _ = api.tasks.register(FibTask::new(), identifier("engine_core", "fib"));
    assert(api.events.view() == after_register(
        api.events.spec_policy(),
        events_before,
        custom_event_id(),
        ev,
    ));
    let ghost meta = mod_ctx;
    let _ = api.handlers.register(HandlerKind::Start(mod_ctx), identifier("core", "start_event"));
    let _ = api.handlers.register(HandlerKind::Cgrpc, identifier("core", "cgrpc_event"));
    let _ = api.handlers.register(HandlerKind::Custom, identifier("engine_core", "custom_event"));
}

} // verus!
