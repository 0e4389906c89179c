use vstd::prelude::*;
use std::io::Write;
use crate::event::ErrorInfo;
use crate::event::HandlerError;
use crate::handler::Handler;
use crate::handler::chain_effect;
use crate::handler::chain_failure_messages;
use crate::handler::failure_messages_after;
use crate::handler::state_after;

verus! {

/// Builder for assembling a series of fatal-error handlers. The host runtime
/// offers only a single hook slot; this builder composes many handlers into
/// one chain for that slot. Handlers run in the order they were added.
pub struct EvacBuilder<H> {
    /// Handlers in registration order.
    pub handlers: Vec<H>,
    /// Whether the hook installed before this chain is kept and run as a
    /// first phase of every event.
    pub preserve_default: bool,
}

/// The chain a builder freezes into: the handlers in their final order, the
/// preservation flag, and the context value every handler invocation shares.
/// The embedding program installs it as the process-wide fatal-error
/// callback and calls `on_fatal_event` once per fatal event.
pub struct InstalledHook<T, H> {
    /// Handlers in registration order; fixed for the life of the hook.
    pub handlers: Vec<H>,
    /// Whether the previously installed hook runs first on every event.
    pub preserve_default: bool,
    /// The caller-supplied context shared by all handler invocations.
    pub ctx: T,
}

/// One step of the work a single fatal event asks of the installed callback,
/// in the order the callback must perform it.
pub enum EventStep {
    /// Invoke the hook that was installed before this chain, with the raw
    /// event the runtime delivered. Present only when preservation was
    /// requested; the prior hook gets no access to the context, and a
    /// failure inside it stays fatal, as it was before the chain existed.
    PriorHook,
    /// Run every registered handler through `on_fatal_event`.
    RegisteredHandlers,
}

impl<H> EvacBuilder<H> {
    /// An empty builder: no handlers, and the prior hook is not preserved.
    pub fn new() -> (r: EvacBuilder<H>)
        ensures
            r.handlers@ == Seq::<H>::empty(),
            !r.preserve_default,
    {
        EvacBuilder { handlers: Vec::new(), preserve_default: false }
    }

    /// Requests that the hook installed before this chain keeps running, as
    /// the first phase of every event.
    pub fn preserve_default_panic(self) -> (r: EvacBuilder<H>)
        ensures
            r.handlers == self.handlers,
            r.preserve_default,
    {
        let mut b = self;
        b.preserve_default = true;
        b
    }

    /// Appends a handler. Handlers are executed in the order they are
    /// registered in; each takes a mutable reference to the context, so a
    /// handler can build on what earlier handlers left there. The handler's
    /// behaviour is not validated here: one that blocks forever, or itself
    /// raises a fatal condition, is caller error.
    pub fn with_handler(self, handler: H) -> (r: EvacBuilder<H>)
        ensures
            r.handlers@ == self.handlers@.push(handler),
            r.preserve_default == self.preserve_default,
    {
        let mut b = self;
        b.handlers.push(handler);
        b
    }

    /// Consumes the builder and the context, freezing the handler list into
    /// a chain bound to that context. Registration itself cannot fail; only
    /// a later event can encounter handler errors. The caller installs the
    /// returned chain as the process-wide fatal-error callback.
    pub fn register<T>(self, ctx: T) -> (hook: InstalledHook<T, H>)
        ensures
            hook.handlers == self.handlers,
            hook.preserve_default == self.preserve_default,
            hook.ctx == ctx,
    {
        InstalledHook {
            handlers: self.handlers,
            preserve_default: self.preserve_default,
            ctx,
        }
    }
}

/// Relies on `std::io::Stderr` via the `writeln` macro: writes `line` and a
/// trailing newline to the standard error stream, ignoring write errors, as
/// a diagnostic sink with no acknowledgment.
#[verifier::external_body]
fn write_stderr_line(line: &str) {
    let mut err = std::io::stderr();
    let _ = writeln!(err, "{}", line);
}

impl<T, H: Handler<T>> InstalledHook<T, H> {
    /// Whether the previously installed hook was preserved as a first phase.
    /// The embedding program reads this at installation time to decide
    /// whether to capture the hook it is about to replace.
    pub fn preserves_prior(&self) -> (r: bool)
        ensures
            r == self.preserve_default,
    {
        self.preserve_default
    }

    /// The steps one fatal event asks of the installed callback. With
    /// preservation enabled the prior hook runs exactly once, strictly
    /// before any registered handler; with preservation disabled no prior
    /// hook runs at all.
    pub fn event_plan(&self) -> (steps: Vec<EventStep>)
        ensures
            self.preserve_default ==> steps@
                == seq![EventStep::PriorHook, EventStep::RegisteredHandlers],
            !self.preserve_default ==> steps@ == seq![EventStep::RegisteredHandlers],
    {
        let mut steps: Vec<EventStep> = Vec::new();
        if self.preserve_default {
            steps.push(EventStep::PriorHook);
        }
        steps.push(EventStep::RegisteredHandlers);
        proof {
            if self.preserve_default {
                assert(steps@ =~= seq![EventStep::PriorHook, EventStep::RegisteredHandlers]);
            } else {
                assert(steps@ =~= seq![EventStep::RegisteredHandlers]);
            }
        }
        steps
    }

    /// Runs every registered handler, in registration order, for one fatal
    /// event. A handler's error is absorbed: a two-line diagnostic goes to
    /// the standard error stream and the next handler still runs, on
    /// whatever the failing handler left in the context — no rollback. The
    /// absorbed errors are returned, in execution order, purely as a record:
    /// nothing re-raises them, and the handler list is left intact for the
    /// next event.
    pub fn on_fatal_event(&mut self, info: &ErrorInfo) -> (absorbed: Vec<HandlerError>)
        ensures
            final(self).handlers == old(self).handlers,
            final(self).preserve_default == old(self).preserve_default,
            final(self).ctx == chain_effect(old(self).handlers@, *info, old(self).ctx),
            absorbed@.map_values(|e: HandlerError| e.message@)
                == chain_failure_messages(old(self).handlers@, *info, old(self).ctx),
    {
        let mut absorbed: Vec<HandlerError> = Vec::new();
        let n: usize = self.handlers.len();
        let mut i: usize = 0;
        while i < n
            invariant
                i <= n,
                n == self.handlers.len(),
                self.handlers == old(self).handlers,
                self.preserve_default == old(self).preserve_default,
                self.ctx == state_after(old(self).handlers@, *info, old(self).ctx, i as int),
                absorbed@.map_values(|e: HandlerError| e.message@)
                    == failure_messages_after(old(self).handlers@, *info, old(self).ctx, i as int),
            decreases n - i,
        {
            let r = self.handlers[i].on_event(info, &mut self.ctx);
            if let Err(e) = r {
                write_stderr_line("Error encountered in panic handler:");
                write_stderr_line(e.message.as_str());
                absorbed.push(e);
            }
            i = i + 1;
            proof {
                assert(absorbed@.map_values(|e: HandlerError| e.message@)
                    =~= failure_messages_after(old(self).handlers@, *info, old(self).ctx, i as int));
            }
        }
        absorbed
    }
}

} // verus!
