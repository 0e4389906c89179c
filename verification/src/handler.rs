use vstd::prelude::*;
use crate::event::ErrorInfo;
use crate::event::HandlerError;

verus! {

/// One registered reaction to a fatal event. The chain gives each handler
/// read access to the event and exclusive mutable access to the shared
/// context, one handler at a time, so mutations made by one handler are
/// visible to every handler after it.
///
/// Implementors live outside this crate (a handler is caller-supplied code),
/// so the contract on `on_event` is a promise each implementor makes about
/// its own spec functions; nothing here checks a foreign implementation
/// against it.
pub trait Handler<T> {
    /// The context value this handler leaves behind, as a function of the
    /// event and of the context it was given. The default describes a
    /// handler that leaves the context alone; an implementation overrides it
    /// to say what it actually does.
    open spec fn effect(&self, info: ErrorInfo, ctx: T) -> T {
        ctx
    }

    /// Whether this handler reports failure for the given event and context.
    /// The default describes a handler that always succeeds.
    open spec fn fails(&self, info: ErrorInfo, ctx: T) -> bool {
        false
    }

    /// The message of the error this handler returns when it fails.
    open spec fn failure_message(&self, info: ErrorInfo, ctx: T) -> Seq<char> {
        Seq::empty()
    }

    /// React to one fatal event.
    fn on_event(&self, info: &ErrorInfo, ctx: &mut T) -> (r: Result<(), HandlerError>)
        ensures
            *final(ctx) == self.effect(*info, *old(ctx)),
            (r is Err) == self.fails(*info, *old(ctx)),
            (r matches Err(e) ==> e.message@ == self.failure_message(*info, *old(ctx))),
    ;
}

/// The context after the first `n` handlers of `handlers` have run on `init`
/// for the event `info`, each applied in order to the context the previous
/// one left behind.
pub open spec fn state_after<T, H: Handler<T>>(
    handlers: Seq<H>,
    info: ErrorInfo,
    init: T,
    n: int,
) -> T
    decreases n,
{
    if n <= 0 {
        init
    } else {
        handlers[n - 1].effect(info, state_after(handlers, info, init, n - 1))
    }
}

/// The context after every handler of `handlers` has run on `init` for the
/// event `info`, in order. A handler's effect is applied whether or not the
/// handler fails: failure is absorbed and never stops the chain.
pub open spec fn chain_effect<T, H: Handler<T>>(handlers: Seq<H>, info: ErrorInfo, init: T) -> T {
    state_after(handlers, info, init, handlers.len() as int)
}

/// The messages of the failures reported by the first `n` handlers of
/// `handlers`, in execution order, each judged on the context its handler
/// was actually given.
pub open spec fn failure_messages_after<T, H: Handler<T>>(
    handlers: Seq<H>,
    info: ErrorInfo,
    init: T,
    n: int,
) -> Seq<Seq<char>>
    decreases n,
{
    if n <= 0 {
        Seq::empty()
    } else if handlers[n - 1].fails(info, state_after(handlers, info, init, n - 1)) {
        failure_messages_after(handlers, info, init, n - 1).push(
            handlers[n - 1].failure_message(info, state_after(handlers, info, init, n - 1)),
        )
    } else {
        failure_messages_after(handlers, info, init, n - 1)
    }
}

/// The messages of every failure the whole chain reports for one event, in
/// execution order.
pub open spec fn chain_failure_messages<T, H: Handler<T>>(
    handlers: Seq<H>,
    info: ErrorInfo,
    init: T,
) -> Seq<Seq<char>> {
    failure_messages_after(handlers, info, init, handlers.len() as int)
}

/// Context mutations made by one handler are visible to the next within the
/// same event: the state the handler at position `i` leaves behind is
/// exactly the state the handler at position `i + 1` is given, with no
/// isolation and no rollback.
pub proof fn lemma_sequential_visibility<T, H: Handler<T>>(
    handlers: Seq<H>,
    info: ErrorInfo,
    init: T,
    i: int,
)
    requires
        0 <= i < handlers.len(),
    ensures
        state_after(handlers, info, init, i + 1)
            == handlers[i].effect(info, state_after(handlers, info, init, i)),
{
}

/// The first `n` steps of a chain depend only on its first `n` handlers.
proof fn lemma_state_after_ignores_tail<T, H: Handler<T>>(
    a: Seq<H>,
    b: Seq<H>,
    info: ErrorInfo,
    init: T,
    n: int,
)
    requires
        0 <= n <= a.len(),
        n <= b.len(),
        forall|j: int| 0 <= j < n ==> a[j] == b[j],
    ensures
        state_after(a, info, init, n) == state_after(b, info, init, n),
    decreases n,
{
    if n > 0 {
        lemma_state_after_ignores_tail(a, b, info, init, n - 1);
    }
}

/// Registration order is execution order: the handler registered last runs
/// last, on the context produced by every handler registered before it.
pub proof fn lemma_last_registered_runs_last<T, H: Handler<T>>(
    handlers: Seq<H>,
    h: H,
    info: ErrorInfo,
    init: T,
)
    ensures
        chain_effect(handlers.push(h), info, init)
            == h.effect(info, chain_effect(handlers, info, init)),
{
    lemma_state_after_ignores_tail(
        handlers.push(h),
        handlers,
        info,
        init,
        handlers.len() as int,
    );
}

} // verus!
