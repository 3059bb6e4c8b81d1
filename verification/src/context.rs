//! The context typestate machine.
//!
//! A context is either *not current* or *possibly current*; the two wrapper
//! types share one internal resource record and transitions move it from one
//! wrapper to the other, so a context can never be used before it was bound,
//! bound twice from two owners, or destroyed more than once.
//!
//! Native calls are not made here: each operation that needs one hands out a
//! plain call descriptor (`MakeCurrentCall`, `DestroyCall`), and the
//! transition is completed with the native outcome — `Ok(())`, or the code
//! the native error query reported after a failure sentinel.  The adapter
//! that performs the calls lives outside the verified library.

use vstd::prelude::*;

use crate::attrs::{RawContext, NO_CONTEXT, NO_SURFACE};
use crate::display::{Config, Display};
use crate::error::ErrorKind;
use crate::surface::Surface;

verus! {

/// The shared resource record: the native context handle together with the
/// handles of the display and config it was created from.  Exactly one
/// wrapper holds the record at any time; transitions move it, never copy it.
#[derive(Clone, Copy, Debug, PartialEq, Eq, Structural)]
pub struct ContextInner {
    /// Native handle of the display that created the context.
    pub display: u64,
    /// Native handle of the chosen framebuffer config.
    pub config: u64,
    /// The owned native context handle.
    pub raw: u64,
    /// The client API selector the context was created for.
    pub api: u32,
}

/// A native "make current" invocation: which context to bind to the calling
/// thread, against which draw and read targets, on which display.
#[derive(Clone, Copy, Debug, PartialEq, Eq, Structural)]
pub struct MakeCurrentCall {
    pub display: u64,
    pub draw: u64,
    pub read: u64,
    pub context: u64,
}

/// The one native destruction of a context resource.
#[derive(Clone, Copy, Debug, PartialEq, Eq, Structural)]
pub struct DestroyCall {
    pub display: u64,
    pub context: u64,
}

/// Model of the native per-thread current-binding slot: a single global slot
/// per thread, which is exactly what a completed `MakeCurrentCall` leaves in
/// it.
#[derive(Clone, Copy, Debug, PartialEq, Eq, Structural)]
pub struct ThreadSlot {
    pub context: u64,
    pub draw: u64,
    pub read: u64,
}

impl ThreadSlot {
    /// The slot before any context was ever bound on the thread.
    pub fn empty() -> (s: ThreadSlot)
        ensures
            s == (ThreadSlot { context: NO_CONTEXT, draw: NO_SURFACE, read: NO_SURFACE }),
    {
        ThreadSlot { context: NO_CONTEXT, draw: NO_SURFACE, read: NO_SURFACE }
    }

    /// What the slot holds after `call` succeeded on this thread.
    pub open spec fn spec_after(call: MakeCurrentCall) -> ThreadSlot {
        ThreadSlot { context: call.context, draw: call.draw, read: call.read }
    }

    /// Record a successful native bind in the model.
    pub fn apply(&mut self, call: &MakeCurrentCall)
        ensures
            *final(self) == ThreadSlot::spec_after(*call),
    {
        self.context = call.context;
        self.draw = call.draw;
        self.read = call.read;
    }
}

impl ContextInner {
    /// A live resource holds a real native handle.
    pub open spec fn wf(self) -> bool {
        self.raw != NO_CONTEXT
    }

    /// The bind this resource asks for against the given draw/read targets.
    pub open spec fn spec_bind_call(self, draw: u64, read: u64) -> MakeCurrentCall {
        MakeCurrentCall { display: self.display, draw, read, context: self.raw }
    }

    /// The unbind: the native "no surface / no context" triple.
    pub open spec fn spec_unbind_call(self) -> MakeCurrentCall {
        MakeCurrentCall {
            display: self.display,
            draw: NO_SURFACE,
            read: NO_SURFACE,
            context: NO_CONTEXT,
        }
    }

    /// The destruction of this resource's native handle.
    pub open spec fn spec_destroy_call(self) -> DestroyCall {
        DestroyCall { display: self.display, context: self.raw }
    }
}

/// A context that is known not to be current on any thread.
#[derive(Debug)]
pub struct NotCurrentContext {
    inner: ContextInner,
}

/// A context that could be current on the calling thread.
#[derive(Debug)]
pub struct PossiblyCurrentContext {
    inner: ContextInner,
}

impl NotCurrentContext {
    /// The resource record this wrapper owns.
    pub closed spec fn resource(self) -> ContextInner {
        self.inner
    }

    pub(crate) fn new(inner: ContextInner) -> (c: NotCurrentContext)
        ensures
            c.resource() == inner,
    {
        NotCurrentContext { inner }
    }

    /// NotCurrent → PossiblyCurrent without a native call: the caller asserts
    /// the context is already bound by other means; nothing is validated.
    pub fn treat_as_current(self) -> (c: PossiblyCurrentContext)
        ensures
            c.resource() == self.resource(),
    {
        PossiblyCurrentContext { inner: self.inner }
    }

    /// The native bind this transition asks for: one surface serving as both
    /// draw and read target.
    pub fn make_current_call(&self, surface: &Surface) -> (c: MakeCurrentCall)
        ensures
            c == self.resource().spec_bind_call(surface.raw, surface.raw),
    {
        MakeCurrentCall {
            display: self.inner.display,
            draw: surface.raw,
            read: surface.raw,
            context: self.inner.raw,
        }
    }

    /// The native bind against two distinct targets.
    pub fn make_current_draw_read_call(&self, surface_draw: &Surface, surface_read: &Surface) -> (c:
        MakeCurrentCall)
        ensures
            c == self.resource().spec_bind_call(surface_draw.raw, surface_read.raw),
    {
        MakeCurrentCall {
            display: self.inner.display,
            draw: surface_draw.raw,
            read: surface_read.raw,
            context: self.inner.raw,
        }
    }

    /// NotCurrent → PossiblyCurrent, completed with the native outcome of the
    /// requested bind.  On success the same resource moves into the new
    /// wrapper.  On failure no context leaks back to the caller — the wrapper
    /// is consumed and is not recoverable — but the native handle must still
    /// be released exactly once, so the error carries the destruction
    /// descriptor for the caller to perform.
    pub fn finish_make_current(self, outcome: Result<(), i32>) -> (r: Result<
        PossiblyCurrentContext,
        (ErrorKind, DestroyCall),
    >)
        ensures
            outcome is Ok ==> (r matches Ok(c) && c.resource() == self.resource()),
            outcome matches Err(code) ==> (r matches Err(p) && p.0 matches
            ErrorKind::NativeFailure(c2) && c2 == code && p.1
                == self.resource().spec_destroy_call()),
    {
        match outcome {
            Ok(()) => Ok(PossiblyCurrentContext { inner: self.inner }),
            Err(code) => Err(
                (
                    ErrorKind::NativeFailure(code),
                    DestroyCall { display: self.inner.display, context: self.inner.raw },
                ),
            ),
        }
    }

    /// The config this context was created with.
    pub fn config(&self) -> (c: Config)
        ensures
            c.raw == self.resource().config,
            c.display_raw == self.resource().display,
    {
        Config { raw: self.inner.config, display_raw: self.inner.display }
    }

    /// The client API selector this context was created for.
    pub fn get_api(&self) -> (a: u32)
        ensures
            a == self.resource().api,
    {
        self.inner.api
    }

    /// The native handle of the display this context belongs to.
    pub fn display_raw(&self) -> (d: u64)
        ensures
            d == self.resource().display,
    {
        self.inner.display
    }

    /// The raw native context handle, tagged with its backend family.
    pub fn raw_context(&self) -> (r: RawContext)
        ensures
            r == RawContext::Egl(self.resource().raw),
    {
        RawContext::Egl(self.inner.raw)
    }

    /// Give the resource up for destruction.  Consuming the wrapper makes a
    /// second destruction request impossible: exactly one `DestroyCall` ever
    /// exists per resource lifetime.
    pub fn destroy(self) -> (c: DestroyCall)
        ensures
            c == self.resource().spec_destroy_call(),
    {
        DestroyCall { display: self.inner.display, context: self.inner.raw }
    }
}

impl PossiblyCurrentContext {
    /// The resource record this wrapper owns.
    pub closed spec fn resource(self) -> ContextInner {
        self.inner
    }

    /// Whether the runtime's current-context slot names this context.  The
    /// runtime is always re-queried, never cached: `current` is what the
    /// native current-context query just returned on the calling thread.
    pub open spec fn spec_is_current(self, current: u64) -> bool {
        current == self.resource().raw
    }

    pub fn is_current(&self, current: u64) -> (r: bool)
        ensures
            r == self.spec_is_current(current),
    {
        current == self.inner.raw
    }

    /// The native unbind this transition asks for.
    pub fn make_not_current_call(&self) -> (c: MakeCurrentCall)
        ensures
            c == self.resource().spec_unbind_call(),
    {
        MakeCurrentCall {
            display: self.inner.display,
            draw: NO_SURFACE,
            read: NO_SURFACE,
            context: NO_CONTEXT,
        }
    }

    /// PossiblyCurrent → NotCurrent, completed with the native outcome of the
    /// requested unbind.  On success the same resource moves back into a
    /// not-current wrapper and native destruction is never involved.  On
    /// failure the wrapper is consumed, so the error carries the one
    /// destruction descriptor for the caller to perform.
    pub fn finish_make_not_current(self, outcome: Result<(), i32>) -> (r: Result<
        NotCurrentContext,
        (ErrorKind, DestroyCall),
    >)
        ensures
            outcome is Ok ==> (r matches Ok(c) && c.resource() == self.resource()),
            outcome matches Err(code) ==> (r matches Err(p) && p.0 matches
            ErrorKind::NativeFailure(c2) && c2 == code && p.1
                == self.resource().spec_destroy_call()),
    {
        match outcome {
            Ok(()) => Ok(NotCurrentContext { inner: self.inner }),
            Err(code) => Err(
                (
                    ErrorKind::NativeFailure(code),
                    DestroyCall { display: self.inner.display, context: self.inner.raw },
                ),
            ),
        }
    }

    /// The rebind this wrapper asks for: one surface for both targets.  The
    /// wrapper is not consumed — it is already in the current-capable state.
    pub fn make_current_call(&self, surface: &Surface) -> (c: MakeCurrentCall)
        ensures
            c == self.resource().spec_bind_call(surface.raw, surface.raw),
    {
        MakeCurrentCall {
            display: self.inner.display,
            draw: surface.raw,
            read: surface.raw,
            context: self.inner.raw,
        }
    }

    /// The rebind against two distinct targets.
    pub fn make_current_draw_read_call(&self, surface_draw: &Surface, surface_read: &Surface) -> (c:
        MakeCurrentCall)
        ensures
            c == self.resource().spec_bind_call(surface_draw.raw, surface_read.raw),
    {
        MakeCurrentCall {
            display: self.inner.display,
            draw: surface_draw.raw,
            read: surface_read.raw,
            context: self.inner.raw,
        }
    }

    /// Complete a rebind: the wrapper keeps its type and resource either way;
    /// a native failure is propagated unchanged.
    pub fn finish_make_current(&self, outcome: Result<(), i32>) -> (r: Result<(), ErrorKind>)
        ensures
            outcome is Ok ==> r is Ok,
            outcome matches Err(code) ==> (r matches Err(e) && e matches ErrorKind::NativeFailure(
                c2,
            ) && c2 == code),
    {
        match outcome {
            Ok(()) => Ok(()),
            Err(code) => Err(ErrorKind::NativeFailure(code)),
        }
    }

    /// The config this context was created with.
    pub fn config(&self) -> (c: Config)
        ensures
            c.raw == self.resource().config,
            c.display_raw == self.resource().display,
    {
        Config { raw: self.inner.config, display_raw: self.inner.display }
    }

    /// The client API selector this context was created for.
    pub fn get_api(&self) -> (a: u32)
        ensures
            a == self.resource().api,
    {
        self.inner.api
    }

    /// The native handle of the display this context belongs to.
    pub fn display_raw(&self) -> (d: u64)
        ensures
            d == self.resource().display,
    {
        self.inner.display
    }

    /// The raw native context handle, tagged with its backend family.
    pub fn raw_context(&self) -> (r: RawContext)
        ensures
            r == RawContext::Egl(self.resource().raw),
    {
        RawContext::Egl(self.inner.raw)
    }

    /// Give the resource up for destruction; see `NotCurrentContext::destroy`.
    pub fn destroy(self) -> (c: DestroyCall)
        ensures
            c == self.resource().spec_destroy_call(),
    {
        DestroyCall { display: self.inner.display, context: self.inner.raw }
    }
}

impl Display {
    /// Wrap the handle native context creation returned.  The adapter binds
    /// the API named in the creation request and invokes creation; a sentinel
    /// "no context" return is reported here as the code the native error
    /// query gave, anything else becomes the new resource's handle.
    pub fn finish_create_context(
        &self,
        config: &Config,
        api: u32,
        outcome: Result<u64, i32>,
    ) -> (r: Result<NotCurrentContext, ErrorKind>)
        requires
            config.display_raw == self.raw,
            outcome matches Ok(h) ==> h != NO_CONTEXT,
        ensures
            outcome matches Ok(h) ==> (r matches Ok(c) && c.resource() == (ContextInner {
                display: self.raw,
                config: config.raw,
                raw: h,
                api,
            }) && c.resource().wf()),
            outcome matches Err(code) ==> (r matches Err(e) && e matches ErrorKind::NativeFailure(
                c2,
            ) && c2 == code),
    {
        match outcome {
            Ok(h) => Ok(
                NotCurrentContext::new(
                    ContextInner { display: self.raw, config: config.raw, raw: h, api },
                ),
            ),
            Err(code) => Err(ErrorKind::NativeFailure(code)),
        }
    }
}

/// Law: across a successful round trip (not current → possibly current → not
/// current) every wrapper holds the same resource, so no native destruction
/// can have been involved and the one destruction the final wrapper may
/// request names exactly the context the first wrapper held.
pub proof fn lemma_round_trip_single_resource(
    first: NotCurrentContext,
    bound: PossiblyCurrentContext,
    last: NotCurrentContext,
)
    requires
        bound.resource() == first.resource(),
        last.resource() == bound.resource(),
    ensures
        last.resource() == first.resource(),
        last.resource().spec_destroy_call() == first.resource().spec_destroy_call(),
{
}

/// Law: after the bind a transition asked for succeeds on this thread, the
/// thread slot names this context, so `is_current` answers true — for any
/// draw/read targets, surfaceless included.
pub proof fn lemma_is_current_after_bind(
    c: PossiblyCurrentContext,
    draw: u64,
    read: u64,
    slot: ThreadSlot,
)
    requires
        slot == ThreadSlot::spec_after(c.resource().spec_bind_call(draw, read)),
    ensures
        c.spec_is_current(slot.context),
{
}

/// Law: after the unbind succeeds, the thread slot holds the sentinel "no
/// context", so `is_current` answers false for every live resource.
pub proof fn lemma_not_current_after_unbind(c: PossiblyCurrentContext, slot: ThreadSlot)
    requires
        c.resource().wf(),
        slot == ThreadSlot::spec_after(c.resource().spec_unbind_call()),
    ensures
        !c.spec_is_current(slot.context),
{
}

/// Law: rebinding a possibly-current context to another surface pair keeps
/// the wrapper's type and resource; the native call it asks for names the
/// same context and display, only the drawables differ.
pub proof fn lemma_rebind_keeps_resource(c: PossiblyCurrentContext, draw: u64, read: u64)
    ensures
        c.resource().spec_bind_call(draw, read).context == c.resource().raw,
        c.resource().spec_bind_call(draw, read).display == c.resource().display,
        c.resource().spec_bind_call(draw, read).draw == draw,
        c.resource().spec_bind_call(draw, read).read == read,
{
}

} // verus!
