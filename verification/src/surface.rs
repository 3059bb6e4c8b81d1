//! The surface adapter: drawable targets and the platform context wrapper.
//!
//! A drawable presents a native handle usable as a bind target.  The platform
//! wrapper combines a context with its drawable variant — windowed,
//! pixel-buffer, or surfaceless — and gates the operations that only some
//! variants support: resizing is defined for the windowed variant alone, and
//! invoking it on any other variant is a contract violation, not a
//! recoverable error.

use vstd::prelude::*;

use crate::attrs::RawContext;
use crate::context::{MakeCurrentCall, PossiblyCurrentContext};
use crate::error::ErrorKind;

verus! {

/// A drawable target: the native surface handle rendering output is written
/// to or read from.
#[derive(Clone, Copy, Debug, PartialEq, Eq, Structural)]
pub struct Surface {
    pub raw: u64,
}

/// The shared native per-window drawable object of a windowed context; the
/// windowing layer's resize callbacks and the rendering path both reach it.
#[derive(Clone, Copy, Debug, PartialEq, Eq, Structural)]
pub struct EglSurface {
    /// Native handle of the window-backed drawable object.
    pub raw: u64,
}

/// A native resize notification: dimensions forwarded directly to the
/// window-backed drawable, with no buffering or debouncing.
#[derive(Clone, Copy, Debug, PartialEq, Eq, Structural)]
pub struct ResizeCall {
    pub surface: u64,
    pub width: i32,
    pub height: i32,
    pub dx: i32,
    pub dy: i32,
}

/// A context together with its drawable variant.
#[derive(Debug)]
pub enum Context {
    /// Window-backed: has a resizable native surface.
    Windowed(PossiblyCurrentContext, EglSurface),
    /// Offscreen pixel buffer: fixed size, not resizable.
    PBuffer(PossiblyCurrentContext),
    /// No drawable at all: the context is used without a bound surface.
    Surfaceless(PossiblyCurrentContext),
}

impl Context {
    /// The drawable variant a headless request selects: a fixed-size pixel
    /// buffer when dimensions were supplied, surfaceless otherwise.
    pub fn new_headless(context: PossiblyCurrentContext, size: Option<(u32, u32)>) -> (c: Context)
        ensures
            size is Some ==> c matches Context::PBuffer(_),
            size is None ==> c matches Context::Surfaceless(_),
            c.spec_egl_context() == context,
    {
        match size {
            Some(_) => Context::PBuffer(context),
            None => Context::Surfaceless(context),
        }
    }

    /// Wrap a windowed context, refusing when the windowing layer yielded no
    /// native window surface to draw to.
    pub fn new_windowed(context: PossiblyCurrentContext, surface: Option<EglSurface>) -> (r:
        Result<Context, ErrorKind>)
        ensures
            surface matches Some(s) ==> (r matches Ok(c) && c matches Context::Windowed(cc, s2)
                && cc == context && s2 == s),
            surface is None ==> (r matches Err(e) && e.is_not_supported()),
    {
        match surface {
            Some(s) => Ok(Context::Windowed(context, s)),
            None => Err(ErrorKind::NotSupported("no native window surface was provided")),
        }
    }

    /// The context inside, whatever the drawable variant.
    pub open spec fn spec_egl_context(self) -> PossiblyCurrentContext {
        match self {
            Context::Windowed(c, _) => c,
            Context::PBuffer(c) => c,
            Context::Surfaceless(c) => c,
        }
    }

    pub fn egl_context(&self) -> (c: &PossiblyCurrentContext)
        ensures
            *c == self.spec_egl_context(),
    {
        match self {
            Context::Windowed(c, _) => c,
            Context::PBuffer(c) => c,
            Context::Surfaceless(c) => c,
        }
    }

    /// Whether the runtime's current-context slot (just re-queried, passed in
    /// as `current`) names this context.
    pub fn is_current(&self, current: u64) -> (r: bool)
        ensures
            r == self.spec_egl_context().spec_is_current(current),
    {
        self.egl_context().is_current(current)
    }

    /// The client API selector the wrapped context was created for.
    pub fn get_api(&self) -> (a: u32)
        ensures
            a == self.spec_egl_context().resource().api,
    {
        self.egl_context().get_api()
    }

    /// The raw native context handle.
    pub fn raw_handle(&self) -> (h: u64)
        ensures
            h == self.spec_egl_context().resource().raw,
    {
        match self.egl_context().raw_context() {
            RawContext::Egl(h) => h,
        }
    }

    /// The native display handle this context belongs to; always available.
    pub fn get_egl_display(&self) -> (d: Option<u64>)
        ensures
            d == Some(self.spec_egl_context().resource().display),
    {
        Some(self.egl_context().display_raw())
    }

    /// The rebind this wrapper asks for against `surface` (both targets).
    pub fn make_current_call(&self, surface: &Surface) -> (c: MakeCurrentCall)
        ensures
            c == self.spec_egl_context().resource().spec_bind_call(surface.raw, surface.raw),
    {
        self.egl_context().make_current_call(surface)
    }

    /// The unbind this wrapper asks for.
    pub fn make_not_current_call(&self) -> (c: MakeCurrentCall)
        ensures
            c == self.spec_egl_context().resource().spec_unbind_call(),
    {
        self.egl_context().make_not_current_call()
    }

    /// The windowed variant's drawable object.
    pub open spec fn spec_window_surface(self) -> EglSurface
        recommends
            self matches Context::Windowed(_, _),
    {
        match self {
            Context::Windowed(_, s) => s,
            _ => arbitrary(),
        }
    }

    /// Forward new dimensions to the window-backed drawable.  Only the
    /// windowed variant is resizable; calling this on any other variant is a
    /// programmer error and is ruled out here.
    pub fn resize(&self, width: u32, height: u32) -> (c: ResizeCall)
        requires
            *self matches Context::Windowed(_, _),
            width <= i32::MAX,
            height <= i32::MAX,
        ensures
            c == (ResizeCall {
                surface: self.spec_window_surface().raw,
                width: width as i32,
                height: height as i32,
                dx: 0,
                dy: 0,
            }),
    {
        match self {
            Context::Windowed(_, s) => ResizeCall {
                surface: s.raw,
                width: width as i32,
                height: height as i32,
                dx: 0,
                dy: 0,
            },
            _ => unreached(),
        }
    }
}

} // verus!
