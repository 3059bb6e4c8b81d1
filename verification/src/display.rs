//! The display handle and its cached capability data.
//!
//! A display owns the connection to the native display server; here it is
//! modelled by its native handle together with the capability data that is
//! queried once at construction and never mutated afterwards: the runtime
//! version and the supported client extension names.

use vstd::prelude::*;

use crate::version::Version;

verus! {

/// A connection to the native display, with its cached capabilities.
#[derive(Debug)]
pub struct Display {
    /// Native display handle.
    pub raw: u64,
    /// Parsed runtime version.
    pub version: Version,
    /// Supported client extension names, as advertised by the runtime.
    pub client_extensions: Vec<String>,
}

/// A selected framebuffer configuration, tied to the display that produced it.
#[derive(Clone, Copy, Debug, PartialEq, Eq, Structural)]
pub struct Config {
    /// Native framebuffer-config handle.
    pub raw: u64,
    /// Native handle of the display this config came from.
    pub display_raw: u64,
}

impl Display {
    pub fn new(raw: u64, version: Version, client_extensions: Vec<String>) -> (d: Display)
        ensures
            d.raw == raw,
            d.version == version,
            d.client_extensions == client_extensions,
    {
        Display { raw, version, client_extensions }
    }

    /// Whether `name` is among the advertised client extensions.
    pub open spec fn spec_has_extension(self, name: Seq<char>) -> bool {
        exists|i: int|
            0 <= i < self.client_extensions@.len() && #[trigger] self.client_extensions@[i]@
                == name
    }

    pub fn has_extension(&self, name: &str) -> (r: bool)
        ensures
            r == self.spec_has_extension(name@),
    {
        let query: String = name.to_owned();
        let n = self.client_extensions.len();
        let mut i: usize = 0;
        while i < n
            invariant
                n == self.client_extensions@.len(),
                0 <= i <= n,
                query@ == name@,
                forall|j: int| 0 <= j < i ==> #[trigger] self.client_extensions@[j]@ != name@,
            decreases n - i,
        {
            if self.client_extensions[i] == query {
                return true;
            }
            i = i + 1;
        }
        false
    }

    /// Runtime is at least version 1.5, which guarantees extended context
    /// attribute negotiation natively.
    pub open spec fn spec_is_one_five(self) -> bool {
        self.version.spec_at_least(1, 5)
    }

    /// Desktop OpenGL is only offered above runtime version 1.3.
    pub open spec fn spec_supports_opengl(self) -> bool {
        self.version.spec_above(1, 3)
    }

    /// Extended attribute negotiation: native at 1.5, or gated by the
    /// create-context extension below that.
    pub open spec fn spec_extended_negotiation(self) -> bool {
        self.spec_is_one_five() || self.spec_has_extension("EGL_KHR_create_context"@)
    }

    /// Robustness support: native at 1.5, or via the dedicated robustness
    /// extension.
    pub open spec fn spec_has_robustness(self) -> bool {
        self.spec_is_one_five() || self.spec_has_extension("EGL_EXT_create_context_robustness"@)
    }

    /// No-error support exists only if the dedicated no-error extension is
    /// present.
    pub open spec fn spec_has_no_error(self) -> bool {
        self.spec_has_extension("EGL_KHR_create_context_no_error"@)
    }
}

} // verus!
