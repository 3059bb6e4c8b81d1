//! Runtime version pairs, ordered lexicographically by (major, minor).

use vstd::prelude::*;

verus! {

/// A display runtime version, e.g. 1.5.
#[derive(Clone, Copy, Debug, PartialEq, Eq, Structural)]
pub struct Version {
    pub major: u8,
    pub minor: u8,
}

impl Version {
    pub fn new(major: u8, minor: u8) -> (v: Version)
        ensures
            v == (Version { major, minor }),
    {
        Version { major, minor }
    }

    /// `self >= (major, minor)` in lexicographic order.
    pub open spec fn spec_at_least(self, major: u8, minor: u8) -> bool {
        self.major > major || (self.major == major && self.minor >= minor)
    }

    /// `self > (major, minor)` in lexicographic order.
    pub open spec fn spec_above(self, major: u8, minor: u8) -> bool {
        self.major > major || (self.major == major && self.minor > minor)
    }

    pub fn at_least(&self, major: u8, minor: u8) -> (r: bool)
        ensures
            r == self.spec_at_least(major, minor),
    {
        self.major > major || (self.major == major && self.minor >= minor)
    }

    pub fn above(&self, major: u8, minor: u8) -> (r: bool)
        ensures
            r == self.spec_above(major, minor),
    {
        self.major > major || (self.major == major && self.minor > minor)
    }
}

} // verus!
