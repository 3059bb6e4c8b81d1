//! Failure kinds surfaced by context creation and state transitions.

use vstd::prelude::*;

verus! {

/// Why a request could not be satisfied.
///
/// `NotSupported` is always detected before any native call is attempted;
/// `NativeFailure` carries the code the native error query reported after a
/// call returned its failure sentinel.
#[derive(Clone, Copy, Debug)]
pub enum ErrorKind {
    NotSupported(&'static str),
    NativeFailure(i32),
}

impl ErrorKind {
    pub open spec fn is_not_supported(self) -> bool {
        self matches ErrorKind::NotSupported(_)
    }

    pub open spec fn is_native_failure(self) -> bool {
        self matches ErrorKind::NativeFailure(_)
    }

    /// The code the native layer reported, when there is one.
    pub fn native_code(&self) -> (r: Option<i32>)
        ensures
            match *self {
                ErrorKind::NativeFailure(code) => r == Some(code),
                ErrorKind::NotSupported(_) => r is None,
            },
    {
        match self {
            ErrorKind::NativeFailure(code) => Some(*code),
            ErrorKind::NotSupported(_) => None,
        }
    }
}

} // verus!
