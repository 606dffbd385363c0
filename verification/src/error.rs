//! The operating system's own failure signal.

use vstd::prelude::*;

verus! {

/// A failure reported by the operating system.
///
/// The number is the system's error number, exactly as the system gave it.
/// Nothing here sorts failures into kinds: a busy device, a handle that is no
/// pseudoterminal master and a name that does not fit all arrive as the
/// number the system chose for them.
#[derive(Debug, Clone, Copy, PartialEq, Eq, Structural)]
pub struct OsError {
    /// The raw error number.
    pub code: i32,
}

impl OsError {
    /// Wraps a raw error number.
    pub fn from_raw(code: i32) -> (e: OsError)
        ensures
            e.code == code,
    {
        OsError { code }
    }

    /// The raw error number.
    pub fn raw(&self) -> (code: i32)
        ensures
            code == self.code,
    {
        self.code
    }
}

/// The calling thread's current error number, read through
/// `nix::errno::Errno::last_raw`.
///
/// The number is whatever the last failing system call on this thread left
/// behind, so nothing is claimed of it.
#[verifier::external_body]
pub(crate) fn last_os_error() -> (code: i32) {
    nix::errno::Errno::last_raw()
}

} // verus!
