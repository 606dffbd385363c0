//! The system's own reentrant slave-name query.
//!
//! Where the system offers `ptsname_r`, nothing has to be emulated: the query
//! is made through `nix`, and its failure is carried over as it came.

use vstd::prelude::*;
use nix::pty::PtyMaster;
use crate::error::OsError;

verus! {

/// An open pseudoterminal master, as `nix` hands it out. It is only ever
/// borrowed here, and handed on to the system as it is.
#[verifier::external_type_specification]
#[verifier::external_body]
pub struct ExPtyMaster(PtyMaster);

/// Asks `nix::pty::ptsname_r` for the slave's name, with a failure given as
/// its raw error number.
///
/// Whether the query succeeds, and with which name, is for the system to
/// say. Claimed of a name that does come back, and not proved: `nix` reads
/// it as a C string and decodes that permissively, so it holds no NUL
/// character.
#[verifier::external_body]
fn native_ptsname_r(fd: &PtyMaster) -> (r: Result<String, i32>)
    ensures
        r matches Ok(name) ==> !name@.contains('\0'),
{
    match nix::pty::ptsname_r(fd) {
        Ok(name) => Ok(name),
        Err(errno) => Err(errno as i32),
    }
}

/// Carries the outcome of a native query over into this library's result:
/// a name stays what it is, an error number becomes an [`OsError`].
pub fn lift_native(outcome: Result<String, i32>) -> (r: Result<String, OsError>)
    ensures
        r == match outcome {
            Ok(name) => Ok::<String, OsError>(name),
            Err(code) => Err::<String, OsError>(OsError { code }),
        },
{
    match outcome {
        Ok(name) => Ok(name),
        Err(code) => Err(OsError::from_raw(code)),
    }
}

/// The name of the slave pseudoterminal that belongs to the master `fd`.
///
/// This is the reentrant query: each call builds its name afresh and shares
/// no storage with any other call, so it may run on several threads at once.
/// The master is borrowed for the call and is the caller's again afterwards.
///
/// The system decides whether the query succeeds. A failure is the system's
/// error number, untouched. A name holds no NUL character, so it can be
/// handed back to the system as a path.
pub fn ptsname_r(fd: &PtyMaster) -> (r: Result<String, OsError>)
    ensures
        r matches Ok(name) ==> !name@.contains('\0'),
{
    lift_native(native_ptsname_r(fd))
}

} // verus!
