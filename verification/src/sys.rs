//! Shared declarations for the operating-system error type.
//!
//! Every call into the system returns `nix`'s `Errno` on failure; the type is
//! declared here so the rest of the library can carry it and render its text
//! into diagnostics.

use vstd::prelude::*;

use nix::errno::Errno;

verus! {

#[verifier::external_type_specification]
#[verifier::external_body]
pub struct ExErrno(Errno);

/// Relies on `Errno::desc`: a short, fixed description of the error code.
#[verifier::external_body]
pub(crate) fn errno_text(e: Errno) -> (r: String) {
    e.desc().to_owned()
}

/// Relies on `nix::unistd::getpid`: the id of the calling process, which the
/// system only ever assigns as a positive number.
#[verifier::external_body]
pub(crate) fn process_id() -> (r: u32)
    ensures
        r >= 1,
{
    nix::unistd::getpid().as_raw() as u32
}

} // verus!
