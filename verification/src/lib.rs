//! A library for building daemon processes.
//!
//! The library turns the calling process into a detached Unix daemon and
//! reports the outcome of the transition back to the process that requested
//! it.  Configuration is collected in a [`Daemon`] value; the forking sequence
//! itself is driven by the caller through the state machine in [`fork`], since
//! process creation cannot be performed from verified code.

use vstd::prelude::*;

pub mod daemon;
pub mod error;
pub mod fork;
pub mod fs;
pub mod ident;
pub mod pidfile;
pub mod sys;
pub mod text;
pub mod user;

pub use daemon::Daemon;
pub use fork::Parent;

verus! {

/// The default file mode creation mask value of `0o027`.
pub const DEFAULT_UMASK: u32 = 0o027;

/// Returns a new [`Daemon`] configuration with default values.
///
/// This function is equivalent to [`Daemon::new`] but avoids the need to
/// import `Daemon`.
#[must_use]
pub fn options() -> (d: Daemon)
    ensures
        daemon::is_default_config(&d),
{
    Daemon::new()
}

} // verus!
