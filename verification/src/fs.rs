//! Redirection of the three standard streams.
//!
//! Standard input is always bound to the null device, so reads see an
//! immediate end of stream.  Standard output and standard error are bound to
//! caller-chosen files opened for appending, created if absent; by default
//! that file is the null device too.

use vstd::prelude::*;

use nix::errno::Errno;
use nix::fcntl::OFlag;
use nix::sys::stat::Mode;

use crate::error::SetupError;
use crate::sys::errno_text;

verus! {

/// The permission bits a redirection target is created with, subject to the
/// process's file mode creation mask.
pub const REDIRECT_MODE: u32 = 0o660;

/// Relies on `nix::fcntl::open` with `O_RDONLY` and on
/// `nix::unistd::dup2_stdin`: afterwards standard input reads from `path`.
/// The temporary descriptor is closed again when it drops.
#[verifier::external_body]
fn open_read_stdin(path: &str) -> (r: Result<(), Errno>) {
    let fd = match nix::fcntl::open(path, OFlag::O_RDONLY, Mode::empty()) {
        Ok(fd) => fd,
        Err(e) => return Err(e),
    };
    nix::unistd::dup2_stdin(&fd)
}

/// Relies on `nix::fcntl::open` with `O_WRONLY | O_APPEND | O_CREAT` and on
/// `nix::unistd::dup2_stdout`: afterwards standard output appends to `path`,
/// which is created if absent and never truncated.  The temporary descriptor
/// is closed again when it drops.
#[verifier::external_body]
fn open_append_stdout(path: &str, mode_bits: u32) -> (r: Result<(), Errno>) {
    let fd = match nix::fcntl::open(
        path,
        OFlag::O_WRONLY | OFlag::O_APPEND | OFlag::O_CREAT,
        Mode::from_bits_truncate(mode_bits),
    ) {
        Ok(fd) => fd,
        Err(e) => return Err(e),
    };
    nix::unistd::dup2_stdout(&fd)
}

/// Relies on `nix::fcntl::open` with `O_WRONLY | O_APPEND | O_CREAT` and on
/// `nix::unistd::dup2_stderr`: afterwards standard error appends to `path`,
/// which is created if absent and never truncated.  The temporary descriptor
/// is closed again when it drops.
#[verifier::external_body]
fn open_append_stderr(path: &str, mode_bits: u32) -> (r: Result<(), Errno>) {
    let fd = match nix::fcntl::open(
        path,
        OFlag::O_WRONLY | OFlag::O_APPEND | OFlag::O_CREAT,
        Mode::from_bits_truncate(mode_bits),
    ) {
        Ok(fd) => fd,
        Err(e) => return Err(e),
    };
    nix::unistd::dup2_stderr(&fd)
}

/// Redirects standard input to the null device.
pub fn redirect_stdin() -> (r: Result<(), SetupError>)
    ensures
        r matches Err(e) ==> e is Stdin,
{
    match open_read_stdin("/dev/null") {
        Ok(()) => Ok(()),
        Err(e) => Err(SetupError::Stdin { detail: errno_text(e) }),
    }
}

/// Redirects standard output so that it appends to the file at `path`.
pub fn redirect_stdout(path: &str) -> (r: Result<(), SetupError>)
    ensures
        r matches Err(e) ==> e matches SetupError::Stdout { path: p, detail: _ } && p@ == path@,
{
    match open_append_stdout(path, REDIRECT_MODE) {
        Ok(()) => Ok(()),
        Err(e) => Err(SetupError::Stdout { path: path.to_owned(), detail: errno_text(e) }),
    }
}

/// Redirects standard error so that it appends to the file at `path`.
pub fn redirect_stderr(path: &str) -> (r: Result<(), SetupError>)
    ensures
        r matches Err(e) ==> e matches SetupError::Stderr { path: p, detail: _ } && p@ == path@,
{
    match open_append_stderr(path, REDIRECT_MODE) {
        Ok(()) => Ok(()),
        Err(e) => Err(SetupError::Stderr { path: path.to_owned(), detail: errno_text(e) }),
    }
}

} // verus!
