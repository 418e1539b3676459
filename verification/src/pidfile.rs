//! Creation of the daemon's pidfile.
//!
//! The file must not already exist: an existing pidfile from a prior run
//! blocks startup rather than being silently overwritten.  Its content is
//! the calling process's id in decimal followed by a single newline, and it
//! is created before privileges are dropped so that its owner reflects the
//! pre-drop identity.

use vstd::prelude::*;

use nix::errno::Errno;
use nix::fcntl::OFlag;
use nix::sys::stat::Mode;

use crate::error::SetupError;
use crate::sys::{errno_text, process_id};
use crate::text::{dec_bytes, push_dec};

verus! {

/// The content of a pidfile for process id `pid`: its decimal digits and a
/// trailing newline, nothing else.
pub open spec fn pidfile_content(pid: nat) -> Seq<u8> {
    dec_bytes(pid).push(10)
}

/// The permission bits a fresh pidfile is created with, subject to the
/// process's file mode creation mask.
pub const PIDFILE_MODE: u32 = 0o644;

/// What one exclusive-create attempt came to, as the caller must act on it:
/// the number of bytes written, a refusal because the path already holds a
/// file, or any other failure with its code.
#[derive(Debug, PartialEq, Eq)]
pub enum CreateOutcome {
    /// The file was created and this many bytes of it were written.
    Written(usize),
    /// The exclusive create was refused: the path already holds a file.
    PathExists,
    /// The create or the write failed for another reason.
    Failed(Errno),
}

/// Relies on `nix::fcntl::open` with `O_WRONLY | O_CREAT | O_EXCL`, which
/// reports `EEXIST` exactly when the path already holds a file, and on a
/// single `nix::unistd::write`, which returns how many bytes it wrote, at
/// most `data.len()`.  The descriptor is closed again when it drops at the
/// end of the call.
#[verifier::external_body]
fn create_exclusive(path: &str, mode_bits: u32, data: &[u8]) -> (r: CreateOutcome)
    ensures
        r matches CreateOutcome::Written(n) ==> n <= data@.len(),
{
    let fd = match nix::fcntl::open(
        path,
        OFlag::O_WRONLY | OFlag::O_CREAT | OFlag::O_EXCL,
        Mode::from_bits_truncate(mode_bits),
    ) {
        Ok(fd) => fd,
        Err(Errno::EEXIST) => return CreateOutcome::PathExists,
        Err(e) => return CreateOutcome::Failed(e),
    };
    match nix::unistd::write(&fd, data) {
        Ok(n) => CreateOutcome::Written(n),
        Err(e) => CreateOutcome::Failed(e),
    }
}

/// Builds the bytes a pidfile for process id `pid` must hold.
pub fn pid_bytes(pid: u32) -> (v: Vec<u8>)
    ensures
        v@ == pidfile_content(pid as nat),
{
    let mut v: Vec<u8> = Vec::new();
    push_dec(&mut v, pid);
    v.push(10);
    proof {
        assert(v@ =~= pidfile_content(pid as nat));
    }
    v
}

/// Decides the result of a creation attempt at `path` whose content should
/// hold `expected` bytes: only a write of the whole content succeeds; a
/// refused exclusive create is an already-exists error and nothing else; any
/// other failure keeps its cause.  Every error names the path.
pub fn create_outcome_result(path: &str, expected: usize, outcome: CreateOutcome) -> (r: Result<
    (),
    SetupError,
>)
    ensures
        outcome matches CreateOutcome::Written(n) ==> (if n == expected {
            r is Ok
        } else {
            r matches Err(SetupError::PidfileWrite { path: p }) && p@ == path@
        }),
        outcome is PathExists ==> (r matches Err(SetupError::PidfileExists { path: p }) && p@
            == path@),
        outcome is Failed ==> (r matches Err(SetupError::PidfileCreate { path: p, detail: _ })
            && p@ == path@),
{
    match outcome {
        CreateOutcome::Written(n) => {
            if n == expected {
                Ok(())
            } else {
                Err(SetupError::PidfileWrite { path: path.to_owned() })
            }
        },
        CreateOutcome::PathExists => Err(SetupError::PidfileExists { path: path.to_owned() }),
        CreateOutcome::Failed(e) => Err(
            SetupError::PidfileCreate { path: path.to_owned(), detail: errno_text(e) },
        ),
    }
}

/// Creates the pidfile at `path` holding the calling process's id.
///
/// Fails if the path already holds a file, leaving that file untouched; a
/// partial write is reported as an error rather than silently accepted.
/// [`create_outcome_result`] fixes how each outcome of the attempt maps to
/// the result.
pub fn create(path: &str) -> (r: Result<(), SetupError>)
    ensures
        r matches Err(e) ==> (e matches SetupError::PidfileExists { path: p } && p@ == path@) || (
        e matches SetupError::PidfileCreate { path: p, detail: _ } && p@ == path@) || (
        e matches SetupError::PidfileWrite { path: p } && p@ == path@),
{
    let pid = process_id();
    let data = pid_bytes(pid);
    let outcome = create_exclusive(path, PIDFILE_MODE, data.as_slice());
    create_outcome_result(path, data.len(), outcome)
}

} // verus!
