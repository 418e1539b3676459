//! The daemon configuration and the ordered application of its options.
//!
//! A [`Daemon`] value accumulates options through a fluent interface; every
//! setter takes an optional value and either applies it or restores the
//! documented default.  No validation happens while building: whether a user
//! exists or a directory is reachable is only decided inside the daemon
//! process, by [`Daemon::prepare`], whose failures are reported through the
//! synchronization channel.

use vstd::prelude::*;

use nix::errno::Errno;
use nix::sys::stat::Mode;

use crate::error::SetupError;
use crate::fs;
use crate::ident::IdentityRequest;
use crate::pidfile;
use crate::sys::errno_text;
use crate::user::{resolution_error_of, resolved_from, Privileges};
use crate::DEFAULT_UMASK;

verus! {

/// Options which can be used to configure the daemon process.
///
/// Chain calls to the setter methods to set each option, then hand the value
/// to the code that forks the process; inside the daemon, [`Daemon::prepare`]
/// applies the accumulated options in their documented order.  All setters
/// take values wrapped in [`Option`], so the configuration composes directly
/// with command-line or file based configuration sources; passing [`None`]
/// restores the documented default.
///
/// There is no option for standard input: a daemon has no interactive input,
/// and the stream is always redirected to the null device.
#[derive(Clone, Debug)]
pub struct Daemon {
    /// The identity to drop privileges to, if any.
    pub user: Option<IdentityRequest>,
    /// Where standard output is redirected.
    pub stdout: String,
    /// Where standard error is redirected.
    pub stderr: String,
    /// The path of the pidfile to create, if any.
    pub pidfile: Option<String>,
    /// The file mode creation mask to install.
    pub umask: u32,
    /// The working directory to change to.
    pub workdir: String,
}

/// The default configuration: no identity drop, no pidfile, both output
/// streams on the null device, the restrictive default mask, and the
/// filesystem root as working directory.
pub open spec fn is_default_config(d: &Daemon) -> bool {
    &&& d.user is None
    &&& d.stdout@ == "/dev/null"@
    &&& d.stderr@ == "/dev/null"@
    &&& d.pidfile is None
    &&& d.umask == DEFAULT_UMASK
    &&& d.workdir@ == "/"@
}

impl Default for Daemon {
    fn default() -> (d: Daemon)
        ensures
            is_default_config(&d),
    {
        Daemon {
            user: None,
            stdout: "/dev/null".to_owned(),
            stderr: "/dev/null".to_owned(),
            pidfile: None,
            umask: DEFAULT_UMASK,
            workdir: "/".to_owned(),
        }
    }
}

/// Relies on `nix::unistd::chdir`: changes the working directory of the
/// calling process to `path`.
#[verifier::external_body]
fn change_dir(path: &str) -> (r: Result<(), Errno>) {
    nix::unistd::chdir(path)
}

/// Relies on `nix::sys::stat::umask`: installs the permission bits of `bits`
/// as the process's file mode creation mask.
#[verifier::external_body]
fn set_umask(bits: u32) {
    nix::sys::stat::umask(Mode::from_bits_truncate(bits));
}

/// Which errors [`Daemon::prepare`] can report for a given configuration:
/// each failure names the path or identity of the step it came from.
pub open spec fn error_of_config(c: &Daemon, e: &SetupError) -> bool {
    ||| (e matches SetupError::PidfileExists { path } && c.pidfile is Some && path@
        == c.pidfile->0@)
    ||| (e matches SetupError::PidfileCreate { path, detail: _ } && c.pidfile is Some && path@
        == c.pidfile->0@)
    ||| (e matches SetupError::PidfileWrite { path } && c.pidfile is Some && path@
        == c.pidfile->0@)
    ||| (c.user is Some && resolution_error_of(&c.user->0, e))
    ||| ((e is Supplementary || e is SetGroup || e is SetUser) && c.user is Some)
    ||| (e matches SetupError::Workdir { path, detail: _ } && path@ == c.workdir@)
    ||| e is Stdin
    ||| (e matches SetupError::Stdout { path, detail: _ } && path@ == c.stdout@)
    ||| (e matches SetupError::Stderr { path, detail: _ } && path@ == c.stderr@)
}

impl Daemon {
    /// Creates a new daemon configuration with default values.
    pub fn new() -> (d: Daemon)
        ensures
            is_default_config(&d),
    {
        Default::default()
    }

    /// Sets the user and group the daemon will run as.
    ///
    /// If this configuration value is present, the daemon drops its
    /// privileges to the given identity, which normally requires the original
    /// process to run as the root user.  By default no value is present and
    /// the daemon keeps the privileges of the original process.
    pub fn user(self, user: Option<IdentityRequest>) -> (d: Daemon)
        ensures
            d == (Daemon { user, ..self }),
    {
        Daemon { user, ..self }
    }

    /// Changes the daemon's working directory to the specified path.
    ///
    /// This is done after dropping privileges.  Pass `.` to avoid changing
    /// the working directory.  By default this is the root directory `/`.
    pub fn working_directory(self, workdir: Option<&str>) -> (d: Daemon)
        ensures
            d.workdir@ == (match workdir {
                Some(p) => p@,
                None => "/"@,
            }),
            d.user == self.user && d.stdout == self.stdout && d.stderr == self.stderr
                && d.pidfile == self.pidfile && d.umask == self.umask,
    {
        let w = match workdir {
            Some(p) => p.to_owned(),
            None => "/".to_owned(),
        };
        Daemon { workdir: w, ..self }
    }

    /// Requests the daemon to create a pidfile.
    ///
    /// The daemon will write its process id and a trailing newline to the
    /// specified file, which must not already exist.  The file is created
    /// before privileges are dropped; a relative path is relative to the
    /// original process's working directory.  By default no pidfile is
    /// created.
    pub fn pidfile(self, path: Option<&str>) -> (d: Daemon)
        ensures
            match path {
                Some(p) => d.pidfile is Some && d.pidfile->0@ == p@,
                None => d.pidfile is None,
            },
            d.user == self.user && d.stdout == self.stdout && d.stderr == self.stderr
                && d.umask == self.umask && d.workdir == self.workdir,
    {
        let f = match path {
            Some(p) => Some(p.to_owned()),
            None => None,
        };
        Daemon { pidfile: f, ..self }
    }

    /// Redirects the daemon's standard output stream to the specified file.
    ///
    /// The file is created if absent and appended to if present; a relative
    /// path is relative to the daemon's working directory.  By default
    /// standard output goes to the null device.
    pub fn stdout(self, path: Option<&str>) -> (d: Daemon)
        ensures
            d.stdout@ == (match path {
                Some(p) => p@,
                None => "/dev/null"@,
            }),
            d.user == self.user && d.stderr == self.stderr && d.pidfile == self.pidfile
                && d.umask == self.umask && d.workdir == self.workdir,
    {
        let f = match path {
            Some(p) => p.to_owned(),
            None => "/dev/null".to_owned(),
        };
        Daemon { stdout: f, ..self }
    }

    /// Redirects the daemon's standard error stream to the specified file.
    ///
    /// The file is created if absent and appended to if present; a relative
    /// path is relative to the daemon's working directory.  By default
    /// standard error goes to the null device.
    pub fn stderr(self, path: Option<&str>) -> (d: Daemon)
        ensures
            d.stderr@ == (match path {
                Some(p) => p@,
                None => "/dev/null"@,
            }),
            d.user == self.user && d.stdout == self.stdout && d.pidfile == self.pidfile
                && d.umask == self.umask && d.workdir == self.workdir,
    {
        let f = match path {
            Some(p) => p.to_owned(),
            None => "/dev/null".to_owned(),
        };
        Daemon { stderr: f, ..self }
    }

    /// Sets the daemon process's file mode creation mask.
    ///
    /// Only the permission bits of the value are kept.  The default value is
    /// [`DEFAULT_UMASK`](crate::DEFAULT_UMASK).
    pub fn umask(self, mode: Option<u32>) -> (d: Daemon)
        ensures
            d.umask == (match mode {
                Some(m) => m & 0o7777,
                None => DEFAULT_UMASK,
            }),
            d.user == self.user && d.stdout == self.stdout && d.stderr == self.stderr
                && d.pidfile == self.pidfile && d.workdir == self.workdir,
    {
        let m = match mode {
            Some(m) => m & 0o7777,
            None => DEFAULT_UMASK,
        };
        Daemon { umask: m, ..self }
    }

    /// Applies the configuration to the calling process, in order:
    ///
    /// 1. The pidfile is created, while privileges are still those of the
    ///    original process.
    /// 2. The requested identity is resolved and privileges are dropped.
    /// 3. The working directory is changed, now that the daemon user's
    ///    access rights decide whether it is reachable.
    /// 4. The file mode creation mask is installed.
    /// 5. Standard input is redirected to the null device, then standard
    ///    output and standard error to their configured files.
    ///
    /// On success the resolved privileges are returned, if an identity drop
    /// was requested, so that the caller can install the matching `USER`,
    /// `HOME` and `SHELL` environment variables.  The first failing step
    /// aborts the rest and is reported with its offending path or identity.
    pub fn prepare(self) -> (r: Result<Option<Privileges>, SetupError>)
        ensures
            r matches Ok(p) ==> (self.user is Some <==> p is Some),
            r matches Ok(Some(p)) ==> resolved_from(&self.user->0, &p),
            r matches Err(e) ==> error_of_config(&self, &e),
    {
        if let Some(path) = &self.pidfile {
            pidfile::create(path.as_str())?;
        }
        let privileges = match &self.user {
            Some(req) => {
                let p = req.resolve()?;
                p.drop_privileges()?;
                Some(p)
            },
            None => None,
        };
        match change_dir(self.workdir.as_str()) {
            Ok(()) => {},
            Err(e) => {
                return Err(
                    SetupError::Workdir { path: self.workdir.clone(), detail: errno_text(e) },
                );
            },
        }
        set_umask(self.umask);
        fs::redirect_stdin()?;
        fs::redirect_stdout(self.stdout.as_str())?;
        fs::redirect_stderr(self.stderr.as_str())?;
        Ok(privileges)
    }
}

} // verus!
