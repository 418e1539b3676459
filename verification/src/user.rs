//! Types for working with users and groups.
//!
//! A [`User`] or [`Group`] is a record resolved from the system identity
//! database; a [`Privileges`] value pairs the two and can drop the process to
//! them.  Resolution happens only when requested, never at configuration
//! time, and resolution failures are reported as errors carrying the
//! offending identity's display form.

use vstd::prelude::*;
use vstd::string::StringExecFns;

use nix::errno::Errno;
use nix::unistd::{Gid, Uid};

use crate::error::SetupError;
use crate::ident::{Identity, IdentityRequest};
use crate::sys::errno_text;
use crate::text::str_eq;

verus! {

/// True when a string holds no interior NUL character and can therefore be
/// handed to the system as a C string.
pub open spec fn no_nul(s: Seq<char>) -> bool {
    forall|i: int| 0 <= i < s.len() ==> #[trigger] s[i] != '\0'
}

/// A user record resolved from the system identity database.
#[derive(Clone, Debug, PartialEq, Eq)]
pub struct User {
    /// User name.
    pub name: String,
    /// User id.
    pub uid: u32,
    /// Id of the user's primary group.
    pub gid: u32,
    /// Home directory.
    pub home: String,
    /// Login shell.
    pub shell: String,
}

/// A group record resolved from the system identity database.
#[derive(Clone, Debug, PartialEq, Eq)]
pub struct Group {
    /// Group name.
    pub name: String,
    /// Group id.
    pub gid: u32,
}

/// One environment variable the daemon should carry after a privilege drop.
#[derive(Clone, Debug, PartialEq, Eq)]
pub struct EnvVar {
    pub key: String,
    pub value: String,
}

/// Relies on `nix::unistd::User::from_uid` (`getpwuid_r`): a returned record
/// is the database entry whose user id equals the requested one, and a name
/// read back from a C string holds no interior NUL.
#[verifier::external_body]
fn user_by_uid(uid: u32) -> (r: Result<Option<User>, Errno>)
    ensures
        r matches Ok(Some(u)) ==> u.uid == uid && no_nul(u.name@),
{
    match nix::unistd::User::from_uid(Uid::from_raw(uid)) {
        Ok(Some(u)) => Ok(Some(User {
            name: u.name,
            uid: u.uid.as_raw(),
            gid: u.gid.as_raw(),
            home: u.dir.to_string_lossy().into_owned(),
            shell: u.shell.to_string_lossy().into_owned(),
        })),
        Ok(None) => Ok(None),
        Err(e) => Err(e),
    }
}

/// Relies on `nix::unistd::User::from_name` (`getpwnam_r`): a returned record
/// is the database entry whose name equals the requested one, and such a name
/// holds no interior NUL.
#[verifier::external_body]
fn user_by_name(name: &str) -> (r: Result<Option<User>, Errno>)
    ensures
        r matches Ok(Some(u)) ==> u.name@ == name@ && no_nul(u.name@),
{
    match nix::unistd::User::from_name(name) {
        Ok(Some(u)) => Ok(Some(User {
            name: u.name,
            uid: u.uid.as_raw(),
            gid: u.gid.as_raw(),
            home: u.dir.to_string_lossy().into_owned(),
            shell: u.shell.to_string_lossy().into_owned(),
        })),
        Ok(None) => Ok(None),
        Err(e) => Err(e),
    }
}

/// Relies on `nix::unistd::Group::from_gid` (`getgrgid_r`): a returned record
/// is the database entry whose group id equals the requested one.
#[verifier::external_body]
fn group_by_gid(gid: u32) -> (r: Result<Option<Group>, Errno>)
    ensures
        r matches Ok(Some(g)) ==> g.gid == gid && no_nul(g.name@),
{
    match nix::unistd::Group::from_gid(Gid::from_raw(gid)) {
        Ok(Some(g)) => Ok(Some(Group { name: g.name, gid: g.gid.as_raw() })),
        Ok(None) => Ok(None),
        Err(e) => Err(e),
    }
}

/// Relies on `nix::unistd::Group::from_name` (`getgrnam_r`): a returned
/// record is the database entry whose name equals the requested one.
#[verifier::external_body]
fn group_by_name(name: &str) -> (r: Result<Option<Group>, Errno>)
    ensures
        r matches Ok(Some(g)) ==> g.name@ == name@ && no_nul(g.name@),
{
    match nix::unistd::Group::from_name(name) {
        Ok(Some(g)) => Ok(Some(Group { name: g.name, gid: g.gid.as_raw() })),
        Ok(None) => Ok(None),
        Err(e) => Err(e),
    }
}

/// Relies on `nix::unistd::initgroups`: installs the supplementary group
/// list of `name`, including `gid`.  The name must be NUL-free to form a C
/// string.
#[verifier::external_body]
fn init_groups(name: &str, gid: u32) -> (r: Result<(), Errno>)
    requires
        no_nul(name@),
{
    let mut buf = name.as_bytes().to_vec();
    buf.push(0);
    let cname = match core::ffi::CStr::from_bytes_with_nul(&buf) {
        Ok(c) => c,
        Err(_) => return Err(Errno::EINVAL),
    };
    nix::unistd::initgroups(cname, Gid::from_raw(gid))
}

/// Relies on `nix::unistd::setgid`: sets the real and effective group id of
/// the calling process.
#[verifier::external_body]
fn set_group_id(gid: u32) -> (r: Result<(), Errno>) {
    nix::unistd::setgid(Gid::from_raw(gid))
}

/// Relies on `nix::unistd::setuid`: sets the real and effective user id of
/// the calling process.
#[verifier::external_body]
fn set_user_id(uid: u32) -> (r: Result<(), Errno>) {
    nix::unistd::setuid(Uid::from_raw(uid))
}

/// Interprets a user lookup by id: a found record is handed through; an
/// absent record becomes the missing-user error and nothing else; a failed
/// lookup keeps its cause.  Every error names the requested id.
pub fn user_id_lookup_result(uid: u32, looked: Result<Option<User>, Errno>) -> (r: Result<
    User,
    SetupError,
>)
    ensures
        looked matches Ok(Some(u)) ==> (r matches Ok(u2) && u2 == u),
        looked matches Ok(None) ==> (r matches Err(e) && e == (SetupError::UserIdMissing { uid })),
        looked is Err ==> (r matches Err(SetupError::UserIdLookup { uid: u2, detail: _ }) && u2
            == uid),
{
    match looked {
        Ok(Some(u)) => Ok(u),
        Ok(None) => Err(SetupError::UserIdMissing { uid }),
        Err(e) => Err(SetupError::UserIdLookup { uid, detail: errno_text(e) }),
    }
}

/// Interprets a user lookup by name, as [`user_id_lookup_result`] does for
/// one by id.  Every error carries the requested name.
pub fn user_name_lookup_result(name: &str, looked: Result<Option<User>, Errno>) -> (r: Result<
    User,
    SetupError,
>)
    ensures
        looked matches Ok(Some(u)) ==> (r matches Ok(u2) && u2 == u),
        looked matches Ok(None) ==> (r matches Err(SetupError::UserNameMissing { name: n }) && n@
            == name@),
        looked is Err ==> (r matches Err(SetupError::UserNameLookup { name: n, detail: _ }) && n@
            == name@),
{
    match looked {
        Ok(Some(u)) => Ok(u),
        Ok(None) => Err(SetupError::UserNameMissing { name: name.to_owned() }),
        Err(e) => Err(SetupError::UserNameLookup { name: name.to_owned(), detail: errno_text(e) }),
    }
}

/// Interprets a group lookup by id, as [`user_id_lookup_result`] does for a
/// user.  Every error names the requested id.
pub fn group_id_lookup_result(gid: u32, looked: Result<Option<Group>, Errno>) -> (r: Result<
    Group,
    SetupError,
>)
    ensures
        looked matches Ok(Some(g)) ==> (r matches Ok(g2) && g2 == g),
        looked matches Ok(None) ==> (r matches Err(e) && e == (SetupError::GroupIdMissing { gid })),
        looked is Err ==> (r matches Err(SetupError::GroupIdLookup { gid: g2, detail: _ }) && g2
            == gid),
{
    match looked {
        Ok(Some(g)) => Ok(g),
        Ok(None) => Err(SetupError::GroupIdMissing { gid }),
        Err(e) => Err(SetupError::GroupIdLookup { gid, detail: errno_text(e) }),
    }
}

/// Interprets a group lookup by name, as [`user_id_lookup_result`] does for
/// a user by id.  Every error carries the requested name.
pub fn group_name_lookup_result(name: &str, looked: Result<Option<Group>, Errno>) -> (r: Result<
    Group,
    SetupError,
>)
    ensures
        looked matches Ok(Some(g)) ==> (r matches Ok(g2) && g2 == g),
        looked matches Ok(None) ==> (r matches Err(SetupError::GroupNameMissing { name: n }) && n@
            == name@),
        looked is Err ==> (r matches Err(SetupError::GroupNameLookup { name: n, detail: _ }) && n@
            == name@),
{
    match looked {
        Ok(Some(g)) => Ok(g),
        Ok(None) => Err(SetupError::GroupNameMissing { name: name.to_owned() }),
        Err(e) => Err(SetupError::GroupNameLookup { name: name.to_owned(), detail: errno_text(e) }),
    }
}

impl User {
    /// Get a user by UID.
    pub fn from_uid(uid: u32) -> (r: Result<User, SetupError>)
        ensures
            r matches Ok(u) ==> u.uid == uid && no_nul(u.name@),
            r matches Err(e) ==> (e matches SetupError::UserIdLookup { uid: u2, detail: _ }
                && u2 == uid) || e == (SetupError::UserIdMissing { uid }),
    {
        user_id_lookup_result(uid, user_by_uid(uid))
    }

    /// Get a user by name.
    pub fn from_name(name: &str) -> (r: Result<User, SetupError>)
        ensures
            r matches Ok(u) ==> u.name@ == name@ && no_nul(u.name@),
            r matches Err(e) ==> (e matches SetupError::UserNameLookup { name: n, detail: _ }
                && n@ == name@) || (e matches SetupError::UserNameMissing { name: n }
                && n@ == name@),
    {
        user_name_lookup_result(name, user_by_name(name))
    }

    /// The user's display form: its name.
    pub fn display_name(&self) -> (r: String)
        ensures
            r@ == self.name@,
    {
        self.name.clone()
    }

    /// The environment a process running as this user should carry: the
    /// `USER`, `HOME` and `SHELL` variables taken verbatim from the record.
    pub fn env_vars(&self) -> (r: Vec<EnvVar>)
        ensures
            r@.len() == 3,
            r@[0].key@ == "USER"@ && r@[0].value@ == self.name@,
            r@[1].key@ == "HOME"@ && r@[1].value@ == self.home@,
            r@[2].key@ == "SHELL"@ && r@[2].value@ == self.shell@,
    {
        let mut v: Vec<EnvVar> = Vec::new();
        v.push(EnvVar { key: "USER".to_owned(), value: self.name.clone() });
        v.push(EnvVar { key: "HOME".to_owned(), value: self.home.clone() });
        v.push(EnvVar { key: "SHELL".to_owned(), value: self.shell.clone() });
        v
    }
}

impl Group {
    /// The group's display form: its name.
    pub fn display_name(&self) -> (r: String)
        ensures
            r@ == self.name@,
    {
        self.name.clone()
    }

    /// Get a group by GID.
    pub fn from_gid(gid: u32) -> (r: Result<Group, SetupError>)
        ensures
            r matches Ok(g) ==> g.gid == gid && no_nul(g.name@),
            r matches Err(e) ==> (e matches SetupError::GroupIdLookup { gid: g2, detail: _ }
                && g2 == gid) || e == (SetupError::GroupIdMissing { gid }),
    {
        group_id_lookup_result(gid, group_by_gid(gid))
    }

    /// Get a group by name.
    pub fn from_name(name: &str) -> (r: Result<Group, SetupError>)
        ensures
            r matches Ok(g) ==> g.name@ == name@ && no_nul(g.name@),
            r matches Err(e) ==> (e matches SetupError::GroupNameLookup { name: n, detail: _ }
                && n@ == name@) || (e matches SetupError::GroupNameMissing { name: n }
                && n@ == name@),
    {
        group_name_lookup_result(name, group_by_name(name))
    }
}

/// A resolved user and group pair, ready to be dropped to.
#[derive(Clone, Debug, PartialEq, Eq)]
pub struct Privileges {
    pub user: User,
    pub group: Group,
}

/// How a resolved pair relates to the request it came from: a numeric
/// identity pins the id, a symbolic one the name, and a request without an
/// explicit group resolves to the user's primary group.
pub open spec fn resolved_from(req: &IdentityRequest, p: &Privileges) -> bool {
    &&& no_nul(p.user.name@)
    &&& match req.user {
        Identity::Id(u) => p.user.uid == u,
        Identity::Name(n) => p.user.name@ == n@,
    }
    &&& match req.group {
        Some(Identity::Id(g)) => p.group.gid == g,
        Some(Identity::Name(n)) => p.group.name@ == n@,
        None => p.group.gid == p.user.gid,
    }
}

/// Which errors resolving a request can produce: a user error names the
/// requested user identity exactly as given, an explicit-group error the
/// requested group identity; the fallback to the user's primary group can
/// fail only by group id, which the request itself does not hold.
pub open spec fn resolution_error_of(req: &IdentityRequest, e: &SetupError) -> bool {
    ||| match req.user {
        Identity::Id(u) => (e matches SetupError::UserIdLookup { uid, detail: _ } && uid == u) || (
        e matches SetupError::UserIdMissing { uid } && uid == u),
        Identity::Name(n) => (e matches SetupError::UserNameLookup { name, detail: _ } && name@
            == n@) || (e matches SetupError::UserNameMissing { name } && name@ == n@),
    }
    ||| match req.group {
        Some(Identity::Id(g)) => (e matches SetupError::GroupIdLookup { gid, detail: _ } && gid
            == g) || (e matches SetupError::GroupIdMissing { gid } && gid == g),
        Some(Identity::Name(n)) => (e matches SetupError::GroupNameLookup { name, detail: _ }
            && name@ == n@) || (e matches SetupError::GroupNameMissing { name } && name@ == n@),
        None => e is GroupIdLookup || e is GroupIdMissing,
    }
}

impl IdentityRequest {
    /// Resolves the requested identities against the system database.
    ///
    /// The user is looked up first, by id or by name as requested; then the
    /// explicit group, if one was given, or else the record of the user's
    /// primary group.  A failure names the identity it was about.
    pub fn resolve(&self) -> (r: Result<Privileges, SetupError>)
        ensures
            r matches Ok(p) ==> resolved_from(self, &p),
            r matches Err(e) ==> resolution_error_of(self, &e),
    {
        let user = match &self.user {
            Identity::Id(uid) => User::from_uid(*uid)?,
            Identity::Name(name) => User::from_name(name.as_str())?,
        };
        let group = match &self.group {
            Some(Identity::Id(gid)) => Group::from_gid(*gid)?,
            Some(Identity::Name(name)) => Group::from_name(name.as_str())?,
            None => Group::from_gid(user.gid)?,
        };
        Ok(Privileges { user, group })
    }
}

impl Privileges {
    /// Sets the current process's user and group.
    ///
    /// The drop is strictly ordered: first the supplementary group list for
    /// the user, then the group id, then the user id, so that the ability to
    /// change groups is only lost after the groups are in place.  The first
    /// failing step aborts the rest and is reported with the identity's name.
    pub fn drop_privileges(&self) -> (r: Result<(), SetupError>)
        requires
            no_nul(self.user.name@),
        ensures
            r matches Err(e) ==> (e matches SetupError::Supplementary { user: n, detail: _ }
                && n@ == self.user.name@) || (e matches SetupError::SetGroup {
                group: n,
                detail: _,
            } && n@ == self.group.name@) || (e matches SetupError::SetUser { user: n, detail: _ }
                && n@ == self.user.name@),
    {
        match init_groups(self.user.name.as_str(), self.group.gid) {
            Ok(()) => {},
            Err(e) => {
                return Err(
                    SetupError::Supplementary {
                        user: self.user.name.clone(),
                        detail: errno_text(e),
                    },
                );
            },
        }
        match set_group_id(self.group.gid) {
            Ok(()) => {},
            Err(e) => {
                return Err(
                    SetupError::SetGroup { group: self.group.name.clone(), detail: errno_text(e) },
                );
            },
        }
        match set_user_id(self.user.uid) {
            Ok(()) => {},
            Err(e) => {
                return Err(
                    SetupError::SetUser { user: self.user.name.clone(), detail: errno_text(e) },
                );
            },
        }
        Ok(())
    }

    /// The pair's display form: the user name alone when the user and group
    /// names agree, otherwise both joined by a colon.
    pub fn display_name(&self) -> (r: String)
        ensures
            self.user.name@ == self.group.name@ ==> r@ == self.user.name@,
            self.user.name@ != self.group.name@ ==> r@ == self.user.name@ + ":"@
                + self.group.name@,
    {
        if str_eq(self.user.name.as_str(), self.group.name.as_str()) {
            self.user.name.clone()
        } else {
            let mut m = self.user.name.clone();
            m.append(":");
            m.append(self.group.name.as_str());
            m
        }
    }

    /// The environment the daemon should carry after the drop: the `USER`,
    /// `HOME` and `SHELL` variables of the target user.
    pub fn env_vars(&self) -> (r: Vec<EnvVar>)
        ensures
            r@.len() == 3,
            r@[0].key@ == "USER"@ && r@[0].value@ == self.user.name@,
            r@[1].key@ == "HOME"@ && r@[1].value@ == self.user.home@,
            r@[2].key@ == "SHELL"@ && r@[2].value@ == self.user.shell@,
    {
        self.user.env_vars()
    }
}

} // verus!
