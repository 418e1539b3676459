//! The closed set of errors a daemon setup step can report.
//!
//! Each variant carries the structured context of one failure: the offending
//! path or identity and, where the operating system reported a cause, its
//! error text.  [`SetupError::message`] renders the one-line diagnostic that
//! is sent to the original process over the synchronization channel.

use vstd::prelude::*;
use vstd::string::StringExecFns;

use crate::text::{dec_chars, u32_string};

verus! {

/// A failure during daemon setup, reported to the original process.
#[derive(Clone, Debug, PartialEq, Eq)]
pub enum SetupError {
    /// The pidfile path already holds a file.
    PidfileExists { path: String },
    /// The pidfile could not be created for another reason.
    PidfileCreate { path: String, detail: String },
    /// The pidfile was created but its content could not be written whole.
    PidfileWrite { path: String },
    /// Looking up a user by id failed in the identity database.
    UserIdLookup { uid: u32, detail: String },
    /// No user has the requested id.
    UserIdMissing { uid: u32 },
    /// Looking up a user by name failed in the identity database.
    UserNameLookup { name: String, detail: String },
    /// No user has the requested name.
    UserNameMissing { name: String },
    /// Looking up a group by id failed in the identity database.
    GroupIdLookup { gid: u32, detail: String },
    /// No group has the requested id.
    GroupIdMissing { gid: u32 },
    /// Looking up a group by name failed in the identity database.
    GroupNameLookup { name: String, detail: String },
    /// No group has the requested name.
    GroupNameMissing { name: String },
    /// Installing the supplementary group list failed.
    Supplementary { user: String, detail: String },
    /// Setting the group id failed.
    SetGroup { group: String, detail: String },
    /// Setting the user id failed.
    SetUser { user: String, detail: String },
    /// Changing the working directory failed.
    Workdir { path: String, detail: String },
    /// Redirecting standard input to the null device failed.
    Stdin { detail: String },
    /// Redirecting standard output failed.
    Stdout { path: String, detail: String },
    /// Redirecting standard error failed.
    Stderr { path: String, detail: String },
}

impl SetupError {
    /// The diagnostic text of this error.
    pub open spec fn text(&self) -> Seq<char> {
        match self {
            SetupError::PidfileExists { path } => "failed to create pidfile '"@ + path@
                + "': file already exists"@,
            SetupError::PidfileCreate { path, detail } => "failed to create pidfile '"@ + path@
                + "': "@ + detail@,
            SetupError::PidfileWrite { path } => "failed to write pidfile '"@ + path@
                + "': short write"@,
            SetupError::UserIdLookup { uid, detail } => "user with ID ("@ + dec_chars(*uid as nat)
                + "): "@ + detail@,
            SetupError::UserIdMissing { uid } => "user with ID ("@ + dec_chars(*uid as nat)
                + ") does not exist"@,
            SetupError::UserNameLookup { name, detail } => "user '"@ + name@ + "': "@ + detail@,
            SetupError::UserNameMissing { name } => "user '"@ + name@ + "' does not exist"@,
            SetupError::GroupIdLookup { gid, detail } => "group with ID ("@ + dec_chars(
                *gid as nat,
            ) + "): "@ + detail@,
            SetupError::GroupIdMissing { gid } => "group with ID ("@ + dec_chars(*gid as nat)
                + ") does not exist"@,
            SetupError::GroupNameLookup { name, detail } => "group '"@ + name@ + "': "@ + detail@,
            SetupError::GroupNameMissing { name } => "group '"@ + name@ + "' does not exist"@,
            SetupError::Supplementary { user, detail } => "failed to set supplementary group list for user '"@
                + user@ + "': "@ + detail@,
            SetupError::SetGroup { group, detail } => "failed to set group to '"@ + group@ + "': "@
                + detail@,
            SetupError::SetUser { user, detail } => "failed to set user to '"@ + user@ + "': "@
                + detail@,
            SetupError::Workdir { path, detail } => "failed to change working directory to '"@
                + path@ + "': "@ + detail@,
            SetupError::Stdin { detail } => "failed to redirect stdin to '/dev/null': "@ + detail@,
            SetupError::Stdout { path, detail } => "failed to redirect stdout to '"@ + path@
                + "': "@ + detail@,
            SetupError::Stderr { path, detail } => "failed to redirect stderr to '"@ + path@
                + "': "@ + detail@,
        }
    }

    /// Renders the one-line diagnostic for this error.
    pub fn message(&self) -> (r: String)
        ensures
            r@ == self.text(),
    {
        match self {
            SetupError::PidfileExists { path } => {
                let mut m = "failed to create pidfile '".to_owned();
                m.append(path.as_str());
                m.append("': file already exists");
                m
            },
            SetupError::PidfileCreate { path, detail } => {
                let mut m = "failed to create pidfile '".to_owned();
                m.append(path.as_str());
                m.append("': ");
                m.append(detail.as_str());
                m
            },
            SetupError::PidfileWrite { path } => {
                let mut m = "failed to write pidfile '".to_owned();
                m.append(path.as_str());
                m.append("': short write");
                m
            },
            SetupError::UserIdLookup { uid, detail } => {
                let mut m = "user with ID (".to_owned();
                m.append(u32_string(*uid).as_str());
                m.append("): ");
                m.append(detail.as_str());
                m
            },
            SetupError::UserIdMissing { uid } => {
                let mut m = "user with ID (".to_owned();
                m.append(u32_string(*uid).as_str());
                m.append(") does not exist");
                m
            },
            SetupError::UserNameLookup { name, detail } => {
                let mut m = "user '".to_owned();
                m.append(name.as_str());
                m.append("': ");
                m.append(detail.as_str());
                m
            },
            SetupError::UserNameMissing { name } => {
                let mut m = "user '".to_owned();
                m.append(name.as_str());
                m.append("' does not exist");
                m
            },
            SetupError::GroupIdLookup { gid, detail } => {
                let mut m = "group with ID (".to_owned();
                m.append(u32_string(*gid).as_str());
                m.append("): ");
                m.append(detail.as_str());
                m
            },
            SetupError::GroupIdMissing { gid } => {
                let mut m = "group with ID (".to_owned();
                m.append(u32_string(*gid).as_str());
                m.append(") does not exist");
                m
            },
            SetupError::GroupNameLookup { name, detail } => {
                let mut m = "group '".to_owned();
                m.append(name.as_str());
                m.append("': ");
                m.append(detail.as_str());
                m
            },
            SetupError::GroupNameMissing { name } => {
                let mut m = "group '".to_owned();
                m.append(name.as_str());
                m.append("' does not exist");
                m
            },
            SetupError::Supplementary { user, detail } => {
                let mut m = "failed to set supplementary group list for user '".to_owned();
                m.append(user.as_str());
                m.append("': ");
                m.append(detail.as_str());
                m
            },
            SetupError::SetGroup { group, detail } => {
                let mut m = "failed to set group to '".to_owned();
                m.append(group.as_str());
                m.append("': ");
                m.append(detail.as_str());
                m
            },
            SetupError::SetUser { user, detail } => {
                let mut m = "failed to set user to '".to_owned();
                m.append(user.as_str());
                m.append("': ");
                m.append(detail.as_str());
                m
            },
            SetupError::Workdir { path, detail } => {
                let mut m = "failed to change working directory to '".to_owned();
                m.append(path.as_str());
                m.append("': ");
                m.append(detail.as_str());
                m
            },
            SetupError::Stdin { detail } => {
                let mut m = "failed to redirect stdin to '/dev/null': ".to_owned();
                m.append(detail.as_str());
                m
            },
            SetupError::Stdout { path, detail } => {
                let mut m = "failed to redirect stdout to '".to_owned();
                m.append(path.as_str());
                m.append("': ");
                m.append(detail.as_str());
                m
            },
            SetupError::Stderr { path, detail } => {
                let mut m = "failed to redirect stderr to '".to_owned();
                m.append(path.as_str());
                m.append("': ");
                m.append(detail.as_str());
                m
            },
        }
    }
}

} // verus!
