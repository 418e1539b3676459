//! The double-fork state machine and the synchronization channel protocol.
//!
//! Process creation itself cannot be performed from verified code, so the
//! orchestration is split: this module decides, the caller performs.  The
//! caller walks [`advance`] through the stages of the double fork, feeding it
//! the outcome of each step and performing the directive it returns; the
//! surviving grandchild holds a [`Parent`] handle through which it reports
//! its setup outcome exactly once, and the original process classifies what
//! it read from the channel with [`classify_report`] and exits accordingly.

use vstd::prelude::*;
use vstd::string::StringExecFns;

use crate::text::str_eq;

verus! {

/// The stages of the double-fork sequence, in order.
#[derive(Clone, Copy, Debug, PartialEq, Eq, Structural)]
pub enum Stage {
    /// Nothing has happened yet; the channel is about to be created.
    Start,
    /// The synchronization channel exists; the first fork is next.
    ChannelOpen,
    /// The first fork returned; the child detaches its session next, while
    /// the original process turns to reading the channel.
    FirstForked,
    /// The child owns a fresh session; the second fork is next.
    SessionLeader,
    /// The second fork returned; the grandchild is the daemon.
    SecondForked,
}

/// The outcome of one step of the sequence, as seen by the process that
/// performed it.  Failure events carry the system's error text.
#[derive(Debug, PartialEq, Eq)]
pub enum Event {
    /// The synchronization channel was created.
    ChannelOpened,
    /// The synchronization channel could not be created.
    ChannelFailed(String),
    /// A fork returned in the parent process.
    ForkedOriginal,
    /// A fork returned in the child process.
    ForkedChild,
    /// A fork failed.
    ForkFailed(String),
    /// A new session was acquired.
    SessionDetached,
    /// The session could not be acquired.
    SessionRefused,
}

/// What the calling process must do next.
#[derive(Debug, PartialEq, Eq)]
pub enum Directive {
    /// Perform the next fork.
    Fork,
    /// Acquire a new session.
    DetachSession,
    /// Block reading the channel until end of stream, then exit as
    /// [`classify_report`] says.  Only the original process does this.
    AwaitReport,
    /// Exit with code zero: the intermediate process is done, and its exit
    /// guarantees the daemon can never reacquire a controlling terminal.
    ExitSuccess,
    /// Continue as the daemon, holding the channel's write end in a
    /// [`Parent`] handle.
    BecomeDaemon,
    /// Print the message to standard error and exit with a nonzero code.
    Abort(String),
}

/// Which events a stage can see.  A terminal directive (awaiting the report,
/// exiting, becoming the daemon, aborting) ends the walk for the process
/// that received it.
pub open spec fn accepts(stage: Stage, event: &Event) -> bool {
    match stage {
        Stage::Start => event is ChannelOpened || event is ChannelFailed,
        Stage::ChannelOpen => event is ForkedOriginal || event is ForkedChild
            || event is ForkFailed,
        Stage::FirstForked => event is SessionDetached || event is SessionRefused,
        Stage::SessionLeader => event is ForkedOriginal || event is ForkedChild
            || event is ForkFailed,
        Stage::SecondForked => false,
    }
}

/// The stage that follows an event.
pub open spec fn next_stage(stage: Stage, event: &Event) -> Stage {
    match stage {
        Stage::Start => if event is ChannelOpened {
            Stage::ChannelOpen
        } else {
            Stage::Start
        },
        Stage::ChannelOpen => Stage::FirstForked,
        Stage::FirstForked => if event is SessionDetached {
            Stage::SessionLeader
        } else {
            Stage::FirstForked
        },
        Stage::SessionLeader => Stage::SecondForked,
        Stage::SecondForked => Stage::SecondForked,
    }
}

/// Advances the fork sequence by one step.
///
/// Every failure event aborts with the diagnostic of the step that failed;
/// the first fork splits the walk into the original process, which awaits
/// the daemon's report, and the child, which detaches and forks again; the
/// second fork splits it into the intermediate process, which exits at once,
/// and the grandchild, which becomes the daemon.
pub fn advance(stage: Stage, event: Event) -> (r: (Stage, Directive))
    requires
        accepts(stage, &event),
    ensures
        r.0 == next_stage(stage, &event),
        stage is Start && event is ChannelOpened ==> r.1 is Fork,
        stage is Start ==> (event matches Event::ChannelFailed(e) ==> (r.1
            matches Directive::Abort(m) && m@ == "failed to create interprocess channel: "@ + e@)),
        stage is ChannelOpen && event is ForkedOriginal ==> r.1 is AwaitReport,
        stage is ChannelOpen && event is ForkedChild ==> r.1 is DetachSession,
        stage is ChannelOpen ==> (event matches Event::ForkFailed(e) ==> (r.1
            matches Directive::Abort(m) && m@ == "failed to fork off for the first time: "@ + e@)),
        stage is FirstForked && event is SessionDetached ==> r.1 is Fork,
        stage is FirstForked && event is SessionRefused ==> (r.1 matches Directive::Abort(m)
            && m@ == "already process group leader"@),
        stage is SessionLeader && event is ForkedOriginal ==> r.1 is ExitSuccess,
        stage is SessionLeader && event is ForkedChild ==> r.1 is BecomeDaemon,
        stage is SessionLeader ==> (event matches Event::ForkFailed(e) ==> (r.1
            matches Directive::Abort(m) && m@ == "failed to fork off for the second time: "@ + e@)),
{
    match (stage, event) {
        (Stage::Start, Event::ChannelOpened) => (Stage::ChannelOpen, Directive::Fork),
        (Stage::Start, Event::ChannelFailed(e)) => {
            let mut m = "failed to create interprocess channel: ".to_owned();
            m.append(e.as_str());
            (Stage::Start, Directive::Abort(m))
        },
        (Stage::ChannelOpen, Event::ForkedOriginal) => (
            Stage::FirstForked,
            Directive::AwaitReport,
        ),
        (Stage::ChannelOpen, Event::ForkedChild) => (Stage::FirstForked, Directive::DetachSession),
        (Stage::ChannelOpen, Event::ForkFailed(e)) => {
            let mut m = "failed to fork off for the first time: ".to_owned();
            m.append(e.as_str());
            (Stage::FirstForked, Directive::Abort(m))
        },
        (Stage::FirstForked, Event::SessionDetached) => (Stage::SessionLeader, Directive::Fork),
        (Stage::FirstForked, Event::SessionRefused) => (
            Stage::FirstForked,
            Directive::Abort("already process group leader".to_owned()),
        ),
        (Stage::SessionLeader, Event::ForkedOriginal) => (
            Stage::SecondForked,
            Directive::ExitSuccess,
        ),
        (Stage::SessionLeader, Event::ForkedChild) => (
            Stage::SecondForked,
            Directive::BecomeDaemon,
        ),
        (Stage::SessionLeader, Event::ForkFailed(e)) => {
            let mut m = "failed to fork off for the second time: ".to_owned();
            m.append(e.as_str());
            (Stage::SecondForked, Directive::Abort(m))
        },
        // Excluded by the precondition; present only to make the match total.
        (s, _) => (s, Directive::Fork),
    }
}

/// The write end of the synchronization channel to the original process.
///
/// The daemon can send at most one message: the handle goes dead with the
/// first delivery, and every later use is a no-op.  Dropping the value (and
/// with it the underlying pipe end) without sending counts as an unspecified
/// failure on the reading side.  A handle made by [`Parent::default`] is
/// already dead; it spares programs that can also run in the foreground a
/// separate code path.
///
/// The handle itself only decides; the caller that owns the pipe's write end
/// performs the delivery.  [`Parent::notify`] and [`Parent::success`] return
/// the bytes to write and close the channel with, or [`None`] when nothing
/// must be written because the handle is already dead.
#[derive(Debug)]
pub struct Parent {
    live: bool,
}

impl Parent {
    /// Whether the channel is still open and the original process is
    /// waiting for a message.
    pub closed spec fn is_live(&self) -> bool {
        self.live
    }

    /// Creates the handle for a freshly forked daemon whose channel write
    /// end is open.
    pub fn new() -> (p: Parent)
        ensures
            p.is_live(),
    {
        Parent { live: true }
    }

    /// Returns true if the original process is waiting for a message.
    pub fn is_waiting(&self) -> (r: bool)
        ensures
            r == self.is_live(),
    {
        self.live
    }

    /// Consumes the channel with the given failure message.
    ///
    /// Returns the bytes the caller must now write to the channel before
    /// closing it, or [`None`] if a message was already delivered: the
    /// channel carries at most one message, and every call after the first
    /// is a no-op.
    pub fn notify(&mut self, message: &str) -> (r: Option<String>)
        ensures
            !final(self).is_live(),
            old(self).is_live() ==> (r matches Some(m) && m@ == message@),
            !old(self).is_live() ==> r is None,
    {
        if self.live {
            self.live = false;
            Some(message.to_owned())
        } else {
            None
        }
    }

    /// Consumes the channel with the success sentinel.
    ///
    /// Upon reading it, the original process exits with code zero without
    /// printing anything.  Like [`Parent::notify`], this is a no-op on a
    /// dead handle.
    pub fn success(&mut self) -> (r: Option<String>)
        ensures
            !final(self).is_live(),
            old(self).is_live() ==> (r matches Some(m) && m@ == "OK"@),
            !old(self).is_live() ==> r is None,
    {
        self.notify("OK")
    }
}

impl Default for Parent {
    /// A handle with no channel behind it, for processes that did not fork.
    fn default() -> (p: Parent)
        ensures
            !p.is_live(),
    {
        Parent { live: false }
    }
}

/// How the original process ends: its exit code, and the diagnostic to
/// print, if any.
#[derive(Debug, PartialEq, Eq)]
pub struct Verdict {
    pub code: i32,
    pub diagnostic: Option<String>,
}

/// Classifies the bytes the original process read from the channel before
/// it saw end of stream.
///
/// The success sentinel means the daemon is up: exit zero, print nothing.
/// An empty report means the daemon died without a word: exit nonzero with a
/// generic diagnostic.  Anything else is the daemon's own one-line
/// diagnostic: exit nonzero and print exactly that message.
pub fn classify_report(report: &str) -> (v: Verdict)
    ensures
        report@ == "OK"@ ==> v.code == 0 && v.diagnostic is None,
        report@.len() == 0 ==> v.code == 1 && (v.diagnostic matches Some(d) && d@
            == "daemon failed to start"@),
        report@ != "OK"@ && report@.len() != 0 ==> v.code == 1 && (v.diagnostic
            matches Some(d) && d@ == report@),
{
    proof {
        reveal_strlit("OK");
    }
    if str_eq(report, "OK") {
        Verdict { code: 0, diagnostic: None }
    } else if report.unicode_len() == 0 {
        Verdict { code: 1, diagnostic: Some("daemon failed to start".to_owned()) }
    } else {
        Verdict { code: 1, diagnostic: Some(report.to_owned()) }
    }
}

/// The diagnostic the original process prints when it cannot read the
/// channel at all; it then exits nonzero, since it has no other way to learn
/// the daemon's fate.
pub fn read_failure_message(detail: &str) -> (r: String)
    ensures
        r@ == "failed to read message from daemon process: "@ + detail@,
{
    let mut m = "failed to read message from daemon process: ".to_owned();
    m.append(detail);
    m
}

} // verus!
