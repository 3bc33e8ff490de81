//! The launcher: the short-lived process that starts the daemon and waits for
//! its outcome byte.
//!
//! Like the resolver, the launcher is a state machine. It asks for a channel,
//! then for a second process; in that process it hands over to the resolver,
//! and in its own it reads one byte and leaves with that byte as exit code.

use crate::notes::{
    fork_failed_text, no_lines, pipe_failed_text, silence_text, texts,
};
use crate::selector::{parse, parse_args, Invocation, InvocationView};
use vstd::prelude::*;
use vstd::string::StringExecFns;

verus! {

/// The exit code of a command line that was turned down.
pub const USAGE_EXIT: i32 = 1;

/// A failure that nothing can be done about: the process is to abort.
#[derive(Clone, Copy, PartialEq, Eq, Structural, Debug)]
pub enum FatalError {
    /// The handshake channel could not be created.
    Channel,
    /// No second process could be created.
    Fork,
    /// The channel was closed before any byte arrived.
    Silence,
}

impl FatalError {
    /// The text of the failure.
    pub open spec fn message_text(self) -> Seq<char> {
        match self {
            FatalError::Channel => pipe_failed_text(),
            FatalError::Fork => fork_failed_text(),
            FatalError::Silence => silence_text(),
        }
    }

    /// Builds the text of the failure.
    pub fn message(&self) -> (line: String)
        ensures
            line@ == self.message_text(),
    {
        match self {
            FatalError::Channel => String::from_str("redoxfs: failed to create pipe"),
            FatalError::Fork => String::from_str("redoxfs: failed to fork"),
            FatalError::Silence => String::from_str(
                "redoxfs: daemon closed the channel without an outcome",
            ),
        }
    }
}

/// What the launcher observed while carrying out a [`LaunchAction`].
#[derive(Clone, Copy, PartialEq, Eq, Structural, Debug)]
pub enum LaunchEvent {
    /// The call that creates the channel returned this status.
    ChannelCreated(isize),
    /// The call that creates the second process returned this value.
    Forked(isize),
    /// Reading from the channel ended, with the byte read if there was one.
    Received(Option<u8>),
}

/// What the launching process has to do next.
#[derive(Clone, Debug, PartialEq, Eq)]
pub enum LaunchAction {
    /// Create the handshake channel and report the call's status.
    CreateChannel,
    /// Create the daemon process and report what the call returned.
    Fork,
    /// This is the daemon: release the channel's read end and resolve.
    Resolve(Invocation),
    /// This is the launcher: release the channel's write end, read one byte
    /// and report it.
    Listen,
    /// Nothing new: the request made before is still being served.
    Wait,
    /// Leave the process with this exit code.
    Exit(i32),
    /// Abort the process.
    Abort(FatalError),
}

/// The mathematical value of a [`LaunchAction`].
pub enum LaunchActionView {
    CreateChannel,
    Fork,
    Resolve(InvocationView),
    Listen,
    Wait,
    Exit(i32),
    Abort(FatalError),
}

impl View for LaunchAction {
    type V = LaunchActionView;

    open spec fn view(&self) -> LaunchActionView {
        match *self {
            LaunchAction::CreateChannel => LaunchActionView::CreateChannel,
            LaunchAction::Fork => LaunchActionView::Fork,
            LaunchAction::Resolve(invocation) => LaunchActionView::Resolve(invocation@),
            LaunchAction::Listen => LaunchActionView::Listen,
            LaunchAction::Wait => LaunchActionView::Wait,
            LaunchAction::Exit(code) => LaunchActionView::Exit(code),
            LaunchAction::Abort(fault) => LaunchActionView::Abort(fault),
        }
    }
}

/// One move of the launcher: lines for the user, then the action.
#[derive(Clone, Debug, PartialEq, Eq)]
pub struct LaunchStep {
    /// Lines to show, in order.
    pub lines: Vec<String>,
    /// What to do after that.
    pub action: LaunchAction,
}

/// The mathematical value of a [`LaunchStep`].
pub struct LaunchStepView {
    pub lines: Seq<Seq<char>>,
    pub action: LaunchActionView,
}

impl View for LaunchStep {
    type V = LaunchStepView;

    open spec fn view(&self) -> LaunchStepView {
        LaunchStepView { lines: texts(self.lines@), action: self.action@ }
    }
}

/// Where the launching process stands.
#[derive(Clone, Debug, PartialEq, Eq)]
pub enum Launcher {
    /// Waiting for the channel to be created.
    Channel(Invocation),
    /// Waiting for the second process to be created.
    Fork(Invocation),
    /// Waiting for the daemon's byte.
    Listening,
    /// Nothing is left to decide here.
    Done,
}

/// The mathematical value of a [`Launcher`].
pub enum LauncherView {
    Channel(InvocationView),
    Fork(InvocationView),
    Listening,
    Done,
}

impl View for Launcher {
    type V = LauncherView;

    open spec fn view(&self) -> LauncherView {
        match *self {
            Launcher::Channel(invocation) => LauncherView::Channel(invocation@),
            Launcher::Fork(invocation) => LauncherView::Fork(invocation@),
            Launcher::Listening => LauncherView::Listening,
            Launcher::Done => LauncherView::Done,
        }
    }
}

impl LauncherView {
    /// A move without lines.
    pub open spec fn quiet(self, action: LaunchActionView) -> (LauncherView, LaunchStepView) {
        (self, LaunchStepView { lines: Seq::empty(), action })
    }

    /// The launcher's first move. A command line that is turned down is
    /// reported and ends the run with [`USAGE_EXIT`], before any channel or
    /// process is asked for.
    pub open spec fn begin(args: Seq<Seq<char>>) -> (LauncherView, LaunchStepView) {
        match parse(args) {
            Ok(invocation) => LauncherView::Channel(invocation).quiet(
                LaunchActionView::CreateChannel,
            ),
            Err(fault) => (
                LauncherView::Done,
                LaunchStepView { lines: fault.report(), action: LaunchActionView::Exit(USAGE_EXIT) },
            ),
        }
    }

    /// The launcher's transition function.
    pub open spec fn step(self, event: LaunchEvent) -> (LauncherView, LaunchStepView) {
        match (self, event) {
            (LauncherView::Channel(invocation), LaunchEvent::ChannelCreated(status)) => if status
                == 0 {
                LauncherView::Fork(invocation).quiet(LaunchActionView::Fork)
            } else {
                LauncherView::Done.quiet(LaunchActionView::Abort(FatalError::Channel))
            },
            (LauncherView::Fork(invocation), LaunchEvent::Forked(pid)) => if pid == 0 {
                LauncherView::Done.quiet(LaunchActionView::Resolve(invocation))
            } else if pid > 0 {
                LauncherView::Listening.quiet(LaunchActionView::Listen)
            } else {
                LauncherView::Done.quiet(LaunchActionView::Abort(FatalError::Fork))
            },
            (LauncherView::Listening, LaunchEvent::Received(Some(byte))) => LauncherView::Done.quiet(
                LaunchActionView::Exit(byte as i32),
            ),
            (LauncherView::Listening, LaunchEvent::Received(None)) => LauncherView::Done.quiet(
                LaunchActionView::Abort(FatalError::Silence),
            ),
            _ => self.quiet(LaunchActionView::Wait),
        }
    }
}

impl Launcher {
    /// Reads the command line, without the program's name, and makes the first
    /// move.
    pub fn begin(args: &Vec<String>) -> (start: (Launcher, LaunchStep))
        ensures
            (start.0@, start.1@) == LauncherView::begin(texts(args@)),
    {
        match parse_args(args) {
            Ok(invocation) => (
                Launcher::Channel(invocation),
                LaunchStep { lines: no_lines(), action: LaunchAction::CreateChannel },
            ),
            Err(fault) => (
                Launcher::Done,
                LaunchStep { lines: fault.report(), action: LaunchAction::Exit(USAGE_EXIT) },
            ),
        }
    }

    /// Takes in what the process observed and makes the next move.
    pub fn step(self, event: LaunchEvent) -> (next: (Launcher, LaunchStep))
        ensures
            (next.0@, next.1@) == self@.step(event),
    {
        let (state, action) = match (self, event) {
            (Launcher::Channel(invocation), LaunchEvent::ChannelCreated(status)) => if status
                == 0 {
                (Launcher::Fork(invocation), LaunchAction::Fork)
            } else {
                (Launcher::Done, LaunchAction::Abort(FatalError::Channel))
            },
            (Launcher::Fork(invocation), LaunchEvent::Forked(pid)) => if pid == 0 {
                (Launcher::Done, LaunchAction::Resolve(invocation))
            } else if pid > 0 {
                (Launcher::Listening, LaunchAction::Listen)
            } else {
                (Launcher::Done, LaunchAction::Abort(FatalError::Fork))
            },
            (Launcher::Listening, LaunchEvent::Received(Some(byte))) => (
                Launcher::Done,
                LaunchAction::Exit(byte as i32),
            ),
            (Launcher::Listening, LaunchEvent::Received(None)) => (
                Launcher::Done,
                LaunchAction::Abort(FatalError::Silence),
            ),
            (state, _) => (state, LaunchAction::Wait),
        };
        (state, LaunchStep { lines: no_lines(), action })
    }
}

/// The launcher's state after it has taken in `events`, in order.
pub open spec fn launcher_after(start: LauncherView, events: Seq<LaunchEvent>) -> LauncherView
    decreases events.len(),
{
    if events.len() == 0 {
        start
    } else {
        launcher_after(start, events.drop_last()).step(events.last()).0
    }
}

/// The launcher exits only with the byte that it received: whenever a step
/// tells it to exit, it was listening, a byte arrived, and the exit code is
/// that byte. So it exits with 0 only where the byte 0 was received.
pub proof fn lemma_exit_is_byte(state: LauncherView, event: LaunchEvent, code: i32)
    requires
        state.step(event).1.action == LaunchActionView::Exit(code),
    ensures
        state is Listening,
        event matches LaunchEvent::Received(Some(byte)) && byte == code,
        code == 0 ==> event == LaunchEvent::Received(Some(0u8)),
{
}

/// A listening launcher that receives a byte exits with that byte as its
/// code, and one whose channel closes without a byte aborts.
pub proof fn lemma_listening(received: Option<u8>)
    ensures
        LauncherView::Listening.step(LaunchEvent::Received(received)).1.action == (match received {
            Some(byte) => LaunchActionView::Exit(byte as i32),
            None => LaunchActionView::Abort(FatalError::Silence),
        }),
{
}

/// A command line that is turned down ends the run with exit code 1 at once:
/// whatever is reported afterwards, the launcher never asks for a channel, a
/// second process or a resolver.
pub proof fn lemma_turned_down_spawns_nothing(args: Seq<Seq<char>>, events: Seq<LaunchEvent>)
    requires
        parse(args) is Err,
    ensures
        LauncherView::begin(args).1.action == LaunchActionView::Exit(USAGE_EXIT),
        launcher_after(LauncherView::begin(args).0, events) == LauncherView::Done,
        events.len() > 0 ==> launcher_after(LauncherView::begin(args).0, events.drop_last()).step(
            events.last(),
        ).1.action == LaunchActionView::Wait,
    decreases events.len(),
{
    if events.len() > 0 {
        lemma_turned_down_spawns_nothing(args, events.drop_last());
    }
}

/// The launcher hands over to the resolver only in the process for which the
/// fork returned 0, and with the invocation that the command line gave.
pub proof fn lemma_resolves_in_daemon(state: LauncherView, event: LaunchEvent)
    requires
        state.step(event).1.action is Resolve,
    ensures
        event == LaunchEvent::Forked(0),
        state matches LauncherView::Fork(invocation) && state.step(event).1.action
            == LaunchActionView::Resolve(invocation),
{
}

} // verus!
