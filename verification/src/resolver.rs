//! The mount resolver: the daemon's walk over the candidate disks.
//!
//! The resolver is a state machine. Each [`Step`] tells the daemon what to
//! write to its log, which byte to send to the launcher, if any, and what to do
//! next; the daemon reports what came of it as an [`Event`].

use crate::notes::{
    filesystem_failed, filesystem_failed_text, image_failed, image_failed_text,
    lemma_texts_push, matched, matched_text, mismatched, mismatched_text, mount_failed,
    mount_failed_text, mounted, mounted_text, no_lines, one_line, opened, opened_text, opening,
    opening_text, texts, unable_path, unable_path_text, unable_uuid, unable_uuid_text,
};
use crate::selector::{DiskId, DiskIdView};
use vstd::prelude::*;

verus! {

/// The byte that tells the launcher that a filesystem is mounted.
pub const MOUNTED: u8 = 0;

/// The byte that tells the launcher that no candidate could be mounted.
pub const EXHAUSTED: u8 = 1;

/// What the daemon observed while carrying out an [`Action`].
#[derive(Clone, Debug, PartialEq, Eq)]
pub enum Event {
    /// The platform's scan for disks ended; these are the paths it found.
    Enumerated(Vec<String>),
    /// The candidate could not be opened as a disk.
    DiskFailed(String),
    /// The disk was opened, but no filesystem on it.
    FilesystemFailed(String),
    /// A filesystem was opened; its header carries this identifier.
    Opened([u8; 16]),
    /// The mount is attached and about to serve requests.
    Ready,
    /// The mount call returned an error.
    MountFailed(String),
    /// The mount call returned normally: the filesystem was unmounted.
    Unmounted,
}

/// The mathematical value of an [`Event`].
pub enum EventView {
    Enumerated(Seq<Seq<char>>),
    DiskFailed(Seq<char>),
    FilesystemFailed(Seq<char>),
    Opened(Seq<u8>),
    Ready,
    MountFailed(Seq<char>),
    Unmounted,
}

impl View for Event {
    type V = EventView;

    open spec fn view(&self) -> EventView {
        match *self {
            Event::Enumerated(found) => EventView::Enumerated(texts(found@)),
            Event::DiskFailed(why) => EventView::DiskFailed(why@),
            Event::FilesystemFailed(why) => EventView::FilesystemFailed(why@),
            Event::Opened(id) => EventView::Opened(id@),
            Event::Ready => EventView::Ready,
            Event::MountFailed(why) => EventView::MountFailed(why@),
            Event::Unmounted => EventView::Unmounted,
        }
    }
}

/// What the daemon has to do next.
#[derive(Clone, Debug, PartialEq, Eq)]
pub enum Action {
    /// Scan the platform for disks and report the paths found.
    Enumerate,
    /// Open the disk at this path and the filesystem on it.
    Probe(String),
    /// Mount the filesystem just opened on the disk at this path.
    Mount(String),
    /// Nothing new: the request made before is still being served.
    Wait,
    /// Leave the process with this exit code.
    Exit(i32),
}

/// The mathematical value of an [`Action`].
pub enum ActionView {
    Enumerate,
    Probe(Seq<char>),
    Mount(Seq<char>),
    Wait,
    Exit(i32),
}

impl View for Action {
    type V = ActionView;

    open spec fn view(&self) -> ActionView {
        match *self {
            Action::Enumerate => ActionView::Enumerate,
            Action::Probe(path) => ActionView::Probe(path@),
            Action::Mount(path) => ActionView::Mount(path@),
            Action::Wait => ActionView::Wait,
            Action::Exit(code) => ActionView::Exit(code),
        }
    }
}

/// One move of the resolver: log lines, then the byte to send, then the
/// action.
#[derive(Clone, Debug, PartialEq, Eq)]
pub struct Step {
    /// Lines to append to the log, in order.
    pub lines: Vec<String>,
    /// The byte to write to the handshake channel before acting, if any.
    pub send: Option<u8>,
    /// What to do after that.
    pub action: Action,
}

/// The mathematical value of a [`Step`].
pub struct StepView {
    pub lines: Seq<Seq<char>>,
    pub send: Option<u8>,
    pub action: ActionView,
}

impl View for Step {
    type V = StepView;

    open spec fn view(&self) -> StepView {
        StepView { lines: texts(self.lines@), send: self.send, action: self.action@ }
    }
}

/// Where the resolver stands.
#[derive(Clone, Copy, PartialEq, Eq, Structural, Debug)]
pub enum Phase {
    /// Waiting for the platform's scan for disks.
    Enumerating,
    /// Waiting for the current candidate to be opened.
    Probing,
    /// Waiting on the mount call for the current candidate.
    Mounting,
    /// The daemon was told to exit with this code.
    Finished(i32),
}

/// The daemon's state while it resolves a selector to a mounted filesystem.
#[derive(Debug)]
pub struct Resolver {
    disk: DiskId,
    mountpoint: String,
    candidates: Vec<String>,
    cursor: usize,
    phase: Phase,
    signalled: bool,
}

/// The mathematical value of a [`Resolver`].
pub struct ResolverView {
    /// The selector given by the user.
    pub disk: DiskIdView,
    /// Where to mount.
    pub mountpoint: Seq<char>,
    /// The candidate paths, in the order in which they are tried.
    pub candidates: Seq<Seq<char>>,
    /// The index of the current candidate.
    pub cursor: int,
    /// What the resolver is waiting for.
    pub phase: Phase,
    /// Whether the outcome byte has been sent.
    pub signalled: bool,
}

impl ResolverView {
    /// The resolver's invariant: the cursor names a candidate while one is
    /// being tried, and the daemon never finishes without having sent its byte.
    pub open spec fn wf(self) -> bool {
        &&& 0 <= self.cursor <= self.candidates.len()
        &&& self.phase is Enumerating ==> self.candidates.len() == 0 && self.disk is Uuid
            && !self.signalled
        &&& (self.phase is Probing || self.phase is Mounting) ==> self.cursor
            < self.candidates.len()
        &&& self.phase is Finished ==> self.signalled
        &&& self.disk matches DiskIdView::Path(path) ==> self.candidates == seq![path]
        &&& self.disk matches DiskIdView::Uuid(id) ==> id.len() == 16
    }

    /// The path of the current candidate.
    pub open spec fn current(self) -> Seq<char> {
        self.candidates[self.cursor]
    }

    /// The closing line of a run that mounted nothing.
    pub open spec fn unable_text(self) -> Seq<char> {
        match self.disk {
            DiskIdView::Path(path) => unable_path_text(path),
            DiskIdView::Uuid(id) => unable_uuid_text(id),
        }
    }

    /// The end of the walk: every candidate was tried. The byte for failure is
    /// sent unless the channel was used before, and the daemon exits with 1.
    pub open spec fn give_up(self, lines: Seq<Seq<char>>) -> (ResolverView, StepView) {
        (
            ResolverView { phase: Phase::Finished(1), signalled: true, ..self },
            StepView {
                lines: lines.push(self.unable_text()),
                send: if self.signalled {
                    None
                } else {
                    Some(EXHAUSTED)
                },
                action: ActionView::Exit(1),
            },
        )
    }

    /// Turns to the candidate at `index`, or gives up if there is none.
    pub open spec fn turn_to(self, index: int, lines: Seq<Seq<char>>) -> (ResolverView, StepView) {
        let at = ResolverView { cursor: index, ..self };
        if index < self.candidates.len() {
            (
                ResolverView { phase: Phase::Probing, ..at },
                StepView {
                    lines: lines.push(opening_text(self.candidates[index])),
                    send: None,
                    action: ActionView::Probe(self.candidates[index]),
                },
            )
        } else {
            at.give_up(lines)
        }
    }

    /// An event that answers no pending request changes nothing.
    pub open spec fn ignore(self) -> (ResolverView, StepView) {
        (
            self,
            StepView {
                lines: Seq::empty(),
                send: None,
                action: match self.phase {
                    Phase::Finished(code) => ActionView::Exit(code),
                    _ => ActionView::Wait,
                },
            },
        )
    }

    /// The lines that report an opened filesystem and, under a UUID selector,
    /// how its identifier compares with the wanted one.
    pub open spec fn opened_lines(self, id: Seq<u8>) -> Seq<Seq<char>> {
        let first = seq![opened_text(self.current(), id)];
        match self.disk.target() {
            None => first,
            Some(wanted) => if id == wanted {
                first.push(matched_text(self.current(), wanted))
            } else {
                first.push(mismatched_text(self.current(), wanted))
            },
        }
    }

    /// Whether a filesystem with this identifier is the one to mount: always
    /// under a path selector, and under a UUID selector if the sixteen bytes
    /// are equal.
    pub open spec fn wants(self, id: Seq<u8>) -> bool {
        match self.disk.target() {
            None => true,
            Some(wanted) => id == wanted,
        }
    }

    /// The resolver's transition function.
    pub open spec fn step(self, event: EventView) -> (ResolverView, StepView) {
        match (self.phase, event) {
            (Phase::Enumerating, EventView::Enumerated(found)) => ResolverView {
                candidates: found,
                ..self
            }.turn_to(0, Seq::empty()),
            (Phase::Probing, EventView::DiskFailed(why)) => self.turn_to(
                self.cursor + 1,
                seq![image_failed_text(self.current(), why)],
            ),
            (Phase::Probing, EventView::FilesystemFailed(why)) => self.turn_to(
                self.cursor + 1,
                seq![filesystem_failed_text(self.current(), why)],
            ),
            (Phase::Probing, EventView::Opened(id)) => if self.wants(id) {
                (
                    ResolverView { phase: Phase::Mounting, ..self },
                    StepView {
                        lines: self.opened_lines(id),
                        send: None,
                        action: ActionView::Mount(self.current()),
                    },
                )
            } else {
                self.turn_to(self.cursor + 1, self.opened_lines(id))
            },
            (Phase::Mounting, EventView::Ready) => (
                ResolverView { signalled: true, ..self },
                StepView {
                    lines: seq![mounted_text(self.current(), self.mountpoint)],
                    send: if self.signalled {
                        None
                    } else {
                        Some(MOUNTED)
                    },
                    action: ActionView::Wait,
                },
            ),
            (Phase::Mounting, EventView::MountFailed(why)) => self.turn_to(
                self.cursor + 1,
                seq![mount_failed_text(self.current(), self.mountpoint, why)],
            ),
            (Phase::Mounting, EventView::Unmounted) => (
                ResolverView { phase: Phase::Finished(0), signalled: true, ..self },
                StepView {
                    lines: Seq::empty(),
                    send: if self.signalled {
                        None
                    } else {
                        Some(MOUNTED)
                    },
                    action: ActionView::Exit(0),
                },
            ),
            _ => self.ignore(),
        }
    }

    /// The resolver's first move: a path is probed at once, a UUID is first
    /// looked for among the platform's disks.
    pub open spec fn begin(disk: DiskIdView, mountpoint: Seq<char>) -> (ResolverView, StepView) {
        match disk {
            DiskIdView::Path(path) => ResolverView {
                disk,
                mountpoint,
                candidates: seq![path],
                cursor: 0,
                phase: Phase::Probing,
                signalled: false,
            }.turn_to(0, Seq::empty()),
            DiskIdView::Uuid(_) => (
                ResolverView {
                    disk,
                    mountpoint,
                    candidates: Seq::empty(),
                    cursor: 0,
                    phase: Phase::Enumerating,
                    signalled: false,
                },
                StepView { lines: Seq::empty(), send: None, action: ActionView::Enumerate },
            ),
        }
    }
}

impl View for Resolver {
    type V = ResolverView;

    closed spec fn view(&self) -> ResolverView {
        ResolverView {
            disk: self.disk@,
            mountpoint: self.mountpoint@,
            candidates: texts(self.candidates@),
            cursor: self.cursor as int,
            phase: self.phase,
            signalled: self.signalled,
        }
    }
}

/// Whether two identifiers agree in all sixteen bytes.
pub fn same_id(left: &[u8; 16], right: &[u8; 16]) -> (same: bool)
    ensures
        same == (left@ == right@),
{
    let mut at: usize = 0;
    while at < 16
        invariant
            at <= 16,
            forall|k: int| 0 <= k < at ==> left@[k] == right@[k],
        decreases 16 - at,
    {
        if left[at] != right[at] {
            return false;
        }
        at += 1;
    }
    assert(left@ =~= right@);
    true
}

impl Resolver {
    #[verifier::type_invariant]
    spec fn inv(self) -> bool {
        self@.wf()
    }

    /// Starts a run for a selector and a mountpoint, and makes the first move.
    pub fn begin(disk: DiskId, mountpoint: String) -> (start: (Resolver, Step))
        ensures
            (start.0@, start.1@) == ResolverView::begin(disk@, mountpoint@),
            start.0@.wf(),
    {
        match disk {
            DiskId::Path(path) => {
                let candidates = one_line(path.clone());
                turn_to(DiskId::Path(path), mountpoint, candidates, false, 0, no_lines())
            },
            DiskId::Uuid(id) => {
                let resolver = Resolver {
                    disk: DiskId::Uuid(id),
                    mountpoint,
                    candidates: no_lines(),
                    cursor: 0,
                    phase: Phase::Enumerating,
                    signalled: false,
                };
                (resolver, Step { lines: no_lines(), send: None, action: Action::Enumerate })
            },
        }
    }

    /// What the resolver is waiting for.
    pub fn phase(&self) -> (phase: Phase)
        ensures
            phase == self@.phase,
            self@.wf(),
    {
        proof {
            use_type_invariant(self);
        }
        self.phase
    }

    /// Takes in what the daemon observed and makes the next move.
    pub fn step(self, event: Event) -> (next: (Resolver, Step))
        ensures
            (next.0@, next.1@) == self@.step(event@),
            self@.wf(),
            next.0@.wf(),
    {
        proof {
            use_type_invariant(&self);
        }
        let Resolver { disk, mountpoint, candidates, cursor, phase, signalled } = self;
        assert(self@.candidates.len() == candidates.len());
        match (phase, event) {
            (Phase::Enumerating, Event::Enumerated(found)) => {
                turn_to(disk, mountpoint, found, signalled, 0, no_lines())
            },
            (Phase::Probing, Event::DiskFailed(why)) => {
                let line = image_failed(candidates[cursor].as_str(), why.as_str());
                turn_to(disk, mountpoint, candidates, signalled, cursor + 1, one_line(line))
            },
            (Phase::Probing, Event::FilesystemFailed(why)) => {
                let line = filesystem_failed(candidates[cursor].as_str(), why.as_str());
                turn_to(disk, mountpoint, candidates, signalled, cursor + 1, one_line(line))
            },
            (Phase::Probing, Event::Opened(id)) => {
                let path = candidates[cursor].as_str();
                let mut lines = one_line(opened(path, &id));
                let wanted = match &disk {
                    DiskId::Path(_) => true,
                    DiskId::Uuid(target) => {
                        let same = same_id(&id, target);
                        let line = if same {
                            matched(path, target)
                        } else {
                            mismatched(path, target)
                        };
                        proof {
                            lemma_texts_push(lines@, line);
                        }
                        lines.push(line);
                        same
                    },
                };
                if wanted {
                    let action = Action::Mount(candidates[cursor].clone());
                    (
                        Resolver {
                            disk,
                            mountpoint,
                            candidates,
                            cursor,
                            phase: Phase::Mounting,
                            signalled,
                        },
                        Step { lines, send: None, action },
                    )
                } else {
                    turn_to(disk, mountpoint, candidates, signalled, cursor + 1, lines)
                }
            },
            (Phase::Mounting, Event::Ready) => {
                let line = mounted(candidates[cursor].as_str(), mountpoint.as_str());
                (
                    Resolver { disk, mountpoint, candidates, cursor, phase, signalled: true },
                    Step { lines: one_line(line), send: first_use(signalled, MOUNTED), action: Action::Wait },
                )
            },
            (Phase::Mounting, Event::MountFailed(why)) => {
                let line = mount_failed(
                    candidates[cursor].as_str(),
                    mountpoint.as_str(),
                    why.as_str(),
                );
                turn_to(disk, mountpoint, candidates, signalled, cursor + 1, one_line(line))
            },
            (Phase::Mounting, Event::Unmounted) => {
                let step = Step {
                    lines: no_lines(),
                    send: first_use(signalled, MOUNTED),
                    action: Action::Exit(0),
                };
                (
                    Resolver {
                        disk,
                        mountpoint,
                        candidates,
                        cursor,
                        phase: Phase::Finished(0),
                        signalled: true,
                    },
                    step,
                )
            },
            (_, _) => {
                let action = match phase {
                    Phase::Finished(code) => Action::Exit(code),
                    _ => Action::Wait,
                };
                (
                    Resolver { disk, mountpoint, candidates, cursor, phase, signalled },
                    Step { lines: no_lines(), send: None, action },
                )
            },
        }
    }
}

/// The byte to send, unless the channel has been used before.
fn first_use(signalled: bool, byte: u8) -> (send: Option<u8>)
    ensures
        send == if signalled {
            None
        } else {
            Some(byte)
        },
{
    if signalled {
        None
    } else {
        Some(byte)
    }
}

/// Moves on to the candidate at `index`, after the lines already written, or
/// closes the run if there is no such candidate.
fn turn_to(
    disk: DiskId,
    mountpoint: String,
    candidates: Vec<String>,
    signalled: bool,
    index: usize,
    lines: Vec<String>,
) -> (next: (Resolver, Step))
    requires
        index <= candidates.len(),
        disk matches DiskId::Path(path) ==> texts(candidates@) == seq![path@],
    ensures
        (next.0@, next.1@) == (ResolverView {
            disk: disk@,
            mountpoint: mountpoint@,
            candidates: texts(candidates@),
            cursor: 0,
            phase: Phase::Probing,
            signalled,
        }).turn_to(index as int, texts(lines@)),
        next.0@.wf(),
{
    let mut lines = lines;
    if index < candidates.len() {
        let line = opening(candidates[index].as_str());
        let action = Action::Probe(candidates[index].clone());
        proof {
            lemma_texts_push(lines@, line);
        }
        lines.push(line);
        (
            Resolver { disk, mountpoint, candidates, cursor: index, phase: Phase::Probing, signalled },
            Step { lines, send: None, action },
        )
    } else {
        let line = match &disk {
            DiskId::Path(path) => unable_path(path.as_str()),
            DiskId::Uuid(id) => unable_uuid(id),
        };
        proof {
            lemma_texts_push(lines@, line);
        }
        lines.push(line);
        (
            Resolver {
                disk,
                mountpoint,
                candidates,
                cursor: index,
                phase: Phase::Finished(1),
                signalled: true,
            },
            Step { lines, send: first_use(signalled, EXHAUSTED), action: Action::Exit(1) },
        )
    }
}

} // verus!
