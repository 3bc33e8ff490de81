//! Rehearsing a run of the daemon against a scripted platform.
//!
//! A script says, for each candidate in turn, what opening it gives and what
//! mounting it would come to. Playing the resolver against a script needs no
//! process, disk or channel, and gives everything that the run would show.

use crate::notes::{lemma_texts_push, no_lines, texts};
use crate::resolver::{
    Action, ActionView, Event, EventView, Phase, Resolver, ResolverView, Step, StepView,
};
use crate::selector::{DiskId, DiskIdView};
use vstd::prelude::*;

verus! {

/// How the mount call for a candidate goes.
#[derive(Clone, Debug, PartialEq, Eq)]
pub enum MountEnd {
    /// It returns an error before the mount is attached.
    Refused(String),
    /// The mount is attached and goes on serving.
    Serving,
    /// The mount is attached, serves, and is unmounted in the end.
    Unmounted,
    /// The mount is attached, and the call later returns an error.
    Lost(String),
}

/// The mathematical value of a [`MountEnd`].
pub enum MountEndView {
    Refused(Seq<char>),
    Serving,
    Unmounted,
    Lost(Seq<char>),
}

impl View for MountEnd {
    type V = MountEndView;

    open spec fn view(&self) -> MountEndView {
        match *self {
            MountEnd::Refused(why) => MountEndView::Refused(why@),
            MountEnd::Serving => MountEndView::Serving,
            MountEnd::Unmounted => MountEndView::Unmounted,
            MountEnd::Lost(why) => MountEndView::Lost(why@),
        }
    }
}

/// What trying one candidate gives.
#[derive(Clone, Debug, PartialEq, Eq)]
pub enum Attempt {
    /// It cannot be opened as a disk.
    NoDisk(String),
    /// It holds no filesystem that can be opened.
    NoFilesystem(String),
    /// It holds a filesystem with this identifier; mounting it goes as said.
    Opened([u8; 16], MountEnd),
}

/// The mathematical value of an [`Attempt`].
pub enum AttemptView {
    NoDisk(Seq<char>),
    NoFilesystem(Seq<char>),
    Opened(Seq<u8>, MountEndView),
}

impl View for Attempt {
    type V = AttemptView;

    open spec fn view(&self) -> AttemptView {
        match *self {
            Attempt::NoDisk(why) => AttemptView::NoDisk(why@),
            Attempt::NoFilesystem(why) => AttemptView::NoFilesystem(why@),
            Attempt::Opened(id, end) => AttemptView::Opened(id@, end@),
        }
    }
}

/// The values of a script, in order.
pub open spec fn attempt_views(attempts: Seq<Attempt>) -> Seq<AttemptView> {
    Seq::new(attempts.len(), |i: int| attempts[i]@)
}

impl AttemptView {
    /// What the daemon observes when it opens the candidate.
    pub open spec fn probe(self) -> EventView {
        match self {
            AttemptView::NoDisk(why) => EventView::DiskFailed(why),
            AttemptView::NoFilesystem(why) => EventView::FilesystemFailed(why),
            AttemptView::Opened(id, _) => EventView::Opened(id),
        }
    }

    /// Whether the candidate holds a filesystem with the identifier `wanted`.
    pub open spec fn carries(self, wanted: Seq<u8>) -> bool {
        self matches AttemptView::Opened(id, _) && id == wanted
    }
}

/// Everything that a run shows.
#[derive(Clone, Debug, PartialEq, Eq)]
pub struct Report {
    /// The log, in order.
    pub lines: Vec<String>,
    /// The bytes written to the handshake channel, in order.
    pub sent: Vec<u8>,
    /// The candidates that the daemon asked to mount, in order.
    pub mounted: Vec<String>,
    /// The daemon's exit code, or `None` while it has not been told to exit.
    pub exit: Option<i32>,
}

/// The mathematical value of a [`Report`].
pub struct ReportView {
    pub lines: Seq<Seq<char>>,
    pub sent: Seq<u8>,
    pub mounted: Seq<Seq<char>>,
    pub exit: Option<i32>,
}

impl View for Report {
    type V = ReportView;

    open spec fn view(&self) -> ReportView {
        ReportView {
            lines: texts(self.lines@),
            sent: self.sent@,
            mounted: texts(self.mounted@),
            exit: self.exit,
        }
    }
}

impl ReportView {
    /// The report of a run in which nothing has happened yet.
    pub open spec fn empty() -> ReportView {
        ReportView {
            lines: Seq::empty(),
            sent: Seq::empty(),
            mounted: Seq::empty(),
            exit: None,
        }
    }

    /// The report with one more move of the resolver.
    pub open spec fn record(self, step: StepView) -> ReportView {
        ReportView {
            lines: self.lines + step.lines,
            sent: match step.send {
                Some(byte) => self.sent.push(byte),
                None => self.sent,
            },
            mounted: match step.action {
                ActionView::Mount(path) => self.mounted.push(path),
                _ => self.mounted,
            },
            exit: match step.action {
                ActionView::Exit(code) => Some(code),
                _ => self.exit,
            },
        }
    }
}

/// The resolver takes in one event, and the report its move.
pub open spec fn observe(state: ResolverView, report: ReportView, event: EventView) -> (
    ResolverView,
    ReportView,
) {
    (state.step(event).0, report.record(state.step(event).1))
}

/// The mount call that the resolver asked for runs its course.
pub open spec fn mount(state: ResolverView, report: ReportView, end: MountEndView) -> (
    ResolverView,
    ReportView,
) {
    match end {
        MountEndView::Refused(why) => observe(state, report, EventView::MountFailed(why)),
        MountEndView::Serving => observe(state, report, EventView::Ready),
        MountEndView::Unmounted => {
            let ready = observe(state, report, EventView::Ready);
            observe(ready.0, ready.1, EventView::Unmounted)
        },
        MountEndView::Lost(why) => {
            let ready = observe(state, report, EventView::Ready);
            observe(ready.0, ready.1, EventView::MountFailed(why))
        },
    }
}

/// The daemon tries one candidate: it opens it and, if the resolver asks for
/// that, mounts it.
pub open spec fn attempt(state: ResolverView, report: ReportView, tried: AttemptView) -> (
    ResolverView,
    ReportView,
) {
    let probed = observe(state, report, tried.probe());
    match tried {
        AttemptView::Opened(_, end) if probed.0.phase is Mounting => mount(
            probed.0,
            probed.1,
            end,
        ),
        _ => probed,
    }
}

/// The daemon tries the candidates one after another as the script says, as
/// long as the resolver waits for a candidate to be opened and the script
/// goes on.
pub open spec fn play(state: ResolverView, report: ReportView, script: Seq<AttemptView>) -> (
    ResolverView,
    ReportView,
)
    decreases script.len(),
{
    if script.len() == 0 || !(state.phase is Probing) {
        (state, report)
    } else {
        let tried = attempt(state, report, script[0]);
        play(tried.0, tried.1, script.drop_first())
    }
}

/// The run of the daemon for a selector and a mountpoint on a platform whose
/// scan for disks gives `found` and whose candidates behave as `script` says.
pub open spec fn rehearsal(
    disk: DiskIdView,
    mountpoint: Seq<char>,
    found: Seq<Seq<char>>,
    script: Seq<AttemptView>,
) -> (ResolverView, ReportView) {
    let begun = ResolverView::begin(disk, mountpoint);
    let first = ReportView::empty().record(begun.1);
    let ready = if begun.0.phase is Enumerating {
        observe(begun.0, first, EventView::Enumerated(found))
    } else {
        (begun.0, first)
    };
    play(ready.0, ready.1, script)
}

/// The texts of two logs, one after the other, are the texts of the joined
/// log.
pub proof fn lemma_texts_add(front: Seq<String>, back: Seq<String>)
    ensures
        texts(front + back) == texts(front) + texts(back),
{
    assert(texts(front + back) =~= texts(front) + texts(back));
}

impl Report {
    /// The report of a run in which nothing has happened yet.
    pub fn new() -> (report: Report)
        ensures
            report@ == ReportView::empty(),
    {
        Report { lines: no_lines(), sent: Vec::new(), mounted: no_lines(), exit: None }
    }

    /// Takes one more move of the resolver into the report.
    pub fn record(&mut self, step: Step)
        ensures
            final(self)@ == old(self)@.record(step@),
    {
        let Step { lines, send, action } = step;
        let mut lines = lines;
        proof {
            lemma_texts_add(self.lines@, lines@);
        }
        self.lines.append(&mut lines);
        match send {
            Some(byte) => {
                self.sent.push(byte);
            },
            None => {},
        }
        match action {
            Action::Mount(path) => {
                proof {
                    lemma_texts_push(self.mounted@, path);
                }
                self.mounted.push(path);
            },
            Action::Exit(code) => {
                self.exit = Some(code);
            },
            _ => {},
        }
    }
}

/// Hands one event to the resolver and its move to the report.
fn observed(resolver: Resolver, report: &mut Report, event: Event) -> (next: Resolver)
    ensures
        (next@, final(report)@) == observe(resolver@, old(report)@, event@),
        next@.wf(),
{
    let (next, step) = resolver.step(event);
    report.record(step);
    next
}

/// Lets the mount call that the resolver asked for run its course.
fn mounted(resolver: Resolver, report: &mut Report, end: &MountEnd) -> (next: Resolver)
    ensures
        (next@, final(report)@) == mount(resolver@, old(report)@, end@),
        next@.wf(),
{
    match end {
        MountEnd::Refused(why) => observed(resolver, report, Event::MountFailed(why.clone())),
        MountEnd::Serving => observed(resolver, report, Event::Ready),
        MountEnd::Unmounted => {
            let ready = observed(resolver, report, Event::Ready);
            observed(ready, report, Event::Unmounted)
        },
        MountEnd::Lost(why) => {
            let ready = observed(resolver, report, Event::Ready);
            observed(ready, report, Event::MountFailed(why.clone()))
        },
    }
}

/// Lets the daemon try one candidate.
fn attempted(resolver: Resolver, report: &mut Report, tried: &Attempt) -> (next: Resolver)
    ensures
        (next@, final(report)@) == attempt(resolver@, old(report)@, tried@),
        next@.wf(),
{
    match tried {
        Attempt::NoDisk(why) => observed(resolver, report, Event::DiskFailed(why.clone())),
        Attempt::NoFilesystem(why) => observed(
            resolver,
            report,
            Event::FilesystemFailed(why.clone()),
        ),
        Attempt::Opened(id, end) => {
            let probed = observed(resolver, report, Event::Opened(*id));
            match probed.phase() {
                Phase::Mounting => mounted(probed, report, end),
                _ => probed,
            }
        },
    }
}

/// Plays the daemon's run for a selector and a mountpoint on a platform whose
/// scan for disks gives `found` and whose candidates behave as `script` says,
/// one entry for each candidate in the order tried. The run stops where the
/// daemon exits, where a mount goes on serving, or where the script ends.
pub fn rehearse(disk: DiskId, mountpoint: String, found: Vec<String>, script: &Vec<Attempt>) -> (report:
    Report)
    ensures
        report@ == rehearsal(disk@, mountpoint@, texts(found@), attempt_views(script@)).1,
{
    let mut report = Report::new();
    let (begun, first) = Resolver::begin(disk, mountpoint);
    report.record(first);
    let mut resolver = match begun.phase() {
        Phase::Enumerating => observed(begun, &mut report, Event::Enumerated(found)),
        _ => begun,
    };
    let ghost all = attempt_views(script@);
    let ghost end = play(resolver@, report@, all);
    let mut at: usize = 0;
    let mut probing = match resolver.phase() {
        Phase::Probing => true,
        _ => false,
    };
    proof {
        assert(all.skip(0) =~= all);
    }
    while at < script.len() && probing
        invariant
            at <= script.len(),
            all == attempt_views(script@),
            probing == (resolver@.phase is Probing),
            play(resolver@, report@, all.skip(at as int)) == end,
        decreases script.len() - at,
    {
        proof {
            assert(all.skip(at as int).drop_first() =~= all.skip(at + 1));
            assert(all.skip(at as int)[0] == script@[at as int]@);
        }
        resolver = attempted(resolver, &mut report, &script[at]);
        probing = match resolver.phase() {
            Phase::Probing => true,
            _ => false,
        };
        at += 1;
    }
    report
}

} // verus!
