//! What holds of every rehearsed run: how many bytes the channel carries, and
//! which candidates a UUID selector gets mounted.

use crate::resolver::{EventView, Phase, ResolverView, EXHAUSTED, MOUNTED};
use crate::runs::{lemma_begin, lemma_step, well_formed};
use crate::script::{
    attempt, mount, observe, play, rehearsal, AttemptView, MountEndView, ReportView,
};
use crate::selector::DiskIdView;
use vstd::prelude::*;

verus! {

/// A report that agrees with the resolver's state: the channel has carried
/// one byte if it was used and none if not, and the exit code is known
/// exactly when the run has ended.
pub open spec fn agrees(state: ResolverView, report: ReportView) -> bool {
    &&& state.wf()
    &&& report.sent.len() == (if state.signalled {
        1nat
    } else {
        0nat
    })
    &&& report.exit == (match state.phase {
        Phase::Finished(code) => Some(code),
        _ => None,
    })
}

/// Taking in an event keeps report and state in agreement, and sends nothing
/// once the channel has been used.
pub proof fn lemma_observe_agrees(state: ResolverView, report: ReportView, event: EventView)
    requires
        agrees(state, report),
    ensures
        agrees(observe(state, report, event).0, observe(state, report, event).1),
        observe(state, report, event).0.disk == state.disk,
        state.signalled ==> observe(state, report, event).1.sent == report.sent,
{
    lemma_step(state, event);
}

/// A mount call that runs its course keeps report and state in agreement and
/// asks for no further mount. Where it attaches while the channel is unused,
/// it sends [`MOUNTED`], and nothing else.
pub proof fn lemma_mount_agrees(state: ResolverView, report: ReportView, end: MountEndView)
    requires
        agrees(state, report),
    ensures
        agrees(mount(state, report, end).0, mount(state, report, end).1),
        mount(state, report, end).0.disk == state.disk,
        mount(state, report, end).1.mounted == report.mounted,
        state.signalled ==> mount(state, report, end).1.sent == report.sent,
        state.phase is Mounting && !state.signalled && !(end is Refused) ==> mount(
            state,
            report,
            end,
        ).1.sent == report.sent.push(MOUNTED),
{
    match end {
        MountEndView::Refused(why) => {
            lemma_observe_agrees(state, report, EventView::MountFailed(why));
        },
        MountEndView::Serving => {
            lemma_observe_agrees(state, report, EventView::Ready);
        },
        MountEndView::Unmounted => {
            lemma_observe_agrees(state, report, EventView::Ready);
            let ready = observe(state, report, EventView::Ready);
            lemma_observe_agrees(ready.0, ready.1, EventView::Unmounted);
        },
        MountEndView::Lost(why) => {
            lemma_observe_agrees(state, report, EventView::Ready);
            let ready = observe(state, report, EventView::Ready);
            lemma_observe_agrees(ready.0, ready.1, EventView::MountFailed(why));
        },
    }
}

/// Trying a candidate keeps report and state in agreement, and sends nothing
/// once the channel has been used.
pub proof fn lemma_attempt_agrees(state: ResolverView, report: ReportView, tried: AttemptView)
    requires
        agrees(state, report),
    ensures
        agrees(attempt(state, report, tried).0, attempt(state, report, tried).1),
        attempt(state, report, tried).0.disk == state.disk,
        state.signalled ==> attempt(state, report, tried).1.sent == report.sent,
{
    lemma_observe_agrees(state, report, tried.probe());
    let probed = observe(state, report, tried.probe());
    match tried {
        AttemptView::Opened(_, end) => {
            if probed.0.phase is Mounting {
                lemma_mount_agrees(probed.0, probed.1, end);
            }
        },
        _ => {},
    }
}

/// Playing a script keeps report and state in agreement, and sends nothing
/// once the channel has been used.
pub proof fn lemma_play_agrees(state: ResolverView, report: ReportView, script: Seq<AttemptView>)
    requires
        agrees(state, report),
    ensures
        agrees(play(state, report, script).0, play(state, report, script).1),
        state.signalled ==> play(state, report, script).1.sent == report.sent,
    decreases script.len(),
{
    if script.len() > 0 && state.phase is Probing {
        lemma_attempt_agrees(state, report, script[0]);
        let tried = attempt(state, report, script[0]);
        lemma_play_agrees(tried.0, tried.1, script.drop_first());
    }
}

/// In every rehearsed run the channel carries one byte at most, and exactly
/// one once the daemon has been told to exit; the exit code is what the
/// resolver ended with.
pub proof fn lemma_rehearsal_one_byte(
    disk: DiskIdView,
    mountpoint: Seq<char>,
    found: Seq<Seq<char>>,
    script: Seq<AttemptView>,
)
    requires
        well_formed(disk),
    ensures
        agrees(
            rehearsal(disk, mountpoint, found, script).0,
            rehearsal(disk, mountpoint, found, script).1,
        ),
        rehearsal(disk, mountpoint, found, script).1.sent.len() <= 1,
        rehearsal(disk, mountpoint, found, script).1.exit is Some ==> rehearsal(
            disk,
            mountpoint,
            found,
            script,
        ).1.sent.len() == 1,
{
    lemma_begin(disk, mountpoint);
    let begun = ResolverView::begin(disk, mountpoint);
    let first = ReportView::empty().record(begun.1);
    assert(agrees(begun.0, first));
    if begun.0.phase is Enumerating {
        lemma_observe_agrees(begun.0, first, EventView::Enumerated(found));
        let ready = observe(begun.0, first, EventView::Enumerated(found));
        lemma_play_agrees(ready.0, ready.1, script);
    } else {
        lemma_play_agrees(begun.0, first, script);
    }
}

/// Whether no candidate of a script holds a filesystem with the identifier
/// `wanted`.
pub open spec fn nowhere(script: Seq<AttemptView>, wanted: Seq<u8>) -> bool {
    forall|i: int| 0 <= i < script.len() ==> !(#[trigger] script[i]).carries(wanted)
}

/// Whether the candidate at `index` is the only one of a script that holds a
/// filesystem with the identifier `wanted`.
pub open spec fn only_at(script: Seq<AttemptView>, wanted: Seq<u8>, index: int) -> bool {
    &&& 0 <= index < script.len()
    &&& script[index].carries(wanted)
    &&& forall|i: int| 0 <= i < script.len() && i != index ==> !(#[trigger] script[i]).carries(wanted)
}

/// Whether mounting the filesystem that a candidate holds gets as far as
/// being attached.
pub open spec fn attaches(tried: AttemptView) -> bool {
    tried matches AttemptView::Opened(_, end) && !(end is Refused)
}

/// Playing a script in which no candidate carries the wanted identifier asks
/// for no mount. Where the script covers all candidates that are left, the
/// run ends with exit code 1, and with [`EXHAUSTED`] sent if the channel was
/// still unused.
pub proof fn lemma_play_without_match(
    state: ResolverView,
    report: ReportView,
    script: Seq<AttemptView>,
    wanted: Seq<u8>,
)
    requires
        agrees(state, report),
        state.disk == DiskIdView::Uuid(wanted),
        nowhere(script, wanted),
    ensures
        play(state, report, script).1.mounted == report.mounted,
        state.phase is Probing && script.len() >= state.candidates.len() - state.cursor ==> {
            &&& play(state, report, script).0.phase == Phase::Finished(1)
            &&& play(state, report, script).1.exit == Some(1i32)
            &&& play(state, report, script).1.sent == (if state.signalled {
                report.sent
            } else {
                report.sent.push(EXHAUSTED)
            })
        },
    decreases script.len(),
{
    if script.len() > 0 && state.phase is Probing {
        let tried = attempt(state, report, script[0]);
        lemma_attempt_agrees(state, report, script[0]);
        assert(!script[0].carries(wanted));
        assert(tried == observe(state, report, script[0].probe()));
        assert(tried.1.mounted == report.mounted);
        let rest = script.drop_first();
        assert(nowhere(rest, wanted)) by {
            assert forall|i: int| 0 <= i < rest.len() implies !(#[trigger] rest[i]).carries(
                wanted,
            ) by {
                assert(rest[i] == script[i + 1]);
            }
        }
        lemma_play_without_match(tried.0, tried.1, rest, wanted);
    }
}

/// Playing a script in which exactly one candidate carries the wanted
/// identifier asks for exactly one mount, that of this candidate, wherever in
/// the order it stands.
pub proof fn lemma_play_with_match(
    state: ResolverView,
    report: ReportView,
    script: Seq<AttemptView>,
    wanted: Seq<u8>,
    index: int,
)
    requires
        agrees(state, report),
        state.disk == DiskIdView::Uuid(wanted),
        state.phase is Probing,
        only_at(script, wanted, index),
        state.cursor + index < state.candidates.len(),
    ensures
        play(state, report, script).1.mounted == report.mounted.push(
            state.candidates[state.cursor + index],
        ),
        !state.signalled && attaches(script[index]) ==> play(state, report, script).1.sent
            == report.sent.push(MOUNTED),
    decreases script.len(),
{
    let tried = attempt(state, report, script[0]);
    let rest = script.drop_first();
    lemma_attempt_agrees(state, report, script[0]);
    if index == 0 {
        let probed = observe(state, report, script[0].probe());
        assert(probed.0.phase is Mounting);
        assert(probed.1.mounted == report.mounted.push(state.current()));
        assert(probed.1.sent == report.sent);
        lemma_observe_agrees(state, report, script[0].probe());
        match script[0] {
            AttemptView::Opened(_, end) => {
                lemma_mount_agrees(probed.0, probed.1, end);
            },
            _ => {},
        }
        assert(tried.1.mounted == probed.1.mounted);
        lemma_play_agrees(tried.0, tried.1, rest);
        assert(nowhere(rest, wanted)) by {
            assert forall|i: int| 0 <= i < rest.len() implies !(#[trigger] rest[i]).carries(
                wanted,
            ) by {
                assert(rest[i] == script[i + 1]);
            }
        }
        lemma_play_without_match(tried.0, tried.1, rest, wanted);
    } else {
        assert(!script[0].carries(wanted));
        assert(tried == observe(state, report, script[0].probe()));
        assert(tried.0.signalled == state.signalled && tried.1.sent == report.sent);
        assert(only_at(rest, wanted, index - 1)) by {
            assert(rest[index - 1] == script[index]);
            assert forall|i: int| 0 <= i < rest.len() && i != index - 1 implies !(
            #[trigger] rest[i]).carries(wanted) by {
                assert(rest[i] == script[i + 1]);
            }
        }
        lemma_play_with_match(tried.0, tried.1, rest, wanted, index - 1);
    }
}

/// Under a UUID selector, where exactly one of the candidates found holds a
/// filesystem with the wanted identifier, the daemon asks to mount that
/// candidate and no other, wherever in the order it stands. Where that mount
/// attaches, the one byte sent is [`MOUNTED`].
pub proof fn lemma_mounts_the_match(
    wanted: Seq<u8>,
    mountpoint: Seq<char>,
    found: Seq<Seq<char>>,
    script: Seq<AttemptView>,
    index: int,
)
    requires
        wanted.len() == 16,
        script.len() == found.len(),
        only_at(script, wanted, index),
    ensures
        rehearsal(DiskIdView::Uuid(wanted), mountpoint, found, script).1.mounted == seq![
            found[index],
        ],
        attaches(script[index]) ==> rehearsal(
            DiskIdView::Uuid(wanted),
            mountpoint,
            found,
            script,
        ).1.sent == seq![MOUNTED],
{
    let disk = DiskIdView::Uuid(wanted);
    lemma_begin(disk, mountpoint);
    let begun = ResolverView::begin(disk, mountpoint);
    let first = ReportView::empty().record(begun.1);
    assert(agrees(begun.0, first));
    lemma_observe_agrees(begun.0, first, EventView::Enumerated(found));
    let ready = observe(begun.0, first, EventView::Enumerated(found));
    assert(ready.1.mounted =~= Seq::<Seq<char>>::empty());
    lemma_play_with_match(ready.0, ready.1, script, wanted, index);
    assert(ready.1.mounted.push(found[index]) =~= seq![found[index]]);
    assert(ready.1.sent =~= Seq::<u8>::empty());
    assert(ready.1.sent.push(MOUNTED) =~= seq![MOUNTED]);
}

/// Under a UUID selector, where none of the candidates found holds a
/// filesystem with the wanted identifier, however many there are, the daemon
/// asks for no mount, sends [`EXHAUSTED`] and exits with code 1.
pub proof fn lemma_no_match_exits_1(
    wanted: Seq<u8>,
    mountpoint: Seq<char>,
    found: Seq<Seq<char>>,
    script: Seq<AttemptView>,
)
    requires
        wanted.len() == 16,
        script.len() >= found.len(),
        nowhere(script, wanted),
    ensures
        rehearsal(DiskIdView::Uuid(wanted), mountpoint, found, script).1.exit == Some(1i32),
        rehearsal(DiskIdView::Uuid(wanted), mountpoint, found, script).1.sent == seq![EXHAUSTED],
        rehearsal(DiskIdView::Uuid(wanted), mountpoint, found, script).1.mounted == Seq::<
            Seq<char>,
        >::empty(),
{
    let disk = DiskIdView::Uuid(wanted);
    lemma_begin(disk, mountpoint);
    let begun = ResolverView::begin(disk, mountpoint);
    let first = ReportView::empty().record(begun.1);
    assert(agrees(begun.0, first));
    lemma_observe_agrees(begun.0, first, EventView::Enumerated(found));
    let ready = observe(begun.0, first, EventView::Enumerated(found));
    assert(ready.1.mounted =~= Seq::<Seq<char>>::empty());
    lemma_play_without_match(ready.0, ready.1, script, wanted);
    if found.len() == 0 {
        assert(ready.1.sent =~= seq![EXHAUSTED]);
    } else {
        assert(ready.1.sent =~= Seq::<u8>::empty());
        assert(ready.1.sent.push(EXHAUSTED) =~= seq![EXHAUSTED]);
    }
}

} // verus!
