//! What holds of every run of the resolver, whatever the daemon observes.
//!
//! A run is the resolver's first move followed by any sequence of events. The
//! statements here are proved for all of them, also for sequences that no
//! well-behaved platform would deliver.

use crate::notes::unable_uuid_text;
use crate::resolver::{
    ActionView, EventView, Phase, ResolverView, StepView, EXHAUSTED, MOUNTED,
};
use crate::selector::DiskIdView;
use vstd::prelude::*;

verus! {

/// The resolver's state after it has taken in `events`, in order.
pub open spec fn state_after(start: ResolverView, events: Seq<EventView>) -> ResolverView
    decreases events.len(),
{
    if events.len() == 0 {
        start
    } else {
        state_after(start, events.drop_last()).step(events.last()).0
    }
}

/// The resolver's move on the last of `events`.
pub open spec fn last_step(start: ResolverView, events: Seq<EventView>) -> StepView
    recommends
        events.len() > 0,
{
    state_after(start, events.drop_last()).step(events.last()).1
}

/// The bytes that the resolver has sent while taking in `events`, in order.
pub open spec fn bytes_sent(start: ResolverView, events: Seq<EventView>) -> Seq<u8>
    decreases events.len(),
{
    if events.len() == 0 {
        Seq::empty()
    } else {
        let before = bytes_sent(start, events.drop_last());
        match last_step(start, events).send {
            Some(byte) => before.push(byte),
            None => before,
        }
    }
}

/// A selector as the parser yields it: an identifier has sixteen bytes.
pub open spec fn well_formed(disk: DiskIdView) -> bool {
    disk matches DiskIdView::Uuid(id) ==> id.len() == 16
}

/// The first move is well-formed, sends nothing and does not end the run.
pub proof fn lemma_begin(disk: DiskIdView, mountpoint: Seq<char>)
    requires
        well_formed(disk),
    ensures
        ResolverView::begin(disk, mountpoint).0.wf(),
        ResolverView::begin(disk, mountpoint).0.disk == disk,
        ResolverView::begin(disk, mountpoint).0.mountpoint == mountpoint,
        !ResolverView::begin(disk, mountpoint).0.signalled,
        !(ResolverView::begin(disk, mountpoint).0.phase is Finished),
        ResolverView::begin(disk, mountpoint).1.send is None,
{
}

/// A step keeps the invariant, the selector and the mountpoint. It sends a
/// byte exactly when the channel goes from unused to used, the channel never
/// goes back to unused, and the byte is [`MOUNTED`] unless the step gives up.
/// A run that has ended stays as it is.
pub proof fn lemma_step(state: ResolverView, event: EventView)
    requires
        state.wf(),
    ensures
        state.step(event).0.wf(),
        state.step(event).0.disk == state.disk,
        state.step(event).0.mountpoint == state.mountpoint,
        state.signalled ==> state.step(event).0.signalled,
        state.step(event).1.send is Some <==> !state.signalled && state.step(event).0.signalled,
        state.step(event).1.send == Some(EXHAUSTED) ==> state.step(event).0.phase
            == Phase::Finished(1),
        state.step(event).1.action matches ActionView::Exit(code) ==> state.step(event).0.phase
            == Phase::Finished(code),
        state.phase is Finished ==> state.step(event).0 == state,
        state.step(event).1.send matches Some(byte) ==> byte == MOUNTED || byte == EXHAUSTED,
{
}

/// Every state of a run is well-formed and keeps the selector it began with.
pub proof fn lemma_run_wf(disk: DiskIdView, mountpoint: Seq<char>, events: Seq<EventView>)
    requires
        well_formed(disk),
    ensures
        state_after(ResolverView::begin(disk, mountpoint).0, events).wf(),
        state_after(ResolverView::begin(disk, mountpoint).0, events).disk == disk,
        state_after(ResolverView::begin(disk, mountpoint).0, events).mountpoint == mountpoint,
    decreases events.len(),
{
    lemma_begin(disk, mountpoint);
    if events.len() > 0 {
        lemma_run_wf(disk, mountpoint, events.drop_last());
        lemma_step(
            state_after(ResolverView::begin(disk, mountpoint).0, events.drop_last()),
            events.last(),
        );
    }
}

/// In every run the channel carries one byte at most, and exactly one once
/// the run has ended: no run ends without its byte, and none sends two.
pub proof fn lemma_one_byte(disk: DiskIdView, mountpoint: Seq<char>, events: Seq<EventView>)
    requires
        well_formed(disk),
    ensures
        bytes_sent(ResolverView::begin(disk, mountpoint).0, events).len() == (if state_after(
            ResolverView::begin(disk, mountpoint).0,
            events,
        ).signalled {
            1nat
        } else {
            0nat
        }),
        state_after(ResolverView::begin(disk, mountpoint).0, events).phase is Finished
            ==> bytes_sent(ResolverView::begin(disk, mountpoint).0, events).len() == 1,
    decreases events.len(),
{
    lemma_begin(disk, mountpoint);
    lemma_run_wf(disk, mountpoint, events);
    if events.len() > 0 {
        lemma_one_byte(disk, mountpoint, events.drop_last());
        lemma_run_wf(disk, mountpoint, events.drop_last());
        lemma_step(
            state_after(ResolverView::begin(disk, mountpoint).0, events.drop_last()),
            events.last(),
        );
    }
}

/// A run that ends with exit code 0 has sent [`MOUNTED`], and a run that has
/// sent [`EXHAUSTED`] has ended with exit code 1.
pub proof fn lemma_byte_and_exit(disk: DiskIdView, mountpoint: Seq<char>, events: Seq<EventView>)
    requires
        well_formed(disk),
    ensures
        state_after(ResolverView::begin(disk, mountpoint).0, events).phase == Phase::Finished(0)
            ==> bytes_sent(ResolverView::begin(disk, mountpoint).0, events) == seq![MOUNTED],
        bytes_sent(ResolverView::begin(disk, mountpoint).0, events) == seq![EXHAUSTED]
            ==> state_after(ResolverView::begin(disk, mountpoint).0, events).phase
            == Phase::Finished(1),
        bytes_sent(ResolverView::begin(disk, mountpoint).0, events) == seq![MOUNTED] || bytes_sent(
            ResolverView::begin(disk, mountpoint).0,
            events,
        ) == seq![EXHAUSTED] || bytes_sent(ResolverView::begin(disk, mountpoint).0, events)
            == Seq::<u8>::empty(),
    decreases events.len(),
{
    let start = ResolverView::begin(disk, mountpoint).0;
    lemma_begin(disk, mountpoint);
    lemma_one_byte(disk, mountpoint, events);
    if events.len() > 0 {
        let before = state_after(start, events.drop_last());
        lemma_byte_and_exit(disk, mountpoint, events.drop_last());
        lemma_one_byte(disk, mountpoint, events.drop_last());
        lemma_run_wf(disk, mountpoint, events.drop_last());
        lemma_step(before, events.last());
        let sent = bytes_sent(start, events.drop_last());
        if sent.len() == 0 {
            assert(sent =~= Seq::<u8>::empty());
            match last_step(start, events).send {
                Some(byte) => {
                    assert(sent.push(byte) =~= seq![byte]);
                    assert(seq![byte][0] == byte);
                },
                None => {},
            }
        }
    }
    assert(seq![EXHAUSTED].len() == 1 && seq![EXHAUSTED][0] == EXHAUSTED);
    assert(seq![MOUNTED].len() == 1 && seq![MOUNTED][0] == MOUNTED);
}

/// With nothing to try, the daemon ends at once: it reports that it is not
/// able to mount, sends [`EXHAUSTED`] and exits with code 1.
pub proof fn lemma_no_candidates(id: Seq<u8>, mountpoint: Seq<char>)
    requires
        id.len() == 16,
    ensures
        ResolverView::begin(DiskIdView::Uuid(id), mountpoint).1.action == ActionView::Enumerate,
        ResolverView::begin(DiskIdView::Uuid(id), mountpoint).0.step(
            EventView::Enumerated(Seq::empty()),
        ).1 == (StepView {
            lines: seq![unable_uuid_text(id)],
            send: Some(EXHAUSTED),
            action: ActionView::Exit(1),
        }),
        ResolverView::begin(DiskIdView::Uuid(id), mountpoint).0.step(
            EventView::Enumerated(Seq::empty()),
        ).0.phase == Phase::Finished(1),
{
    let step = ResolverView::begin(DiskIdView::Uuid(id), mountpoint).0.step(
        EventView::Enumerated(Seq::empty()),
    ).1;
    assert(step.lines =~= seq![unable_uuid_text(id)]);
}

/// A disk named by path is the one and only candidate in every state of the
/// run, whatever a scan for disks may have found.
pub proof fn lemma_path_is_sole_candidate(
    path: Seq<char>,
    mountpoint: Seq<char>,
    events: Seq<EventView>,
)
    ensures
        state_after(ResolverView::begin(DiskIdView::Path(path), mountpoint).0, events).candidates
            == seq![path],
        ResolverView::begin(DiskIdView::Path(path), mountpoint).1.action == ActionView::Probe(
            path,
        ),
{
    lemma_run_wf(DiskIdView::Path(path), mountpoint, events);
}

/// Under a UUID selector the daemon asks to mount a candidate only in answer
/// to a filesystem whose identifier is the wanted one, and it is that
/// candidate which it asks to mount.
pub proof fn lemma_mounts_only_matches(state: ResolverView, event: EventView)
    requires
        state.wf(),
        state.step(event).1.action is Mount,
    ensures
        state.phase is Probing,
        state.step(event).1.action == ActionView::Mount(state.current()),
        event is Opened,
        state.disk matches DiskIdView::Uuid(wanted) ==> event == EventView::Opened(wanted),
{
}

} // verus!
