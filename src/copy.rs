//! The clipboard-copy strategy: snapshot the clipboard, write the empty
//! sentinel, press the copy shortcut, optionally collapse the selection, read
//! the clipboard back and restore the snapshot, whatever happened in between.
use vstd::prelude::*;
use crate::clipboard::{
    failure, failure_for, is_timeout, timeout_error, ClipboardSnapshot, Effect, Event, Next,
    CLIPBOARD_OPERATION_TIMEOUT_MS,
};
use crate::error::GetTextError;

verus! {

/// Where a clipboard-copy run stands.
#[derive(Debug, Clone, Copy, PartialEq, Eq)]
pub enum CopyPhase {
    Snapshotting,
    WritingSentinel,
    Copying,
    Collapsing,
    Reading,
    Restoring,
    Finished,
}

/// A clipboard-copy run. The driver performs each effect that `step` asks
/// for and reports how it went.
#[derive(Debug)]
pub struct CopySession {
    pub phase: CopyPhase,
    pub cancel_select: bool,
    pub snapshot: ClipboardSnapshot,
    pub outcome: Result<String, GetTextError>,
}

/// The phases in which the clipboard may differ from the snapshot.
pub open spec fn copy_holds_snapshot(p: CopyPhase) -> bool {
    match p {
        CopyPhase::Snapshotting | CopyPhase::Finished => false,
        _ => true,
    }
}

/// The optional text's characters.
pub open spec fn read_view(r: Option<String>) -> Option<Seq<char>> {
    match r {
        Some(t) => Some(t@),
        None => None,
    }
}

/// A failure while the snapshot is held: keep it and ask for its restore.
pub open spec fn copy_abort(s: CopySession, e: Event, t: CopySession, n: Next<String>) -> bool {
    &&& t.phase == CopyPhase::Restoring
    &&& n == Next::<String>::Perform(Effect::Restore(s.snapshot))
    &&& match t.outcome {
        Err(err) => failure_for(e, err),
        Ok(_) => false,
    }
}

/// A phase that checks the timeout budget on its effect's completion and
/// then asks for `next` in `next_phase`; once over the budget, it asks for the
/// restore and keeps the timeout error.
pub open spec fn copy_timed(
    s: CopySession,
    e: Event,
    t: CopySession,
    n: Next<String>,
    next_phase: CopyPhase,
    next: Effect,
) -> bool {
    match e {
        Event::Done(ms) => if ms > CLIPBOARD_OPERATION_TIMEOUT_MS {
            &&& t.phase == CopyPhase::Restoring
            &&& n == Next::<String>::Perform(Effect::Restore(s.snapshot))
            &&& t.outcome is Err
            &&& is_timeout(t.outcome->Err_0)
        } else {
            &&& t.phase == next_phase
            &&& t.snapshot == s.snapshot
            &&& n == Next::<String>::Perform(next)
        },
        _ => copy_abort(s, e, t, n),
    }
}

/// One step of the clipboard-copy strategy from `s` on event `e`, to `t`,
/// asking for `n`.
pub open spec fn copy_step(s: CopySession, e: Event, t: CopySession, n: Next<String>) -> bool {
    &&& t.cancel_select == s.cancel_select
    &&& match s.phase {
        CopyPhase::Snapshotting => match e {
            Event::Snapshot(x) => {
                &&& t.phase == CopyPhase::WritingSentinel
                &&& t.snapshot == x
                &&& n == Next::<String>::Perform(Effect::WriteSentinel)
            },
            _ => {
                &&& t.phase == CopyPhase::Finished
                &&& match t.outcome {
                    Err(err) => failure_for(e, err),
                    Ok(_) => false,
                }
                &&& n == Next::Finish(t.outcome)
            },
        },
        CopyPhase::WritingSentinel => copy_timed(s, e, t, n, CopyPhase::Copying, Effect::Copy),
        CopyPhase::Copying => if s.cancel_select {
            copy_timed(s, e, t, n, CopyPhase::Collapsing, Effect::CollapseSelection)
        } else {
            copy_timed(s, e, t, n, CopyPhase::Reading, Effect::ReadClipboard)
        },
        CopyPhase::Collapsing => copy_timed(s, e, t, n, CopyPhase::Reading, Effect::ReadClipboard),
        CopyPhase::Reading => match e {
            Event::Read(r) => {
                &&& t.phase == CopyPhase::Restoring
                &&& n == Next::<String>::Perform(Effect::Restore(s.snapshot))
                &&& match r {
                    Some(text) => t.outcome == Ok::<String, GetTextError>(text),
                    None => t.outcome is Err && t.outcome->Err_0 is Clipboard,
                }
            },
            _ => copy_abort(s, e, t, n),
        },
        CopyPhase::Restoring => {
            &&& t.phase == CopyPhase::Finished
            &&& match e {
                Event::Failed(err) => t.outcome == Err::<String, GetTextError>(err),
                _ => t.outcome == s.outcome,
            }
            &&& n == Next::Finish(t.outcome)
        },
        CopyPhase::Finished => {
            &&& t == s
            &&& n == Next::Finish(s.outcome)
        },
    }
}

/// A copy of an error, equal to it.
pub fn copy_error(e: &GetTextError) -> (r: GetTextError)
    ensures
        r == *e,
{
    match e {
        GetTextError::Clipboard(m) => GetTextError::Clipboard(m.clone()),
        GetTextError::Os(m) => GetTextError::Os(m.clone()),
        GetTextError::Uia(m) => GetTextError::Uia(m.clone()),
        GetTextError::Input(m) => GetTextError::Input(m.clone()),
        GetTextError::NoSelection => GetTextError::NoSelection,
        GetTextError::NotInContext => GetTextError::NotInContext,
        GetTextError::Unimplemented => GetTextError::Unimplemented,
        GetTextError::Other(m) => GetTextError::Other(m.clone()),
    }
}

fn copy_outcome(r: &Result<String, GetTextError>) -> (c: Result<String, GetTextError>)
    ensures
        c == *r,
{
    match r {
        Ok(s) => Ok(s.clone()),
        Err(e) => Err(copy_error(e)),
    }
}

impl CopySession {
    /// Starts a run: its first request is the clipboard snapshot.
    pub fn new(cancel_select: bool) -> (r: (CopySession, Next<String>))
        ensures
            r.0.phase == CopyPhase::Snapshotting,
            r.0.cancel_select == cancel_select,
            r.1 == Next::<String>::Perform(Effect::TakeSnapshot),
    {
        (
            CopySession {
                phase: CopyPhase::Snapshotting,
                cancel_select,
                snapshot: ClipboardSnapshot::Empty,
                outcome: Ok(String::new()),
            },
            Next::Perform(Effect::TakeSnapshot),
        )
    }

    /// Hands the snapshot out for its restore, leaving nothing behind.
    fn take_snapshot(&mut self) -> (r: ClipboardSnapshot)
        ensures
            r == old(self).snapshot,
            final(self).snapshot == ClipboardSnapshot::Empty,
            final(self).phase == old(self).phase,
            final(self).cancel_select == old(self).cancel_select,
            final(self).outcome == old(self).outcome,
    {
        let mut r = ClipboardSnapshot::Empty;
        core::mem::swap(&mut r, &mut self.snapshot);
        r
    }

    fn abort(&mut self, e: Event) -> (n: Next<String>)
        requires
            copy_holds_snapshot(old(self).phase),
        ensures
            copy_abort(*old(self), e, *final(self), n),
            final(self).cancel_select == old(self).cancel_select,
    {
        self.phase = CopyPhase::Restoring;
        self.outcome = Err(failure(e));
        Next::Perform(Effect::Restore(self.take_snapshot()))
    }

    fn timed(&mut self, e: Event, next_phase: CopyPhase, next: Effect) -> (n: Next<String>)
        requires
            copy_holds_snapshot(old(self).phase),
            old(self).phase != CopyPhase::Restoring,
        ensures
            copy_timed(*old(self), e, *final(self), n, next_phase, next),
            final(self).cancel_select == old(self).cancel_select,
    {
        match e {
            Event::Done(ms) => {
                if ms > CLIPBOARD_OPERATION_TIMEOUT_MS {
                    self.phase = CopyPhase::Restoring;
                    self.outcome = Err(timeout_error());
                    Next::Perform(Effect::Restore(self.take_snapshot()))
                } else {
                    self.phase = next_phase;
                    Next::Perform(next)
                }
            },
            _ => self.abort(e),
        }
    }

    /// Advances the run on the driver's report of the last effect.
    pub fn step(&mut self, e: Event) -> (n: Next<String>)
        ensures
            copy_step(*old(self), e, *final(self), n),
    {
        match self.phase {
            CopyPhase::Snapshotting => match e {
                Event::Snapshot(x) => {
                    self.phase = CopyPhase::WritingSentinel;
                    self.snapshot = x;
                    Next::Perform(Effect::WriteSentinel)
                },
                _ => {
                    self.phase = CopyPhase::Finished;
                    self.outcome = Err(failure(e));
                    Next::Finish(copy_outcome(&self.outcome))
                },
            },
            CopyPhase::WritingSentinel => self.timed(e, CopyPhase::Copying, Effect::Copy),
            CopyPhase::Copying => if self.cancel_select {
                self.timed(e, CopyPhase::Collapsing, Effect::CollapseSelection)
            } else {
                self.timed(e, CopyPhase::Reading, Effect::ReadClipboard)
            },
            CopyPhase::Collapsing => self.timed(e, CopyPhase::Reading, Effect::ReadClipboard),
            CopyPhase::Reading => match e {
                Event::Read(r) => {
                    self.phase = CopyPhase::Restoring;
                    self.outcome = match r {
                        Some(text) => Ok(text),
                        None => Err(GetTextError::Clipboard("failed to read the clipboard".to_owned())),
                    };
                    Next::Perform(Effect::Restore(self.take_snapshot()))
                },
                _ => self.abort(e),
            },
            CopyPhase::Restoring => {
                self.phase = CopyPhase::Finished;
                if let Event::Failed(err) = e {
                    self.outcome = Err(err);
                }
                Next::Finish(copy_outcome(&self.outcome))
            },
            CopyPhase::Finished => Next::Finish(copy_outcome(&self.outcome)),
        }
    }
}

/// Once the snapshot is held, a clipboard-copy run cannot finish before it
/// has asked for that very snapshot to be restored: every step keeps the
/// snapshot until it asks for its restore, the only way into the restoring
/// phase is a `Restore` of it, and the run finishes only from the restoring
/// phase.
pub proof fn lemma_copy_restores_before_finishing(s: CopySession, e: Event, t: CopySession, n: Next<String>)
    requires
        copy_step(s, e, t, n),
    ensures
        copy_holds_snapshot(s.phase) && n is Finish ==> s.phase == CopyPhase::Restoring,
        copy_holds_snapshot(s.phase) && s.phase != CopyPhase::Restoring ==> copy_holds_snapshot(t.phase)
            && (t.phase != CopyPhase::Restoring ==> t.snapshot == s.snapshot),
        t.phase == CopyPhase::Restoring && s.phase != CopyPhase::Restoring ==> n
            == Next::<String>::Perform(Effect::Restore(s.snapshot)),
        n is Perform && n->Perform_0 is Restore ==> t.phase == CopyPhase::Restoring,
{
}

/// A run of a clipboard-copy session: `states[i]`, on `events[i]`, steps to
/// `states[i + 1]` and asks for `nexts[i + 1]`.
pub open spec fn copy_run(states: Seq<CopySession>, events: Seq<Event>, nexts: Seq<Next<String>>) -> bool {
    &&& states.len() == events.len() + 1
    &&& nexts.len() == states.len()
    &&& forall|i: int|
        0 <= i < events.len() ==> #[trigger] copy_step(states[i], events[i], states[i + 1], nexts[i + 1])
}

/// `nexts[j]` asks for `x` to be restored and every request after it, up to
/// `nexts[i]`, is to finish.
pub open spec fn restored_then_finished<T>(nexts: Seq<Next<T>>, x: ClipboardSnapshot, j: int, i: int) -> bool {
    &&& 0 < j <= i < nexts.len()
    &&& nexts[j] == Next::<T>::Perform(Effect::Restore(x))
    &&& forall|m: int| j < m <= i ==> (#[trigger] nexts[m]) is Finish
}

proof fn lemma_copy_run_prefix(
    states: Seq<CopySession>,
    events: Seq<Event>,
    nexts: Seq<Next<String>>,
    x: ClipboardSnapshot,
    i: int,
) -> (j: int)
    requires
        copy_run(states, events, nexts),
        states[0].phase == CopyPhase::Snapshotting,
        events.len() >= 1,
        events[0] == Event::Snapshot(x),
        1 <= i < states.len(),
    ensures
        ({
            &&& copy_holds_snapshot(states[i].phase)
            &&& states[i].phase != CopyPhase::Restoring
            &&& states[i].snapshot == x
            &&& nexts[i] is Perform
        }) || ({
            &&& restored_then_finished(nexts, x, j, i)
            &&& (states[i].phase == CopyPhase::Restoring || states[i].phase == CopyPhase::Finished)
            &&& (states[i].phase == CopyPhase::Restoring ==> j == i)
        }),
    decreases i,
{
    let k = i - 1;
    assert(copy_step(states[k], events[k], states[k + 1], nexts[k + 1]));
    assert(k + 1 == i);
    if i == 1 {
        0
    } else {
        let j = lemma_copy_run_prefix(states, events, nexts, x, i - 1);
        if copy_holds_snapshot(states[i - 1].phase) && states[i - 1].phase != CopyPhase::Restoring
            && states[i - 1].snapshot == x {
            if states[i].phase == CopyPhase::Restoring {
                i
            } else {
                j
            }
        } else {
            j
        }
    }
}

/// Whatever the events, a clipboard-copy run that took a snapshot and then
/// finished has asked for that very snapshot to be put back, and after that
/// asked for nothing but to finish.
pub proof fn lemma_copy_run_restores(
    states: Seq<CopySession>,
    events: Seq<Event>,
    nexts: Seq<Next<String>>,
    x: ClipboardSnapshot,
)
    requires
        copy_run(states, events, nexts),
        states[0].phase == CopyPhase::Snapshotting,
        events.len() >= 1,
        events[0] == Event::Snapshot(x),
        nexts.last() is Finish,
    ensures
        exists|j: int| #[trigger] restored_then_finished(nexts, x, j, nexts.len() - 1),
{
    let j = lemma_copy_run_prefix(states, events, nexts, x, states.len() - 1);
    assert(restored_then_finished(nexts, x, j, nexts.len() - 1));
}

} // verus!
