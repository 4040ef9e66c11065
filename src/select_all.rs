//! The select-all strategy: with a selection already captured, snapshot the
//! clipboard, select the whole document and copy it, read it back, undo the
//! visual select-all, restore the snapshot, and cut the context out of the
//! document. Each phase checks the elapsed time against the timeout budget
//! first and, once over it, goes straight to the restore.
use vstd::prelude::*;
use crate::clipboard::{
    failure, failure_for, is_timeout, timeout_error, ClipboardSnapshot, Effect, Event, Next, CLIPBOARD_OPERATION_TIMEOUT_MS,
};
use crate::context::{
    context_window, contains_bytes, utf8_of, window_around, CONTEXT_CHARS_AFTER,
    CONTEXT_CHARS_BEFORE,
};
use crate::copy::{copy_error, read_view, restored_then_finished};
use crate::error::GetTextError;

verus! {

/// Where a select-all run stands.
#[derive(Debug, Clone, Copy, PartialEq, Eq)]
pub enum SelectAllPhase {
    Snapshotting,
    ReleasingModifiers,
    SelectingAll,
    Copying,
    Reading,
    Cancelling,
    Restoring,
    Finished,
}

/// A select-all run for one captured selection.
#[derive(Debug)]
pub struct SelectAllSession {
    pub phase: SelectAllPhase,
    pub selected_text: String,
    pub snapshot: ClipboardSnapshot,
    pub captured: Option<String>,
    pub outcome: Result<Option<String>, GetTextError>,
}

/// The phases in which the clipboard may differ from the snapshot.
pub open spec fn select_all_holds_snapshot(p: SelectAllPhase) -> bool {
    match p {
        SelectAllPhase::Snapshotting | SelectAllPhase::Finished => false,
        _ => true,
    }
}

/// What the document read back gives for the captured selection: the
/// context window around it; `NotInContext` where it does not occur in the
/// document; `Other` where the document could not be read.
pub open spec fn capture_outcome(
    sel: Seq<char>,
    read: Option<Seq<char>>,
    r: Result<Option<String>, GetTextError>,
) -> bool {
    match read {
        None => r is Err && r->Err_0 is Other,
        Some(full) => match r {
            Ok(Some(c)) => window_around(full, sel, Some(c@)),
            Err(GetTextError::NotInContext) => !contains_bytes(utf8_of(full), utf8_of(sel)),
            _ => false,
        },
    }
}

/// The context for `selected_text` from the document read back after
/// select-all and copy (`None` where that read failed).
pub fn context_from_capture(selected_text: &str, read: Option<String>) -> (r: Result<
    Option<String>,
    GetTextError,
>)
    ensures
        capture_outcome(selected_text@, read_view(read), r),
{
    match read {
        None => Err(GetTextError::Other("Failed to get text after Select All".to_owned())),
        Some(full_text) => match context_window(
            full_text.as_str(),
            selected_text,
            CONTEXT_CHARS_BEFORE,
            CONTEXT_CHARS_AFTER,
        ) {
            Some(c) => Ok(Some(c)),
            None => Err(GetTextError::NotInContext),
        },
    }
}

/// A failure or timeout while the snapshot is held: ask for its restore and
/// keep the error to finish with.
pub open spec fn select_all_abort(
    s: SelectAllSession,
    t: SelectAllSession,
    n: Next<Option<String>>,
    err_ok: spec_fn(GetTextError) -> bool,
) -> bool {
    &&& t.phase == SelectAllPhase::Restoring
    &&& n == Next::<Option<String>>::Perform(Effect::Restore(s.snapshot))
    &&& t.outcome is Err
    &&& err_ok(t.outcome->Err_0)
}

/// A phase that checks the budget and then asks for `next` in `next_phase`.
pub open spec fn select_all_timed(
    s: SelectAllSession,
    e: Event,
    t: SelectAllSession,
    n: Next<Option<String>>,
    next_phase: SelectAllPhase,
    next: Effect,
) -> bool {
    match e {
        Event::Done(ms) => if ms > CLIPBOARD_OPERATION_TIMEOUT_MS {
            select_all_abort(s, t, n, |err: GetTextError| is_timeout(err))
        } else {
            &&& t.phase == next_phase
            &&& t.snapshot == s.snapshot
            &&& n == Next::<Option<String>>::Perform(next)
        },
        _ => select_all_abort(s, t, n, |err: GetTextError| failure_for(e, err)),
    }
}

/// One step of the select-all strategy from `s` on event `e`, to `t`,
/// asking for `n`.
pub open spec fn select_all_step(
    s: SelectAllSession,
    e: Event,
    t: SelectAllSession,
    n: Next<Option<String>>,
) -> bool {
    &&& t.selected_text == s.selected_text
    &&& match s.phase {
        SelectAllPhase::Snapshotting => match e {
            Event::Snapshot(x) => {
                &&& t.phase == SelectAllPhase::ReleasingModifiers
                &&& t.snapshot == x
                &&& n == Next::<Option<String>>::Perform(Effect::ReleaseModifiers)
            },
            _ => {
                &&& t.phase == SelectAllPhase::Finished
                &&& t.outcome is Err
                &&& failure_for(e, t.outcome->Err_0)
                &&& n == Next::Finish(t.outcome)
            },
        },
        SelectAllPhase::ReleasingModifiers => select_all_timed(
            s,
            e,
            t,
            n,
            SelectAllPhase::SelectingAll,
            Effect::SelectAll,
        ),
        SelectAllPhase::SelectingAll => select_all_timed(
            s,
            e,
            t,
            n,
            SelectAllPhase::Copying,
            Effect::Copy,
        ),
        SelectAllPhase::Copying => select_all_timed(
            s,
            e,
            t,
            n,
            SelectAllPhase::Reading,
            Effect::ReadClipboard,
        ),
        SelectAllPhase::Reading => match e {
            Event::Read(r) => {
                &&& t.phase == SelectAllPhase::Cancelling
                &&& t.snapshot == s.snapshot
                &&& t.captured == r
                &&& n == Next::<Option<String>>::Perform(Effect::CancelSelection)
            },
            _ => select_all_abort(s, t, n, |err: GetTextError| failure_for(e, err)),
        },
        SelectAllPhase::Cancelling => {
            &&& t.phase == SelectAllPhase::Restoring
            &&& n == Next::<Option<String>>::Perform(Effect::Restore(s.snapshot))
            &&& capture_outcome(s.selected_text@, read_view(s.captured), t.outcome)
        },
        SelectAllPhase::Restoring => {
            &&& t.phase == SelectAllPhase::Finished
            &&& match e {
                Event::Failed(err) => t.outcome == Err::<Option<String>, GetTextError>(err),
                _ => t.outcome == s.outcome,
            }
            &&& n == Next::Finish(t.outcome)
        },
        SelectAllPhase::Finished => {
            &&& t == s
            &&& n == Next::Finish(s.outcome)
        },
    }
}

fn copy_context_outcome(r: &Result<Option<String>, GetTextError>) -> (c: Result<
    Option<String>,
    GetTextError,
>)
    ensures
        c == *r,
{
    match r {
        Ok(Some(s)) => Ok(Some(s.clone())),
        Ok(None) => Ok(None),
        Err(e) => Err(copy_error(e)),
    }
}

impl SelectAllSession {
    /// Starts a run for `selected_text`. An empty selection has no context:
    /// the run finishes at once with `Ok(None)`, asking for nothing.
    pub fn new(selected_text: String) -> (r: (SelectAllSession, Next<Option<String>>))
        ensures
            r.0.selected_text == selected_text,
            selected_text@.len() == 0 ==> r.0.phase == SelectAllPhase::Finished && r.1
                == Next::<Option<String>>::Finish(Ok(None)),
            selected_text@.len() > 0 ==> r.0.phase == SelectAllPhase::Snapshotting && r.1
                == Next::<Option<String>>::Perform(Effect::TakeSnapshot),
    {
        let empty = selected_text.as_str().is_empty();
        let session = SelectAllSession {
            phase: if empty {
                SelectAllPhase::Finished
            } else {
                SelectAllPhase::Snapshotting
            },
            selected_text,
            snapshot: ClipboardSnapshot::Empty,
            captured: None,
            outcome: Ok(None),
        };
        if empty {
            (session, Next::Finish(Ok(None)))
        } else {
            (session, Next::Perform(Effect::TakeSnapshot))
        }
    }

    fn take_snapshot(&mut self) -> (r: ClipboardSnapshot)
        ensures
            r == old(self).snapshot,
            final(self).phase == old(self).phase,
            final(self).selected_text == old(self).selected_text,
            final(self).captured == old(self).captured,
            final(self).outcome == old(self).outcome,
    {
        let mut r = ClipboardSnapshot::Empty;
        core::mem::swap(&mut r, &mut self.snapshot);
        r
    }

    fn abort(&mut self, err: GetTextError) -> (n: Next<Option<String>>)
        ensures
            final(self).phase == SelectAllPhase::Restoring,
            final(self).selected_text == old(self).selected_text,
            final(self).outcome == Err::<Option<String>, GetTextError>(err),
            n == Next::<Option<String>>::Perform(Effect::Restore(old(self).snapshot)),
    {
        self.phase = SelectAllPhase::Restoring;
        self.outcome = Err(err);
        Next::Perform(Effect::Restore(self.take_snapshot()))
    }

    fn timed(&mut self, e: Event, next_phase: SelectAllPhase, next: Effect) -> (n: Next<
        Option<String>,
    >)
        ensures
            final(self).selected_text == old(self).selected_text,
            select_all_timed(*old(self), e, *final(self), n, next_phase, next),
    {
        match e {
            Event::Done(ms) => {
                if ms > CLIPBOARD_OPERATION_TIMEOUT_MS {
                    self.abort(timeout_error())
                } else {
                    self.phase = next_phase;
                    Next::Perform(next)
                }
            },
            _ => self.abort(failure(e)),
        }
    }

    /// Advances the run on the driver's report of the last effect.
    pub fn step(&mut self, e: Event) -> (n: Next<Option<String>>)
        ensures
            select_all_step(*old(self), e, *final(self), n),
    {
        match self.phase {
            SelectAllPhase::Snapshotting => match e {
                Event::Snapshot(x) => {
                    self.phase = SelectAllPhase::ReleasingModifiers;
                    self.snapshot = x;
                    Next::Perform(Effect::ReleaseModifiers)
                },
                _ => {
                    self.phase = SelectAllPhase::Finished;
                    self.outcome = Err(failure(e));
                    Next::Finish(copy_context_outcome(&self.outcome))
                },
            },
            SelectAllPhase::ReleasingModifiers => self.timed(
                e,
                SelectAllPhase::SelectingAll,
                Effect::SelectAll,
            ),
            SelectAllPhase::SelectingAll => self.timed(e, SelectAllPhase::Copying, Effect::Copy),
            SelectAllPhase::Copying => self.timed(
                e,
                SelectAllPhase::Reading,
                Effect::ReadClipboard,
            ),
            SelectAllPhase::Reading => match e {
                Event::Read(r) => {
                    self.phase = SelectAllPhase::Cancelling;
                    self.captured = r;
                    Next::Perform(Effect::CancelSelection)
                },
                _ => self.abort(failure(e)),
            },
            SelectAllPhase::Cancelling => {
                let mut captured = None;
                core::mem::swap(&mut captured, &mut self.captured);
                let outcome = context_from_capture(self.selected_text.as_str(), captured);
                self.phase = SelectAllPhase::Restoring;
                self.outcome = outcome;
                Next::Perform(Effect::Restore(self.take_snapshot()))
            },
            SelectAllPhase::Restoring => {
                self.phase = SelectAllPhase::Finished;
                if let Event::Failed(err) = e {
                    self.outcome = Err(err);
                }
                Next::Finish(copy_context_outcome(&self.outcome))
            },
            SelectAllPhase::Finished => Next::Finish(copy_context_outcome(&self.outcome)),
        }
    }
}

/// Once the snapshot is held, a select-all run cannot finish before it has
/// asked for that very snapshot to be restored, whether it went through,
/// failed or ran out of time: each step keeps the snapshot until it asks for
/// its restore, the only way into the restoring phase is a `Restore` of it,
/// and the run finishes only from the restoring phase.
pub proof fn lemma_select_all_restores_before_finishing(
    s: SelectAllSession,
    e: Event,
    t: SelectAllSession,
    n: Next<Option<String>>,
)
    requires
        select_all_step(s, e, t, n),
    ensures
        select_all_holds_snapshot(s.phase) && n is Finish ==> s.phase == SelectAllPhase::Restoring,
        select_all_holds_snapshot(s.phase) && s.phase != SelectAllPhase::Restoring
            ==> select_all_holds_snapshot(t.phase) && (t.phase != SelectAllPhase::Restoring
            ==> t.snapshot == s.snapshot),
        t.phase == SelectAllPhase::Restoring && s.phase != SelectAllPhase::Restoring ==> n
            == Next::<Option<String>>::Perform(Effect::Restore(s.snapshot)),
        n is Perform && n->Perform_0 is Restore ==> t.phase == SelectAllPhase::Restoring,
{
}

/// A run of a select-all session: `states[i]`, on `events[i]`, steps to
/// `states[i + 1]` and asks for `nexts[i + 1]`.
pub open spec fn select_all_run(
    states: Seq<SelectAllSession>,
    events: Seq<Event>,
    nexts: Seq<Next<Option<String>>>,
) -> bool {
    &&& states.len() == events.len() + 1
    &&& nexts.len() == states.len()
    &&& forall|i: int|
        0 <= i < events.len() ==> #[trigger] select_all_step(
            states[i],
            events[i],
            states[i + 1],
            nexts[i + 1],
        )
}

proof fn lemma_select_all_run_prefix(
    states: Seq<SelectAllSession>,
    events: Seq<Event>,
    nexts: Seq<Next<Option<String>>>,
    x: ClipboardSnapshot,
    i: int,
) -> (j: int)
    requires
        select_all_run(states, events, nexts),
        states[0].phase == SelectAllPhase::Snapshotting,
        events.len() >= 1,
        events[0] == Event::Snapshot(x),
        1 <= i < states.len(),
    ensures
        ({
            &&& select_all_holds_snapshot(states[i].phase)
            &&& states[i].phase != SelectAllPhase::Restoring
            &&& states[i].snapshot == x
            &&& nexts[i] is Perform
        }) || ({
            &&& restored_then_finished(nexts, x, j, i)
            &&& (states[i].phase == SelectAllPhase::Restoring || states[i].phase
                == SelectAllPhase::Finished)
            &&& (states[i].phase == SelectAllPhase::Restoring ==> j == i)
        }),
    decreases i,
{
    let k = i - 1;
    assert(select_all_step(states[k], events[k], states[k + 1], nexts[k + 1]));
    assert(k + 1 == i);
    if i == 1 {
        0
    } else {
        let j = lemma_select_all_run_prefix(states, events, nexts, x, i - 1);
        if select_all_holds_snapshot(states[k].phase) && states[k].phase != SelectAllPhase::Restoring
            && states[k].snapshot == x {
            if states[i].phase == SelectAllPhase::Restoring {
                i
            } else {
                j
            }
        } else {
            j
        }
    }
}

/// Whatever the events, including failures and timeouts, a select-all run
/// that took a snapshot and then finished has asked for that very snapshot to
/// be put back, and after that asked for nothing but to finish.
pub proof fn lemma_select_all_run_restores(
    states: Seq<SelectAllSession>,
    events: Seq<Event>,
    nexts: Seq<Next<Option<String>>>,
    x: ClipboardSnapshot,
)
    requires
        select_all_run(states, events, nexts),
        states[0].phase == SelectAllPhase::Snapshotting,
        events.len() >= 1,
        events[0] == Event::Snapshot(x),
        nexts.last() is Finish,
    ensures
        exists|j: int| #[trigger] restored_then_finished(nexts, x, j, nexts.len() - 1),
{
    let j = lemma_select_all_run_prefix(states, events, nexts, x, states.len() - 1);
    assert(restored_then_finished(nexts, x, j, nexts.len() - 1));
}

} // verus!
