//! The public operations, run against a `Desktop`: the clipboard, keyboard
//! and accessibility layer of the machine. Each operation feeds what the
//! desktop reports into the strategies' state machines until they finish.
use vstd::prelude::*;
use crate::clipboard::{
    ClipboardSnapshot, Effect, Event, Next, COPY_SETTLE_MS, FALLBACK_SETTLE_MS, SENTINEL_SETTLE_MS,
};
use crate::copy::{
    copy_run, copy_step, lemma_copy_run_restores, restored_then_finished, CopyPhase, CopySession,
};
use crate::context::{
    contains_bytes, lemma_context_holds_selection, utf8_of, CONTEXT_CHARS_AFTER, CONTEXT_CHARS_BEFORE,
};
use crate::error::GetTextError;
use crate::orchestrator::{
    context_step, result_ok, ContextAction, ContextEvent, ContextPhase, ContextRun,
};
use crate::select_all::{
    lemma_select_all_run_restores, select_all_run, select_all_step, SelectAllPhase,
    SelectAllSession,
};

verus! {

/// Settle interval after each select-all keystroke sequence.
pub const SELECT_ALL_SETTLE_MS: u64 = 50;

/// Settle interval after the select-all copy, before the clipboard is read.
pub const SELECT_ALL_COPY_SETTLE_MS: u64 = 100;

/// The machine that the operations act on.
pub trait Desktop {
    /// Performs an effect and reports how it went. `TakeSnapshot` starts the
    /// clock that `Event::Done` reports against.
    fn perform(&mut self, effect: Effect) -> Event;

    /// Waits for `ms` milliseconds.
    fn settle(&mut self, ms: u64);

    /// Asks the accessibility layer for the context of the selection; a
    /// desktop without such a layer answers `Unimplemented`.
    fn direct_context(&mut self, selected_text: &str) -> Result<Option<String>, GetTextError>;
}

/// Steps left to a clipboard-copy run in each phase.
pub open spec fn copy_rank(p: CopyPhase) -> nat {
    match p {
        CopyPhase::Snapshotting => 6,
        CopyPhase::WritingSentinel => 5,
        CopyPhase::Copying => 4,
        CopyPhase::Collapsing => 3,
        CopyPhase::Reading => 2,
        CopyPhase::Restoring => 1,
        CopyPhase::Finished => 0,
    }
}

/// Steps left to a select-all run in each phase.
pub open spec fn select_all_rank(p: SelectAllPhase) -> nat {
    match p {
        SelectAllPhase::Snapshotting => 7,
        SelectAllPhase::ReleasingModifiers => 6,
        SelectAllPhase::SelectingAll => 5,
        SelectAllPhase::Copying => 4,
        SelectAllPhase::Reading => 3,
        SelectAllPhase::Cancelling => 2,
        SelectAllPhase::Restoring => 1,
        SelectAllPhase::Finished => 0,
    }
}

/// Steps left to a with-context run in each phase.
pub open spec fn context_rank(p: ContextPhase) -> nat {
    match p {
        ContextPhase::Selecting => 3,
        ContextPhase::Direct => 2,
        ContextPhase::Fallback => 1,
        ContextPhase::Finished => 0,
    }
}

/// `handed` are the effects handed to the desktop and `reports` what it
/// reported back, one for one, along a clipboard-copy run that finished with
/// `r`: each effect is what the run asked for before the matching report.
pub open spec fn copy_traced(
    cancel_select: bool,
    handed: Seq<Effect>,
    reports: Seq<Event>,
    r: Result<String, GetTextError>,
) -> bool {
    exists|states: Seq<CopySession>, nexts: Seq<Next<String>>|
        #[trigger] copy_run(states, reports, nexts) && states[0].phase == CopyPhase::Snapshotting
            && states[0].cancel_select == cancel_select && nexts.last() == Next::Finish(r)
            && handed.len() == reports.len() && forall|i: int|
            0 <= i < handed.len() ==> nexts[i] == Next::<String>::Perform(#[trigger] handed[i])
}

/// Captures the selected text with the clipboard-copy strategy, and gives
/// back, as ghost values, the effects it handed to the desktop and the
/// reports it got.
pub fn get_selected_text_traced<D: Desktop>(desktop: &mut D, cancel_select: bool) -> (r: (
    Result<String, GetTextError>,
    Ghost<Seq<Effect>>,
    Ghost<Seq<Event>>,
))
    ensures
        copy_traced(cancel_select, r.1@, r.2@, r.0),
        r.1@.len() > 0 && r.1@[0] == Effect::TakeSnapshot,
{
    let (mut session, mut next) = CopySession::new(cancel_select);
    let ghost mut states = seq![session];
    let ghost mut events = Seq::<Event>::empty();
    let ghost mut nexts = seq![next];
    let ghost mut handed = Seq::<Effect>::empty();
    loop
        invariant
            handed.len() == events.len(),
            forall|i: int| 0 <= i < handed.len() ==> nexts[i] == Next::<String>::Perform(#[trigger] handed[i]),
            next is Perform ==> session.phase != CopyPhase::Finished,
            copy_run(states, events, nexts),
            states.last() == session,
            nexts.last() == next,
            states[0].phase == CopyPhase::Snapshotting,
            states[0].cancel_select == cancel_select,
            nexts[0] == Next::<String>::Perform(Effect::TakeSnapshot),
        decreases copy_rank(session.phase),
    {
        match next {
            Next::Finish(r) => {
                assert(copy_traced(cancel_select, handed, events, r));
                assert(events.len() > 0);
                return (r, Ghost(handed), Ghost(events));
            },
            Next::Perform(effect) => {
                let read_next = matches!(effect, Effect::ReadClipboard);
                let sentinel = matches!(effect, Effect::WriteSentinel);
                if read_next {
                    desktop.settle(COPY_SETTLE_MS);
                }
                let ghost asked = effect;
                let event = desktop.perform(effect);
                if sentinel {
                    desktop.settle(SENTINEL_SETTLE_MS);
                }
                let ghost before = session;
                let ghost reported = event;
                next = session.step(event);
                assert(copy_step(before, reported, session, next));
                proof {
                    let old_states = states;
                    let old_events = events;
                    let old_nexts = nexts;
                    states = old_states.push(session);
                    events = old_events.push(reported);
                    nexts = old_nexts.push(next);
                    handed = handed.push(asked);
                    assert forall|i: int| 0 <= i < events.len() implies #[trigger] copy_step(
                        states[i],
                        events[i],
                        states[i + 1],
                        nexts[i + 1],
                    ) by {
                        if i < old_events.len() {
                            assert(copy_step(
                                old_states[i],
                                old_events[i],
                                old_states[i + 1],
                                old_nexts[i + 1],
                            ));
                        }
                    }
                }
            },
        }
    }
}

/// Captures the selected text with the clipboard-copy strategy; with
/// `cancel_select`, the selection is collapsed to its end afterwards. The
/// result is what the strategy's run finished with on the desktop's reports.
pub fn get_selected_text<D: Desktop>(desktop: &mut D, cancel_select: bool) -> (r: Result<
    String,
    GetTextError,
>)
    ensures
        exists|handed: Seq<Effect>, reports: Seq<Event>| #[trigger]
            copy_traced(cancel_select, handed, reports, r) && handed.len() > 0 && handed[0]
                == Effect::TakeSnapshot,
{
    let (r, handed, reports) = get_selected_text_traced(desktop, cancel_select);
    assert(copy_traced(cancel_select, handed@, reports@, r) && handed@.len() > 0 && handed@[0]
        == Effect::TakeSnapshot);
    r
}

/// `handed` are the effects handed to the desktop and `reports` what it
/// reported back, one for one, along a select-all run for `selected_text`
/// that finished with `r`.
pub open spec fn select_all_traced(
    selected_text: String,
    handed: Seq<Effect>,
    reports: Seq<Event>,
    r: Result<Option<String>, GetTextError>,
) -> bool {
    exists|states: Seq<SelectAllSession>, nexts: Seq<Next<Option<String>>>|
        #[trigger] select_all_run(states, reports, nexts) && states[0].selected_text == selected_text
            && (selected_text@.len() > 0 ==> states[0].phase == SelectAllPhase::Snapshotting)
            && nexts.last() == Next::Finish(r) && handed.len() == reports.len() && forall|i: int|
            0 <= i < handed.len() ==> nexts[i] == Next::<Option<String>>::Perform(
                #[trigger] handed[i],
            )
}

/// A select-all result for a nonempty selection `sel` that is a success is a
/// context that holds `sel`.
pub open spec fn select_all_success_holds(sel: Seq<char>, r: Result<Option<String>, GetTextError>) -> bool {
    sel.len() > 0 && r is Ok ==> r->Ok_0 is Some && contains_bytes(
        utf8_of(r->Ok_0->Some_0@),
        utf8_of(sel),
    )
}

/// Captures the document around `selected_text` with the select-all
/// strategy and cuts the context out of it, and gives back, as ghost values,
/// the effects it handed to the desktop and the reports it got. An empty
/// selection gives no context at once and hands the desktop nothing.
pub fn get_context_via_select_all_traced<D: Desktop>(desktop: &mut D, selected_text: String) -> (r: (
    Result<Option<String>, GetTextError>,
    Ghost<Seq<Effect>>,
    Ghost<Seq<Event>>,
))
    ensures
        select_all_traced(selected_text, r.1@, r.2@, r.0),
        selected_text@.len() == 0 ==> r.0 == Ok::<Option<String>, GetTextError>(None) && r.1@.len()
            == 0,
        selected_text@.len() > 0 ==> r.1@.len() > 0 && r.1@[0] == Effect::TakeSnapshot,
        select_all_success_holds(selected_text@, r.0),
{
    let ghost sel = selected_text;
    let (mut session, mut next) = SelectAllSession::new(selected_text);
    let ghost mut states = seq![session];
    let ghost mut events = Seq::<Event>::empty();
    let ghost mut nexts = seq![next];
    let ghost mut handed = Seq::<Effect>::empty();
    loop
        invariant
            handed.len() == events.len(),
            forall|i: int|
                0 <= i < handed.len() ==> nexts[i] == Next::<Option<String>>::Perform(
                    #[trigger] handed[i],
                ),
            next is Perform ==> session.phase != SelectAllPhase::Finished,
            sel@.len() == 0 ==> session.phase == SelectAllPhase::Finished && next
                == Next::<Option<String>>::Finish(Ok(None)) && events.len() == 0,
            select_all_run(states, events, nexts),
            states.last() == session,
            nexts.last() == next,
            states[0].selected_text == sel,
            sel == selected_text,
            sel@.len() > 0 ==> states[0].phase == SelectAllPhase::Snapshotting && nexts[0]
                == Next::<Option<String>>::Perform(Effect::TakeSnapshot),
            session.selected_text == sel,
            (session.phase == SelectAllPhase::Restoring || session.phase == SelectAllPhase::Finished)
                ==> select_all_success_holds(sel@, session.outcome),
            next is Finish && sel@.len() > 0 ==> next->Finish_0 == session.outcome,
            next is Finish ==> session.phase == SelectAllPhase::Finished,
        decreases select_all_rank(session.phase),
    {
        match next {
            Next::Finish(r) => {
                assert(select_all_traced(sel, handed, events, r));
                assert(sel@.len() > 0 ==> events.len() > 0);
                return (r, Ghost(handed), Ghost(events));
            },
            Next::Perform(effect) => {
                let settle = match effect {
                    Effect::ReleaseModifiers | Effect::SelectAll => SELECT_ALL_SETTLE_MS,
                    Effect::Copy => SELECT_ALL_COPY_SETTLE_MS,
                    _ => 0,
                };
                let ghost asked = effect;
                let event = desktop.perform(effect);
                if settle > 0 {
                    desktop.settle(settle);
                }
                let ghost before = session;
                let ghost reported = event;
                next = session.step(event);
                assert(select_all_step(before, reported, session, next));
                proof {
                    if before.phase == SelectAllPhase::Cancelling && session.outcome is Ok
                        && session.outcome->Ok_0 is Some && before.captured is Some {
                        lemma_context_holds_selection(
                            before.captured->Some_0@,
                            sel@,
                            CONTEXT_CHARS_BEFORE as int,
                            CONTEXT_CHARS_AFTER as int,
                            session.outcome->Ok_0->Some_0@,
                        );
                    }
                    let old_states = states;
                    let old_events = events;
                    let old_nexts = nexts;
                    states = old_states.push(session);
                    events = old_events.push(reported);
                    nexts = old_nexts.push(next);
                    handed = handed.push(asked);
                    assert forall|i: int| 0 <= i < events.len() implies #[trigger] select_all_step(
                        states[i],
                        events[i],
                        states[i + 1],
                        nexts[i + 1],
                    ) by {
                        if i < old_events.len() {
                            assert(select_all_step(
                                old_states[i],
                                old_events[i],
                                old_states[i + 1],
                                old_nexts[i + 1],
                            ));
                        }
                    }
                }
            },
        }
    }
}

/// Captures the document around `selected_text` with the select-all
/// strategy and cuts the context out of it. An empty selection gives no
/// context at once; otherwise the result is what the strategy's run finished
/// with on the desktop's reports.
pub fn get_context_via_select_all<D: Desktop>(desktop: &mut D, selected_text: String) -> (r: Result<
    Option<String>,
    GetTextError,
>)
    ensures
        selected_text@.len() == 0 ==> r == Ok::<Option<String>, GetTextError>(None),
        select_all_success_holds(selected_text@, r),
        exists|handed: Seq<Effect>, reports: Seq<Event>| #[trigger]
            select_all_traced(selected_text, handed, reports, r) && (selected_text@.len() == 0
                ==> handed.len() == 0) && (selected_text@.len() > 0 ==> handed.len() > 0
                && handed[0] == Effect::TakeSnapshot),
{
    let ghost sel = selected_text;
    let (r, handed, reports) = get_context_via_select_all_traced(desktop, selected_text);
    assert(select_all_traced(sel, handed@, reports@, r) && (sel@.len() == 0 ==> handed@.len() == 0)
        && (sel@.len() > 0 ==> handed@.len() > 0 && handed@[0] == Effect::TakeSnapshot));
    r
}

/// A run of a with-context session: `runs[i]`, on `events[i]`, steps to
/// `runs[i + 1]` and asks for `actions[i + 1]`.
pub open spec fn context_run(runs: Seq<ContextRun>, events: Seq<ContextEvent>, actions: Seq<ContextAction>) -> bool {
    &&& runs.len() == events.len() + 1
    &&& actions.len() == runs.len()
    &&& forall|i: int|
        0 <= i < events.len() ==> #[trigger] context_step(runs[i], events[i], runs[i + 1], actions[i + 1])
}

/// `r` is what a with-context run finished with, on the reports `events`:
/// a run from a fresh session that asked first for the selection.
pub open spec fn context_finished_with(
    events: Seq<ContextEvent>,
    r: Result<(String, Option<String>), GetTextError>,
) -> bool {
    exists|runs: Seq<ContextRun>, actions: Seq<ContextAction>|
        #[trigger] context_run(runs, events, actions) && runs[0].phase == ContextPhase::Selecting
            && runs[0].use_direct && actions[0] == ContextAction::CaptureSelection && actions.last()
            == ContextAction::Finish(r)
}

/// A clipboard strategy run handed the desktop `handed` and got `reports`
/// back, one for one, and where its first report was the clipboard's content
/// `x`, its last effect was the restore of `x`.
pub open spec fn segment_restores(handed: Seq<Effect>, reports: Seq<Event>) -> bool {
    &&& handed.len() == reports.len()
    &&& reports.len() >= 1 && reports[0] is Snapshot ==> handed.last() == Effect::Restore(
        reports[0]->Snapshot_0,
    )
}

/// Captures the selected text and, where it can be had and holds the
/// selection, the document context around it: first from the accessibility
/// layer, then by select-all. Only a failure to capture the selection is an
/// error. It gives back, as ghost values, the effects that each clipboard
/// strategy it ran handed the desktop and the reports it got, in the order
/// they ran.
pub fn get_selected_text_with_context_traced<D: Desktop>(desktop: &mut D, cancel_select: bool) -> (r: (
    Result<(String, Option<String>), GetTextError>,
    Ghost<Seq<Seq<Effect>>>,
    Ghost<Seq<Seq<Event>>>,
))
    ensures
        result_ok(r.0),
        exists|events: Seq<ContextEvent>| context_finished_with(events, r.0),
        1 <= r.1@.len() <= 2,
        r.1@.len() == r.2@.len(),
        forall|i: int| 0 <= i < r.1@.len() ==> #[trigger] segment_restores(r.1@[i], r.2@[i]),
        exists|x: Result<String, GetTextError>| #[trigger]
            copy_traced(cancel_select, r.1@[0], r.2@[0], x),
{
    let (mut run, mut action) = ContextRun::new(true);
    let ghost mut runs = seq![run];
    let ghost mut events = Seq::<ContextEvent>::empty();
    let ghost mut actions = seq![action];
    let ghost mut segments = Seq::<Seq<Effect>>::empty();
    let ghost mut segment_reports = Seq::<Seq<Event>>::empty();
    let ghost mut first_result = Err::<String, GetTextError>(GetTextError::NoSelection);
    loop
        invariant
            segments.len() == segment_reports.len(),
            segments.len() <= 2,
            action == ContextAction::CaptureSelection ==> segments.len() == 0,
            !(action == ContextAction::CaptureSelection) ==> segments.len() >= 1 && copy_traced(
                cancel_select,
                segments[0],
                segment_reports[0],
                first_result,
            ),
            run.use_direct,
            (action == ContextAction::CaptureSelection) == (run.phase == ContextPhase::Selecting),
            action is DirectContext ==> run.phase == ContextPhase::Direct,
            action is FallbackContext ==> run.phase == ContextPhase::Fallback,
            (run.phase == ContextPhase::Direct || run.phase == ContextPhase::Fallback)
                ==> segments.len() == 1,
            forall|i: int|
                0 <= i < segments.len() ==> #[trigger] segment_restores(segments[i], segment_reports[i]),
            run.wf(),
            action is Finish ==> result_ok(action->Finish_0),
            !(action is Finish) ==> run.phase != ContextPhase::Finished,
            context_run(runs, events, actions),
            runs.last() == run,
            actions.last() == action,
            runs[0].phase == ContextPhase::Selecting,
            runs[0].use_direct,
            actions[0] == ContextAction::CaptureSelection,
        decreases context_rank(run.phase),
    {
        let event = match action {
            ContextAction::Finish(r) => {
                assert(context_finished_with(events, r));
                assert(copy_traced(cancel_select, segments[0], segment_reports[0], first_result));
                return (r, Ghost(segments), Ghost(segment_reports));
            },
            ContextAction::CaptureSelection => {
                let (sel, handed, reports) = get_selected_text_traced(desktop, cancel_select);
                proof {
                    if reports@.len() >= 1 && reports@[0] is Snapshot {
                        lemma_capture_restores_clipboard(
                            cancel_select,
                            handed@,
                            reports@,
                            sel,
                            reports@[0]->Snapshot_0,
                        );
                    }
                    segments = segments.push(handed@);
                    segment_reports = segment_reports.push(reports@);
                    first_result = sel;
                    assert(segments[0] == handed@);
                }
                ContextEvent::Selection(sel)
            },
            ContextAction::DirectContext(sel) => ContextEvent::Context(
                desktop.direct_context(sel.as_str()),
            ),
            ContextAction::FallbackContext(sel) => {
                desktop.settle(FALLBACK_SETTLE_MS);
                let ghost text = sel;
                let (found, handed, reports) = get_context_via_select_all_traced(desktop, sel);
                proof {
                    if text@.len() > 0 && reports@.len() >= 1 && reports@[0] is Snapshot {
                        lemma_select_all_restores_clipboard(
                            text,
                            handed@,
                            reports@,
                            found,
                            reports@[0]->Snapshot_0,
                        );
                    }
                    let old_segments = segments;
                    let old_segment_reports = segment_reports;
                    segments = segments.push(handed@);
                    segment_reports = segment_reports.push(reports@);
                    assert(segments[0] == old_segments[0]);
                    assert(segment_reports[0] == old_segment_reports[0]);
                    assert forall|i: int| 0 <= i < segments.len() implies #[trigger] segment_restores(
                        segments[i],
                        segment_reports[i],
                    ) by {
                        if i < old_segments.len() {
                            assert(segment_restores(old_segments[i], old_segment_reports[i]));
                        }
                    }
                }
                ContextEvent::Context(found)
            },
        };
        let ghost before = run;
        let ghost reported = event;
        action = run.step(event);
        assert(context_step(before, reported, run, action));
        proof {
            let old_runs = runs;
            let old_events = events;
            let old_actions = actions;
            runs = old_runs.push(run);
            events = old_events.push(reported);
            actions = old_actions.push(action);
            assert forall|i: int| 0 <= i < events.len() implies #[trigger] context_step(
                runs[i],
                events[i],
                runs[i + 1],
                actions[i + 1],
            ) by {
                if i < old_events.len() {
                    assert(context_step(old_runs[i], old_events[i], old_runs[i + 1], old_actions[i + 1]));
                }
            }
        }
    }
}

/// Captures the selected text and, where it can be had and holds the
/// selection, the document context around it, as
/// `get_selected_text_with_context_traced` does.
pub fn get_selected_text_with_context<D: Desktop>(desktop: &mut D, cancel_select: bool) -> (r: Result<
    (String, Option<String>),
    GetTextError,
>)
    ensures
        result_ok(r),
        exists|events: Seq<ContextEvent>| context_finished_with(events, r),
{
    let (r, _, _) = get_selected_text_with_context_traced(desktop, cancel_select);
    r
}

/// Whatever the desktop reported, a selection capture whose first report
/// was the clipboard's content `x` handed the desktop, as its very last
/// effect, the restore of `x`.
pub proof fn lemma_capture_restores_clipboard(
    cancel_select: bool,
    handed: Seq<Effect>,
    reports: Seq<Event>,
    r: Result<String, GetTextError>,
    x: ClipboardSnapshot,
)
    requires
        copy_traced(cancel_select, handed, reports, r),
        reports.len() >= 1,
        reports[0] == Event::Snapshot(x),
    ensures
        handed.last() == Effect::Restore(x),
{
    let (states, nexts) = choose|states: Seq<CopySession>, nexts: Seq<Next<String>>|
        #[trigger] copy_run(states, reports, nexts) && states[0].phase == CopyPhase::Snapshotting
            && states[0].cancel_select == cancel_select && nexts.last() == Next::Finish(r)
            && handed.len() == reports.len() && forall|i: int|
            0 <= i < handed.len() ==> nexts[i] == Next::<String>::Perform(#[trigger] handed[i]);
    lemma_copy_run_restores(states, reports, nexts, x);
    let j = choose|j: int| #[trigger] restored_then_finished(nexts, x, j, nexts.len() - 1);
    let last = handed.len() - 1;
    if j < last {
        assert(nexts[j + 1] is Finish);
        assert(nexts[j + 1] == Next::<String>::Perform(handed[j + 1]));
    }
    assert(nexts[last] == Next::<String>::Perform(handed[last]));
}

/// Whatever the desktop reported, including failures and timeouts, a
/// select-all capture whose first report was the clipboard's content `x`
/// handed the desktop, as its very last effect, the restore of `x`.
pub proof fn lemma_select_all_restores_clipboard(
    selected_text: String,
    handed: Seq<Effect>,
    reports: Seq<Event>,
    r: Result<Option<String>, GetTextError>,
    x: ClipboardSnapshot,
)
    requires
        select_all_traced(selected_text, handed, reports, r),
        selected_text@.len() > 0,
        reports.len() >= 1,
        reports[0] == Event::Snapshot(x),
    ensures
        handed.last() == Effect::Restore(x),
{
    let (states, nexts) = choose|states: Seq<SelectAllSession>, nexts: Seq<Next<Option<String>>>|
        #[trigger] select_all_run(states, reports, nexts) && states[0].selected_text == selected_text
            && (selected_text@.len() > 0 ==> states[0].phase == SelectAllPhase::Snapshotting)
            && nexts.last() == Next::Finish(r) && handed.len() == reports.len() && forall|i: int|
            0 <= i < handed.len() ==> nexts[i] == Next::<Option<String>>::Perform(
                #[trigger] handed[i],
            );
    lemma_select_all_run_restores(states, reports, nexts, x);
    let j = choose|j: int| #[trigger] restored_then_finished(nexts, x, j, nexts.len() - 1);
    let last = handed.len() - 1;
    if j < last {
        assert(nexts[j + 1] is Finish);
        assert(nexts[j + 1] == Next::<Option<String>>::Perform(handed[j + 1]));
    }
    assert(nexts[last] == Next::<Option<String>>::Perform(handed[last]));
}

proof fn lemma_context_run_prefix(
    runs: Seq<ContextRun>,
    events: Seq<ContextEvent>,
    actions: Seq<ContextAction>,
    i: int,
)
    requires
        context_run(runs, events, actions),
        runs[0].phase == ContextPhase::Selecting,
        events.len() >= 1,
        events[0] matches ContextEvent::Selection(Ok(_)),
        1 <= i < runs.len(),
    ensures
        runs[i].phase != ContextPhase::Selecting,
        runs[i].phase == ContextPhase::Finished ==> runs[i].outcome is Ok,
        actions[i] is Finish ==> actions[i]->Finish_0 is Ok,
    decreases i,
{
    let k = i - 1;
    assert(context_step(runs[k], events[k], runs[k + 1], actions[k + 1]));
    assert(k + 1 == i);
    if i > 1 {
        lemma_context_run_prefix(runs, events, actions, k);
    }
}

/// Once the selection has been captured, the with-context operation cannot
/// fail: whatever the context strategies report, it returns the selection.
pub proof fn lemma_context_failures_are_not_fatal(
    events: Seq<ContextEvent>,
    r: Result<(String, Option<String>), GetTextError>,
)
    requires
        context_finished_with(events, r),
        events.len() >= 1,
        events[0] matches ContextEvent::Selection(Ok(_)),
    ensures
        r is Ok,
{
    let (runs, actions) = choose|runs: Seq<ContextRun>, actions: Seq<ContextAction>|
        #[trigger] context_run(runs, events, actions) && runs[0].phase == ContextPhase::Selecting
            && runs[0].use_direct && actions[0] == ContextAction::CaptureSelection && actions.last()
            == ContextAction::Finish(r);
    lemma_context_run_prefix(runs, events, actions, runs.len() - 1);
}

} // verus!
