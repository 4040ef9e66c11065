//! The with-context operation: capture the selection, try the platform's
//! direct context strategy where there is one, fall back to select-all, and
//! keep a context only where it holds the selection. Losing the selection is
//! an error; losing the context is not.
use vstd::prelude::*;
use crate::context::{contains_bytes, find_bytes, utf8_of};
use crate::copy::copy_error;
use crate::error::GetTextError;

verus! {

/// `hay` holds `needle` somewhere, byte for byte.
pub fn contains_text(hay: &str, needle: &str) -> (r: bool)
    ensures
        r == contains_bytes(utf8_of(hay@), utf8_of(needle@)),
{
    find_bytes(hay.as_bytes(), needle.as_bytes()).is_some()
}

/// The context that a strategy's result gives for `sel`: its context where
/// it returned one that holds `sel`, else none.
pub open spec fn accepted(sel: Seq<char>, candidate: Result<Option<String>, GetTextError>) -> Option<String> {
    match candidate {
        Ok(Some(c)) => if contains_bytes(utf8_of(c@), utf8_of(sel)) {
            Some(c)
        } else {
            None
        },
        _ => None,
    }
}

/// Keeps a strategy's context only where it holds the selection.
pub fn accept_context(selected_text: &str, candidate: Result<Option<String>, GetTextError>) -> (r: Option<String>)
    ensures
        r == accepted(selected_text@, candidate),
{
    match candidate {
        Ok(Some(c)) => if contains_text(c.as_str(), selected_text) {
            Some(c)
        } else {
            None
        },
        _ => None,
    }
}

/// Where a with-context run stands.
#[derive(Debug, Clone, Copy, PartialEq, Eq)]
pub enum ContextPhase {
    Selecting,
    Direct,
    Fallback,
    Finished,
}

/// What the driver reports to a with-context run.
#[derive(Debug, PartialEq, Eq)]
pub enum ContextEvent {
    /// The outcome of capturing the selection.
    Selection(Result<String, GetTextError>),
    /// The outcome of the context strategy that was asked for.
    Context(Result<Option<String>, GetTextError>),
}

/// What a with-context run asks of its driver.
#[derive(Debug, PartialEq, Eq)]
pub enum ContextAction {
    /// Capture the selection with the clipboard-copy strategy.
    CaptureSelection,
    /// Ask the platform's accessibility layer for the context of this selection.
    DirectContext(String),
    /// Wait the fallback settle interval, then run select-all for this selection.
    FallbackContext(String),
    /// Stop with this result.
    Finish(Result<(String, Option<String>), GetTextError>),
}

/// A with-context run.
#[derive(Debug)]
pub struct ContextRun {
    pub phase: ContextPhase,
    pub use_direct: bool,
    pub selected_text: String,
    pub outcome: Result<(String, Option<String>), GetTextError>,
}

/// A finished result keeps a context only where it holds the selection.
pub open spec fn result_ok(r: Result<(String, Option<String>), GetTextError>) -> bool {
    match r {
        Ok((sel, Some(c))) => contains_bytes(utf8_of(c@), utf8_of(sel@)),
        _ => true,
    }
}

impl ContextRun {
    pub open spec fn wf(&self) -> bool {
        result_ok(self.outcome)
    }
}

/// One step of a with-context run from `s` on event `e`, to `t`, asking for `a`.
pub open spec fn context_step(s: ContextRun, e: ContextEvent, t: ContextRun, a: ContextAction) -> bool {
    &&& t.use_direct == s.use_direct
    &&& match s.phase {
        ContextPhase::Selecting => match e {
            ContextEvent::Selection(Ok(sel)) => {
                &&& t.selected_text == sel
                &&& if sel@.len() == 0 {
                    &&& t.phase == ContextPhase::Finished
                    &&& t.outcome == Ok::<(String, Option<String>), GetTextError>((sel, None))
                    &&& a == ContextAction::Finish(t.outcome)
                } else if s.use_direct {
                    &&& t.phase == ContextPhase::Direct
                    &&& t.outcome == s.outcome
                    &&& a == ContextAction::DirectContext(sel)
                } else {
                    &&& t.phase == ContextPhase::Fallback
                    &&& t.outcome == s.outcome
                    &&& a == ContextAction::FallbackContext(sel)
                }
            },
            ContextEvent::Selection(Err(err)) => {
                &&& t.phase == ContextPhase::Finished
                &&& t.outcome == Err::<(String, Option<String>), GetTextError>(err)
                &&& a == ContextAction::Finish(t.outcome)
            },
            ContextEvent::Context(_) => {
                &&& t.phase == ContextPhase::Finished
                &&& t.outcome is Err
                &&& t.outcome->Err_0 is Other
                &&& a == ContextAction::Finish(t.outcome)
            },
        },
        ContextPhase::Direct => {
            let got = match e {
                ContextEvent::Context(r) => accepted(s.selected_text@, r),
                _ => None,
            };
            &&& t.selected_text == s.selected_text
            &&& match got {
                Some(c) => {
                    &&& t.phase == ContextPhase::Finished
                    &&& t.outcome == Ok::<(String, Option<String>), GetTextError>(
                        (s.selected_text, Some(c)),
                    )
                    &&& a == ContextAction::Finish(t.outcome)
                },
                None => {
                    &&& t.phase == ContextPhase::Fallback
                    &&& t.outcome == s.outcome
                    &&& a == ContextAction::FallbackContext(s.selected_text)
                },
            }
        },
        ContextPhase::Fallback => {
            let got = match e {
                ContextEvent::Context(r) => accepted(s.selected_text@, r),
                _ => None,
            };
            &&& t.phase == ContextPhase::Finished
            &&& t.outcome == Ok::<(String, Option<String>), GetTextError>((s.selected_text, got))
            &&& a == ContextAction::Finish(t.outcome)
        },
        ContextPhase::Finished => {
            &&& t == s
            &&& a == ContextAction::Finish(s.outcome)
        },
    }
}

fn copy_result(r: &Result<(String, Option<String>), GetTextError>) -> (c: Result<
    (String, Option<String>),
    GetTextError,
>)
    ensures
        c == *r,
{
    match r {
        Ok((s, Some(x))) => Ok((s.clone(), Some(x.clone()))),
        Ok((s, None)) => Ok((s.clone(), None)),
        Err(e) => Err(copy_error(e)),
    }
}

impl ContextRun {
    /// Starts a run; `use_direct` says whether the platform has a direct
    /// context strategy to try before select-all.
    pub fn new(use_direct: bool) -> (r: (ContextRun, ContextAction))
        ensures
            r.0.phase == ContextPhase::Selecting,
            r.0.use_direct == use_direct,
            r.0.wf(),
            r.1 == ContextAction::CaptureSelection,
    {
        (
            ContextRun {
                phase: ContextPhase::Selecting,
                use_direct,
                selected_text: String::new(),
                outcome: Ok((String::new(), None)),
            },
            ContextAction::CaptureSelection,
        )
    }

    /// Advances the run on the driver's report.
    pub fn step(&mut self, e: ContextEvent) -> (a: ContextAction)
        ensures
            context_step(*old(self), e, *final(self), a),
    {
        match self.phase {
            ContextPhase::Selecting => match e {
                ContextEvent::Selection(Ok(sel)) => {
                    if sel.as_str().is_empty() {
                        self.phase = ContextPhase::Finished;
                        self.selected_text = sel.clone();
                        self.outcome = Ok((sel, None));
                        ContextAction::Finish(copy_result(&self.outcome))
                    } else if self.use_direct {
                        self.phase = ContextPhase::Direct;
                        self.selected_text = sel.clone();
                        ContextAction::DirectContext(sel)
                    } else {
                        self.phase = ContextPhase::Fallback;
                        self.selected_text = sel.clone();
                        ContextAction::FallbackContext(sel)
                    }
                },
                ContextEvent::Selection(Err(err)) => {
                    self.phase = ContextPhase::Finished;
                    self.outcome = Err(err);
                    ContextAction::Finish(copy_result(&self.outcome))
                },
                ContextEvent::Context(_) => {
                    self.phase = ContextPhase::Finished;
                    self.outcome = Err(GetTextError::Other("no selection was captured".to_owned()));
                    ContextAction::Finish(copy_result(&self.outcome))
                },
            },
            ContextPhase::Direct => {
                let got = match e {
                    ContextEvent::Context(r) => accept_context(self.selected_text.as_str(), r),
                    _ => None,
                };
                match got {
                    Some(c) => {
                        self.phase = ContextPhase::Finished;
                        self.outcome = Ok((self.selected_text.clone(), Some(c)));
                        ContextAction::Finish(copy_result(&self.outcome))
                    },
                    None => {
                        self.phase = ContextPhase::Fallback;
                        ContextAction::FallbackContext(self.selected_text.clone())
                    },
                }
            },
            ContextPhase::Fallback => {
                let got = match e {
                    ContextEvent::Context(r) => accept_context(self.selected_text.as_str(), r),
                    _ => None,
                };
                self.phase = ContextPhase::Finished;
                self.outcome = Ok((self.selected_text.clone(), got));
                ContextAction::Finish(copy_result(&self.outcome))
            },
            ContextPhase::Finished => ContextAction::Finish(copy_result(&self.outcome)),
        }
    }
}

/// Every result that a with-context run finishes with keeps a context only
/// where the context holds the selection, and every step keeps the run
/// well formed.
pub proof fn lemma_context_holds_selection_in_result(
    s: ContextRun,
    e: ContextEvent,
    t: ContextRun,
    a: ContextAction,
)
    requires
        s.wf(),
        context_step(s, e, t, a),
    ensures
        t.wf(),
        a is Finish ==> result_ok(a->Finish_0),
{
}

/// A select-all fallback that did not find the selection in the document
/// costs the context only: the run still returns the selection.
pub proof fn lemma_not_in_context_keeps_selection(s: ContextRun, t: ContextRun, a: ContextAction)
    requires
        s.phase == ContextPhase::Fallback,
        context_step(s, ContextEvent::Context(Err(GetTextError::NotInContext)), t, a),
    ensures
        a == ContextAction::Finish(Ok((s.selected_text, None))),
{
}

} // verus!
