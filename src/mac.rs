//! The macOS operations: the accessibility strategies in their fixed order,
//! the per-application choice between accessibility and the AppleScript copy,
//! and the with-context operation built on them.
use vstd::prelude::*;
use crate::cache::{plan_for, recorded, AxVerdict, Method, MethodCache, Plan};
use crate::error::GetTextError;
use crate::orchestrator::{accept_context, accepted, result_ok};

verus! {

/// The acquisition methods that macOS offers.
pub trait MacMethods {
    /// Selection and context of the system-wide focused element.
    fn system_focused_element(&mut self) -> Result<(String, Option<String>), GetTextError>;

    /// Selection and context found through the active window: its focused
    /// element, else the bounded search of its element tree.
    fn active_window_element(&mut self) -> Result<(String, Option<String>), GetTextError>;

    /// The last-resort guesses: the application element, then the clipboard.
    fn alternative_methods(&mut self) -> Result<(String, Option<String>), GetTextError>;

    /// The selection that the AppleScript copy reports.
    fn applescript_selection(&mut self) -> Result<String, GetTextError>;

    /// The document that the AppleScript select-all copy reports.
    fn applescript_document(&mut self) -> Result<String, GetTextError>;
}

/// The accessibility strategies, in the order they are tried.
#[derive(Debug, Clone, Copy, PartialEq, Eq)]
pub enum AxStrategy {
    SystemFocused,
    ActiveWindow,
    Alternatives,
}

/// What the accessibility chain does after a strategy answered.
#[derive(Debug, PartialEq, Eq)]
pub enum AxChainStep {
    /// Try this strategy next.
    Try(AxStrategy),
    /// Stop with this result.
    Done(Result<(String, Option<String>), GetTextError>),
}

/// The error where no accessibility strategy found a selection.
pub open spec fn chain_exhausted(r: Result<(String, Option<String>), GetTextError>) -> bool {
    r is Err && r->Err_0 is Os
}

/// Decides on a strategy's answer: a success ends the chain with it; a
/// failure moves on to the next strategy, and after the last one ends the
/// chain with an `Os` error.
pub fn after_ax_strategy(
    tried: AxStrategy,
    answer: Result<(String, Option<String>), GetTextError>,
) -> (r: AxChainStep)
    ensures
        answer is Ok ==> r == AxChainStep::Done(answer),
        answer is Err ==> match tried {
            AxStrategy::SystemFocused => r == AxChainStep::Try(AxStrategy::ActiveWindow),
            AxStrategy::ActiveWindow => r == AxChainStep::Try(AxStrategy::Alternatives),
            AxStrategy::Alternatives => r is Done && chain_exhausted(r->Done_0),
        },
{
    match answer {
        Ok(found) => AxChainStep::Done(Ok(found)),
        Err(_) => match tried {
            AxStrategy::SystemFocused => AxChainStep::Try(AxStrategy::ActiveWindow),
            AxStrategy::ActiveWindow => AxChainStep::Try(AxStrategy::Alternatives),
            AxStrategy::Alternatives => AxChainStep::Done(
                Err(GetTextError::Os("no accessibility strategy found selected text".to_owned())),
            ),
        },
    }
}

/// `r` is what the chain gives on the strategies' answers, in order: all but
/// the last failed, and the last one succeeded with `r`, or was the third and
/// failed too, where `r` is an `Os` error.
pub open spec fn ax_chain(answers: Seq<Result<(String, Option<String>), GetTextError>>, r: Result<
    (String, Option<String>),
    GetTextError,
>) -> bool {
    &&& 1 <= answers.len() <= 3
    &&& forall|i: int| 0 <= i < answers.len() - 1 ==> (#[trigger] answers[i]) is Err
    &&& answers.last() is Ok ==> r == answers.last()
    &&& answers.last() is Err ==> answers.len() == 3 && chain_exhausted(r)
}

/// The position of a strategy in the chain.
pub open spec fn strategy_index(a: AxStrategy) -> int {
    match a {
        AxStrategy::SystemFocused => 0,
        AxStrategy::ActiveWindow => 1,
        AxStrategy::Alternatives => 2,
    }
}

/// Tries the accessibility strategies in order (system-wide focused element,
/// active window, last-resort guesses) and returns the first success, or an
/// `Os` error where all three fail.
pub fn get_selected_text_by_ax<M: MacMethods>(methods: &mut M) -> (r: Result<
    (String, Option<String>),
    GetTextError,
>)
    ensures
        exists|answers: Seq<Result<(String, Option<String>), GetTextError>>| #[trigger]
            ax_chain(answers, r),
{
    let mut strategy = AxStrategy::SystemFocused;
    let ghost mut answers = Seq::<Result<(String, Option<String>), GetTextError>>::empty();
    loop
        invariant
            answers.len() == strategy_index(strategy),
            forall|i: int| 0 <= i < answers.len() ==> (#[trigger] answers[i]) is Err,
        decreases 3 - strategy_index(strategy),
    {
        let answer = match strategy {
            AxStrategy::SystemFocused => methods.system_focused_element(),
            AxStrategy::ActiveWindow => methods.active_window_element(),
            AxStrategy::Alternatives => methods.alternative_methods(),
        };
        let ghost got = answer;
        proof {
            answers = answers.push(got);
        }
        match after_ax_strategy(strategy, answer) {
            AxChainStep::Done(r) => {
                assert(ax_chain(answers, r));
                return r;
            },
            AxChainStep::Try(next) => {
                strategy = next;
            },
        }
    }
}

/// Which method a capture asks first.
#[derive(Debug, Clone, Copy, PartialEq, Eq)]
pub enum MethodRequest {
    Accessibility,
    AppleScript,
}

/// The first method a capture with `plan` asks: AppleScript where that is
/// what is remembered, else accessibility.
pub fn first_request(plan: Plan) -> (r: MethodRequest)
    ensures
        r == (if plan == Plan::AppleScriptOnly {
            MethodRequest::AppleScript
        } else {
            MethodRequest::Accessibility
        }),
{
    match plan {
        Plan::AppleScriptOnly => MethodRequest::AppleScript,
        _ => MethodRequest::Accessibility,
    }
}

/// `r` is what a capture with `plan` returns, where `ax` and `script` are the
/// answers of accessibility and AppleScript (`None` where it was not asked):
/// a remembered method alone is asked and its answer returned; with nothing
/// remembered, accessibility is asked, and AppleScript only where
/// accessibility failed.
pub open spec fn capture_outcome(
    plan: Plan,
    ax: Option<Result<String, GetTextError>>,
    script: Option<Result<String, GetTextError>>,
    r: Result<String, GetTextError>,
) -> bool {
    match plan {
        Plan::AccessibilityOnly => ax is Some && script is None && r == ax->Some_0,
        Plan::AppleScriptOnly => ax is None && script is Some && r == script->Some_0,
        Plan::AccessibilityThenAppleScript => ax is Some && if ax->Some_0 is Ok {
            script is None && r == ax->Some_0
        } else {
            script is Some && r == script->Some_0
        },
    }
}

/// A capture in `app` took the cache from `before` to `after` and returned
/// `r` on the answers `ax` and `script`: it asked as `capture_outcome` says,
/// left a remembered method as it was, and, where nothing was remembered,
/// remembered the method whose answer it returned where that answer was a
/// success.
pub open spec fn capture_effect(
    before: Map<Seq<char>, u8>,
    after: Map<Seq<char>, u8>,
    app: Seq<char>,
    ax: Option<Result<String, GetTextError>>,
    script: Option<Result<String, GetTextError>>,
    r: Result<String, GetTextError>,
) -> bool {
    let plan = plan_for(before, app);
    &&& capture_outcome(plan, ax, script, r)
    &&& plan != Plan::AccessibilityThenAppleScript ==> after == before
    &&& plan == Plan::AccessibilityThenAppleScript ==> if ax->Some_0 is Ok {
        recorded(before, after, app, Method::Accessibility, ax->Some_0->Ok_0@)
    } else if script->Some_0 is Ok {
        recorded(before, after, app, Method::AppleScript, script->Some_0->Ok_0@)
    } else {
        after == before
    }
}

/// Captures the selected text in the application `app_name`, by the method
/// that the cache remembers for it, or by accessibility and then AppleScript
/// where it remembers none; a success of the latter kind is remembered. It
/// gives back, as ghost values, what accessibility and AppleScript answered
/// (`None` for a method it did not ask).
pub fn get_selected_text_by_method_traced<M: MacMethods>(
    cache: &mut MethodCache,
    app_name: String,
    methods: &mut M,
) -> (r: (
    Result<String, GetTextError>,
    Ghost<Option<Result<String, GetTextError>>>,
    Ghost<Option<Result<String, GetTextError>>>,
))
    requires
        old(cache).wf(),
    ensures
        final(cache).wf(),
        capture_effect(old(cache).entries(), final(cache).entries(), app_name@, r.1@, r.2@, r.0),
{
    let ghost before = cache.entries();
    let plan = cache.plan(&app_name);
    if let MethodRequest::AppleScript = first_request(plan) {
        let script = methods.applescript_selection();
        let ghost s = script;
        let r = cache.after_applescript(app_name, plan, script);
        assert(capture_effect(before, cache.entries(), app_name@, None, Some(s), r));
        return (r, Ghost(None), Ghost(Some(s)));
    }
    let ax = match get_selected_text_by_ax(methods) {
        Ok((text, _)) => Ok(text),
        Err(e) => Err(e),
    };
    let ghost a = ax;
    match cache.after_accessibility(app_name.clone(), plan, ax) {
        AxVerdict::Done(r) => {
            assert(capture_effect(before, cache.entries(), app_name@, Some(a), None, r));
            (r, Ghost(Some(a)), Ghost(None))
        },
        AxVerdict::TryAppleScript => {
            let script = methods.applescript_selection();
            let ghost s = script;
            let r = cache.after_applescript(app_name, plan, script);
            assert(capture_effect(before, cache.entries(), app_name@, Some(a), Some(s), r));
            (r, Ghost(Some(a)), Ghost(Some(s)))
        },
    }
}

/// Captures the selected text in the application `app_name`, as
/// `get_selected_text_by_method_traced` does.
pub fn get_selected_text_by_method<M: MacMethods>(
    cache: &mut MethodCache,
    app_name: String,
    methods: &mut M,
) -> (r: Result<String, GetTextError>)
    requires
        old(cache).wf(),
    ensures
        final(cache).wf(),
        exists|
            ax: Option<Result<String, GetTextError>>,
            script: Option<Result<String, GetTextError>>,
        | #[trigger] capture_effect(old(cache).entries(), final(cache).entries(), app_name@, ax, script, r),
{
    let ghost before = cache.entries();
    let ghost app = app_name@;
    let (r, ax, script) = get_selected_text_by_method_traced(cache, app_name, methods);
    assert(capture_effect(before, cache.entries(), app, ax@, script@, r));
    r
}

/// After a capture in which accessibility found a nonempty text, the next
/// capture in the same application goes by accessibility alone: it never
/// asks AppleScript, and returns what accessibility answers.
pub proof fn lemma_capture_converges(
    c0: Map<Seq<char>, u8>,
    c1: Map<Seq<char>, u8>,
    c2: Map<Seq<char>, u8>,
    app: Seq<char>,
    ax1: Option<Result<String, GetTextError>>,
    script1: Option<Result<String, GetTextError>>,
    r1: Result<String, GetTextError>,
    ax2: Option<Result<String, GetTextError>>,
    script2: Option<Result<String, GetTextError>>,
    r2: Result<String, GetTextError>,
)
    requires
        capture_effect(c0, c1, app, ax1, script1, r1),
        capture_effect(c1, c2, app, ax2, script2, r2),
        ax1 matches Some(Ok(t)) && t@.len() > 0,
    ensures
        plan_for(c1, app) == Plan::AccessibilityOnly,
        script2 is None,
        r2 == ax2->Some_0,
{
}

/// A capture for an application whose accessibility success is remembered
/// never asks AppleScript, whatever accessibility answers.
pub proof fn lemma_remembered_accessibility_skips_applescript(
    ax: Option<Result<String, GetTextError>>,
    script: Option<Result<String, GetTextError>>,
    r: Result<String, GetTextError>,
)
    requires
        capture_outcome(Plan::AccessibilityOnly, ax, script, r),
    ensures
        script is None,
        r == ax->Some_0,
{
}

/// What the with-context capture does after accessibility answered.
#[derive(Debug, PartialEq, Eq)]
pub enum AxContextStep {
    /// Stop with this result.
    Done(Result<(String, Option<String>), GetTextError>),
    /// Ask the AppleScript copy for the selection.
    AskAppleScript,
}

/// The context kept for an accessibility selection `s` that came with `c`:
/// none for an empty selection, else `c` where it holds `s`.
pub open spec fn ax_context(s: Seq<char>, c: Option<String>) -> Option<String> {
    if s.len() == 0 {
        None
    } else {
        accepted(s, Ok(c))
    }
}

/// An accessibility success is returned with its context kept where the
/// selection is not empty and the context holds it; a failure turns to
/// AppleScript.
pub fn context_after_ax(ax: Result<(String, Option<String>), GetTextError>) -> (r: AxContextStep)
    ensures
        match ax {
            Ok((s, c)) => r == AxContextStep::Done(Ok((s, ax_context(s@, c)))),
            Err(_) => r == AxContextStep::AskAppleScript,
        },
{
    match ax {
        Ok((selected, context)) => {
            let kept = if selected.as_str().is_empty() {
                None
            } else {
                accept_context(selected.as_str(), Ok(context))
            };
            AxContextStep::Done(Ok((selected, kept)))
        },
        Err(_) => AxContextStep::AskAppleScript,
    }
}

/// What the with-context capture does after the AppleScript copy answered.
#[derive(Debug, PartialEq, Eq)]
pub enum ScriptStep {
    /// Stop with this result.
    Done(Result<(String, Option<String>), GetTextError>),
    /// Ask the AppleScript select-all copy for the document around this selection.
    AskDocument(String),
}

/// An AppleScript error is passed on; an empty selection returns with no
/// context; otherwise the document is asked for.
pub fn context_after_script(selection: Result<String, GetTextError>) -> (r: ScriptStep)
    ensures
        match selection {
            Err(e) => r == ScriptStep::Done(Err(e)),
            Ok(s) => if s@.len() == 0 {
                r == ScriptStep::Done(Ok((s, None)))
            } else {
                r == ScriptStep::AskDocument(s)
            },
        },
{
    match selection {
        Err(e) => ScriptStep::Done(Err(e)),
        Ok(s) => if s.as_str().is_empty() {
            ScriptStep::Done(Ok((s, None)))
        } else {
            ScriptStep::AskDocument(s)
        },
    }
}

/// The selection with the document as its context, where the document was
/// read and holds the selection.
pub fn context_after_document(selected: String, document: Result<String, GetTextError>) -> (r: (
    String,
    Option<String>,
))
    ensures
        r.0 == selected,
        r.1 == accepted(
            selected@,
            match document {
                Ok(d) => Ok(Some(d)),
                Err(e) => Err(e),
            },
        ),
{
    let candidate = match document {
        Ok(d) => Ok(Some(d)),
        Err(e) => Err(e),
    };
    let kept = accept_context(selected.as_str(), candidate);
    (selected, kept)
}

/// `r` is what the with-context capture gives on the answers of the
/// accessibility chain, the AppleScript copy and the AppleScript select-all
/// copy (`None` where not asked).
pub open spec fn mac_context_outcome(
    ax: Result<(String, Option<String>), GetTextError>,
    script: Option<Result<String, GetTextError>>,
    document: Option<Result<String, GetTextError>>,
    r: Result<(String, Option<String>), GetTextError>,
) -> bool {
    match ax {
        Ok((s, c)) => script is None && document is None && r == Ok::<
            (String, Option<String>),
            GetTextError,
        >((s, ax_context(s@, c))),
        Err(_) => script is Some && match script->Some_0 {
            Err(e) => document is None && r == Err::<(String, Option<String>), GetTextError>(e),
            Ok(s) => if s@.len() == 0 {
                document is None && r == Ok::<(String, Option<String>), GetTextError>((s, None))
            } else {
                document is Some && r == Ok::<(String, Option<String>), GetTextError>(
                    (
                        s,
                        accepted(
                            s@,
                            match document->Some_0 {
                                Ok(d) => Ok(Some(d)),
                                Err(e) => Err(e),
                            },
                        ),
                    ),
                )
            },
        },
    }
}

/// Captures the selected text and its context: from the accessibility
/// strategies where one succeeds, else by the AppleScript copy and
/// select-all copy. A context is kept only where it holds the selection.
pub fn get_selected_text_with_context_by_method<M: MacMethods>(methods: &mut M) -> (r: Result<
    (String, Option<String>),
    GetTextError,
>)
    ensures
        result_ok(r),
        exists|
            ax: Result<(String, Option<String>), GetTextError>,
            script: Option<Result<String, GetTextError>>,
            document: Option<Result<String, GetTextError>>,
        | #[trigger] mac_context_outcome(ax, script, document, r),
{
    let ax = get_selected_text_by_ax(methods);
    let ghost a = ax;
    match context_after_ax(ax) {
        AxContextStep::Done(r) => {
            assert(mac_context_outcome(a, None, None, r));
            r
        },
        AxContextStep::AskAppleScript => {
            let selection = methods.applescript_selection();
            let ghost sc = selection;
            match context_after_script(selection) {
                ScriptStep::Done(r) => {
                    assert(mac_context_outcome(a, Some(sc), None, r));
                    r
                },
                ScriptStep::AskDocument(selected) => {
                    let document = methods.applescript_document();
                    let ghost d = document;
                    let r = context_after_document(selected, document);
                    assert(mac_context_outcome(a, Some(sc), Some(d), Ok(r)));
                    Ok(r)
                },
            }
        },
    }
}

} // verus!
