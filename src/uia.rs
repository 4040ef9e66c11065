//! The rules of the Windows UI-Automation resolver: the walk up from the
//! focused element, the check that a text pattern's selection is the one
//! the clipboard captured, and the context that the pattern then gives.
use vstd::prelude::*;
use crate::context::{
    context_window, contains_bytes, utf8_of, window_around, CONTEXT_CHARS_AFTER,
    CONTEXT_CHARS_BEFORE,
};
use crate::clipboard::is_white;
use crate::error::GetTextError;
use crate::orchestrator::{accept_context, accepted, contains_text};

verus! {

/// Elements visited at most on the walk up from the focused element.
pub const MAX_ANCESTOR_HOPS: u32 = 20;

/// What `str::split_whitespace` yields for a text, joined back together: the
/// text with all of its whitespace removed.
pub open spec fn without_whitespace(s: Seq<char>) -> Seq<char> {
    s.filter(|c: char| !is_white(c))
}

/// Relies on `str::split_whitespace`, which splits at runs of Unicode
/// White_Space; its pieces, collected into one string, are the text without
/// its whitespace.
#[verifier::external_body]
fn strip_whitespace(s: &str) -> (r: String)
    ensures
        r@ == without_whitespace(s@),
{
    s.split_whitespace().collect()
}

/// Two whitespace-free texts name the same selection: one holds the other.
pub open spec fn same_selection(a: Seq<char>, b: Seq<char>) -> bool {
    contains_bytes(utf8_of(a), utf8_of(b)) || contains_bytes(utf8_of(b), utf8_of(a))
}

/// Whether two texts, already stripped of whitespace, name the same selection.
pub fn stripped_texts_match(clipboard_stripped: &str, pattern_stripped: &str) -> (r: bool)
    ensures
        r == same_selection(pattern_stripped@, clipboard_stripped@),
{
    contains_text(pattern_stripped, clipboard_stripped) || contains_text(
        clipboard_stripped,
        pattern_stripped,
    )
}

/// Whether the text pattern's selection is the one the clipboard captured,
/// whitespace aside.
pub fn selections_match(clipboard_text: &str, pattern_text: &str) -> (r: bool)
    ensures
        r == same_selection(without_whitespace(pattern_text@), without_whitespace(clipboard_text@)),
{
    let c = strip_whitespace(clipboard_text);
    let p = strip_whitespace(pattern_text);
    stripped_texts_match(c.as_str(), p.as_str())
}

/// The context that a text pattern gives for its selection `sel`: the
/// enclosing paragraph where it holds `sel`; else the window around `sel` in
/// the document where it occurs there; else `sel` itself.
pub open spec fn pattern_context(
    sel: Seq<char>,
    paragraph: Option<String>,
    document: Option<String>,
    r: String,
) -> bool {
    if paragraph is Some && contains_bytes(utf8_of(paragraph->Some_0@), utf8_of(sel)) {
        r == paragraph->Some_0
    } else if document is Some && contains_bytes(utf8_of(document->Some_0@), utf8_of(sel)) {
        window_around(document->Some_0@, sel, Some(r@))
    } else {
        r@ == sel
    }
}

/// Whether the document text is needed for a matched pattern selection:
/// only where the enclosing paragraph was not read or does not hold it.
pub fn needs_document(pattern_selection: &str, paragraph: &Option<String>) -> (r: bool)
    ensures
        r == !(*paragraph is Some && contains_bytes(
            utf8_of(paragraph->Some_0@),
            utf8_of(pattern_selection@),
        )),
{
    match paragraph {
        Some(p) => !contains_text(p.as_str(), pattern_selection),
        None => true,
    }
}

/// The context that a matched pattern selection's paragraph or document
/// gives, before it is checked against the captured selection.
pub fn pattern_choice(
    pattern_selection: String,
    paragraph: Option<String>,
    document: Option<String>,
) -> (r: String)
    ensures
        pattern_context(pattern_selection@, paragraph, document, r),
{
    if let Some(p) = paragraph {
        if contains_text(p.as_str(), pattern_selection.as_str()) {
            return p;
        }
    }
    if let Some(d) = document {
        match context_window(
            d.as_str(),
            pattern_selection.as_str(),
            CONTEXT_CHARS_BEFORE,
            CONTEXT_CHARS_AFTER,
        ) {
            Some(c) => {
                return c;
            },
            None => {},
        }
    }
    pattern_selection
}

/// The context for a pattern selection that matched the clipboard's
/// `clipboard_text`, from the text of its enclosing paragraph and of the
/// whole document (`None` where either could not be read): the context that
/// the pattern gives, kept only where it holds the captured selection itself.
pub fn context_from_text_pattern(
    clipboard_text: &str,
    pattern_selection: String,
    paragraph: Option<String>,
    document: Option<String>,
) -> (r: Option<String>)
    ensures
        exists|chosen: String|
            #[trigger] pattern_context(pattern_selection@, paragraph, document, chosen) && r
                == accepted(clipboard_text@, Ok(Some(chosen))),
{
    let ghost sel = pattern_selection@;
    let ghost p = paragraph;
    let ghost d = document;
    let chosen = pattern_choice(pattern_selection, paragraph, document);
    let r = accept_context(clipboard_text, Ok(Some(chosen)));
    assert(pattern_context(sel, p, d, chosen));
    r
}

/// What processing one element on the walk came to.
#[derive(Debug, PartialEq, Eq)]
pub enum ElementOutcome {
    /// The element has no text pattern.
    NoPattern,
    /// Its pattern has no selection, or not the captured one.
    NoMatch,
    /// Its pattern gave this context.
    Context(String),
    /// Reading its pattern failed.
    Failed(GetTextError),
}

/// What the walk does after an element.
#[derive(Debug, PartialEq, Eq)]
pub enum WalkStep {
    /// Go on to the element's parent.
    Parent,
    /// Stop with this result.
    Stop(Result<Option<String>, GetTextError>),
}

/// The walk up from the focused element.
#[derive(Debug)]
pub struct AncestorWalk {
    pub visited: u32,
}

impl AncestorWalk {
    pub open spec fn wf(&self) -> bool {
        self.visited < MAX_ANCESTOR_HOPS
    }

    /// A walk that has visited nothing yet.
    pub fn new() -> (r: AncestorWalk)
        ensures
            r.visited == 0,
            r.wf(),
    {
        AncestorWalk { visited: 0 }
    }

    /// Decides on the outcome of the element just visited: a context or a
    /// failure ends the walk; otherwise it goes on to the parent until the
    /// visit limit is reached, and stops there without context.
    pub fn visit(&mut self, outcome: ElementOutcome) -> (r: WalkStep)
        requires
            old(self).wf(),
        ensures
            final(self).visited == old(self).visited + 1,
            r == WalkStep::Parent ==> final(self).wf(),
            match outcome {
                ElementOutcome::Context(c) => r == WalkStep::Stop(Ok(Some(c))),
                ElementOutcome::Failed(e) => r == WalkStep::Stop(Err(e)),
                _ => if final(self).visited >= MAX_ANCESTOR_HOPS {
                    r == WalkStep::Stop(Ok(None))
                } else {
                    r == WalkStep::Parent
                },
            },
    {
        self.visited = self.visited + 1;
        match outcome {
            ElementOutcome::Context(c) => WalkStep::Stop(Ok(Some(c))),
            ElementOutcome::Failed(e) => WalkStep::Stop(Err(e)),
            _ => if self.visited >= MAX_ANCESTOR_HOPS {
                WalkStep::Stop(Ok(None))
            } else {
                WalkStep::Parent
            },
        }
    }
}

} // verus!
