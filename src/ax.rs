//! The rules of the macOS accessibility resolver: which attribute of the
//! focused element serves as context, when an element's reading counts as a
//! selection, and what the last-resort guesses may return.
use vstd::prelude::*;
use crate::clipboard::{trim_str, trimmed};
use crate::context::utf8_of;
use crate::orchestrator::{accept_context, accepted};
use crate::error::GetTextError;

verus! {

/// The role that the accessibility layer gives to elements holding web
/// content; the functions below take the role to match as a parameter, and
/// this is the one the platform uses.
pub const WEB_AREA_ROLE: &'static str = "AXWebArea";

/// Attribute texts of this many bytes or fewer are too short for context.
pub const MIN_CONTEXT_BYTES: usize = 10;

/// Clipboard texts of this many bytes or more are not taken as a selection.
pub const MAX_CLIPBOARD_GUESS_BYTES: usize = 1000;

/// The element's role is the web-content role `web_role`.
pub open spec fn is_web_area(role: Option<String>, web_role: Seq<char>) -> bool {
    role is Some && role->Some_0@ == web_role
}

/// An attribute text long enough to serve as context outside web areas.
pub open spec fn long_enough(t: Option<String>) -> bool {
    t is Some && utf8_of(t->Some_0@).len() > MIN_CONTEXT_BYTES
}

/// The context that an element's attributes give: for a web area, its value
/// where that is not empty and nothing else; otherwise the first of value,
/// description and title that is long enough.
pub open spec fn element_context(
    role: Option<String>,
    web_role: Seq<char>,
    value: Option<String>,
    description: Option<String>,
    title: Option<String>,
) -> Option<String> {
    if is_web_area(role, web_role) {
        if value is Some && value->Some_0@.len() > 0 {
            value
        } else {
            None
        }
    } else if long_enough(value) {
        value
    } else if long_enough(description) {
        description
    } else if long_enough(title) {
        title
    } else {
        None
    }
}

/// Whether the role is the web-content role `web_role`.
pub fn role_is_web_area(role: &Option<String>, web_role: &str) -> (r: bool)
    ensures
        r == is_web_area(*role, web_role@),
{
    match role {
        Some(name) => {
            let web = web_role.to_owned();
            *name == web
        },
        None => false,
    }
}

fn is_long_enough(t: &Option<String>) -> (r: bool)
    ensures
        r == long_enough(*t),
{
    match t {
        Some(s) => s.as_str().as_bytes().len() > MIN_CONTEXT_BYTES,
        None => false,
    }
}

/// Picks the context out of an element's role, value, description and title.
pub fn context_from_attributes(
    role: &Option<String>,
    web_role: &str,
    value: Option<String>,
    description: Option<String>,
    title: Option<String>,
) -> (r: Option<String>)
    ensures
        r == element_context(*role, web_role@, value, description, title),
{
    if role_is_web_area(role, web_role) {
        match value {
            Some(v) => if v.as_str().is_empty() {
                None
            } else {
                Some(v)
            },
            None => None,
        }
    } else if is_long_enough(&value) {
        value
    } else if is_long_enough(&description) {
        description
    } else if is_long_enough(&title) {
        title
    } else {
        None
    }
}

/// What an element's reading gives: no selection where its selected text is
/// missing or empty; otherwise the context is kept only where it holds the
/// selection, and a web area left without context is refused, so that a
/// method that can reach its context is tried.
pub open spec fn element_reading_ok(
    selected: Option<String>,
    role: Option<String>,
    web_role: Seq<char>,
    context: Option<String>,
    r: Result<(String, Option<String>), GetTextError>,
) -> bool {
    if selected is None || selected->Some_0@.len() == 0 {
        r == Err::<(String, Option<String>), GetTextError>(GetTextError::NoSelection)
    } else {
        let kept = accepted(selected->Some_0@, Ok(context));
        if is_web_area(role, web_role) && kept is None {
            r is Err && r->Err_0 is Os
        } else {
            r == Ok::<(String, Option<String>), GetTextError>((selected->Some_0, kept))
        }
    }
}

/// Decides what an element's selected text, role and context amount to.
pub fn element_selection(
    selected: Option<String>,
    role: &Option<String>,
    web_role: &str,
    context: Option<String>,
) -> (r: Result<(String, Option<String>), GetTextError>)
    ensures
        element_reading_ok(selected, *role, web_role@, context, r),
{
    match selected {
        None => Err(GetTextError::NoSelection),
        Some(text) => {
            if text.as_str().is_empty() {
                Err(GetTextError::NoSelection)
            } else {
                let kept = accept_context(text.as_str(), Ok(context));
                if role_is_web_area(role, web_role) && kept.is_none() {
                    Err(GetTextError::Os("web content found without its context".to_owned()))
                } else {
                    Ok((text, kept))
                }
            }
        },
    }
}

/// The last-resort guesses: the application element's own selected text
/// where it is not empty, else the clipboard's text where it is not empty
/// and shorter than the guess limit.
pub open spec fn guess_ok(
    app_selected: Option<String>,
    clipboard: Option<String>,
    r: Result<(String, Option<String>), GetTextError>,
) -> bool {
    if app_selected is Some && app_selected->Some_0@.len() > 0 {
        r == Ok::<(String, Option<String>), GetTextError>((app_selected->Some_0, None))
    } else if clipboard is Some && clipboard->Some_0@.len() > 0 && utf8_of(clipboard->Some_0@).len()
        < MAX_CLIPBOARD_GUESS_BYTES {
        r == Ok::<(String, Option<String>), GetTextError>((clipboard->Some_0, None))
    } else {
        r == Err::<(String, Option<String>), GetTextError>(GetTextError::NoSelection)
    }
}

/// Chooses among the last-resort guesses.
pub fn guessed_selection(app_selected: Option<String>, clipboard: Option<String>) -> (r: Result<
    (String, Option<String>),
    GetTextError,
>)
    ensures
        guess_ok(app_selected, clipboard, r),
{
    if let Some(t) = app_selected {
        if !t.as_str().is_empty() {
            return Ok((t, None));
        }
    }
    match clipboard {
        Some(c) => if !c.as_str().is_empty() && c.as_str().as_bytes().len() < MAX_CLIPBOARD_GUESS_BYTES {
            Ok((c, None))
        } else {
            Err(GetTextError::NoSelection)
        },
        None => Err(GetTextError::NoSelection),
    }
}

/// What a finished script run gives: its output trimmed where it succeeded,
/// else its error output.
pub fn script_result(success: bool, stdout: String, stderr: String) -> (r: Result<String, GetTextError>)
    ensures
        success ==> r is Ok && r->Ok_0@ == trimmed(stdout@),
        !success ==> r == Err::<String, GetTextError>(GetTextError::Os(stderr)),
{
    if success {
        Ok(trim_str(stdout.as_str()).to_owned())
    } else {
        Err(GetTextError::Os(stderr))
    }
}

/// Deepest level of the accessibility tree whose elements are inspected;
/// the root is at depth 0.
pub const MAX_TREE_DEPTH: usize = 6;

/// Children of one element searched at most.
pub const MAX_CHILDREN_PER_LEVEL: usize = 15;

/// How many children of an element at `depth` the tree search visits.
pub open spec fn search_limit(depth: int, child_count: Option<usize>) -> int {
    match child_count {
        Some(n) => if depth >= MAX_TREE_DEPTH {
            0
        } else if n <= MAX_CHILDREN_PER_LEVEL {
            n as int
        } else {
            MAX_CHILDREN_PER_LEVEL as int
        },
        None => 0,
    }
}

/// How many children of an element at `depth` the tree search visits, given
/// how many it has (`None` where that could not be read): none below the
/// deepest inspected level, else at most the per-level limit.
pub fn children_to_search(depth: usize, child_count: Option<usize>) -> (r: usize)
    ensures
        r == search_limit(depth as int, child_count),
        r == match child_count {
            Some(n) => if depth >= MAX_TREE_DEPTH {
                0
            } else if n <= MAX_CHILDREN_PER_LEVEL {
                n
            } else {
                MAX_CHILDREN_PER_LEVEL
            },
            None => 0,
        },
        r <= MAX_CHILDREN_PER_LEVEL,
{
    match child_count {
        Some(n) => if depth >= MAX_TREE_DEPTH {
            0
        } else if n <= MAX_CHILDREN_PER_LEVEL {
            n
        } else {
            MAX_CHILDREN_PER_LEVEL
        },
        None => 0,
    }
}

/// Whether the active-window strategy has to search the element tree: only
/// where the focused element was not found or its reading failed.
pub fn needs_tree_search(focused: &Option<Result<(String, Option<String>), GetTextError>>) -> (r: bool)
    ensures
        r == !(*focused matches Some(Ok(_))),
{
    match focused {
        Some(Ok(_)) => false,
        _ => true,
    }
}

/// What the active-window strategy gives: the focused element's reading
/// where it succeeded, else what the tree search found, else no selection.
pub fn active_window_selection(
    focused: Option<Result<(String, Option<String>), GetTextError>>,
    searched: Option<(String, Option<String>)>,
) -> (r: Result<(String, Option<String>), GetTextError>)
    ensures
        focused matches Some(Ok(_)) ==> r == focused->Some_0,
        !(focused matches Some(Ok(_))) && searched is Some ==> r == Ok::<
            (String, Option<String>),
            GetTextError,
        >(searched->Some_0),
        !(focused matches Some(Ok(_))) && searched is None ==> r == Err::<
            (String, Option<String>),
            GetTextError,
        >(GetTextError::NoSelection),
{
    match focused {
        Some(Ok(found)) => Ok(found),
        _ => match searched {
            Some(found) => Ok(found),
            None => Err(GetTextError::NoSelection),
        },
    }
}

} // verus!
