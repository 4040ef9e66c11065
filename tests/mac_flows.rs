use get_selected_text::ax::{
    active_window_selection, children_to_search, needs_tree_search, MAX_CHILDREN_PER_LEVEL,
};
use get_selected_text::cache::{MethodCache, Plan};
use get_selected_text::mac::{
    get_selected_text_by_method_traced, after_ax_strategy, context_after_ax, context_after_script, first_request,
    get_selected_text_by_ax, get_selected_text_by_method, get_selected_text_with_context_by_method,
    AxChainStep, AxContextStep, AxStrategy, MacMethods, MethodRequest, ScriptStep,
};
use get_selected_text::tree::{traverse_ui_tree, AxTree, TreeReport, TreeRequest, TreeWalk};
use get_selected_text::GetTextError;

/// A tree whose elements are paths; each element above `height` levels has
/// `width` children, and the elements in `targets` hold a selection naming
/// their path.
struct GridTree {
    width: usize,
    height: usize,
    targets: Vec<Vec<usize>>,
    visited: Vec<Vec<usize>>,
}

impl AxTree for GridTree {
    type Element = Vec<usize>;

    fn extract(&mut self, element: &Vec<usize>) -> Result<(String, Option<String>), GetTextError> {
        self.visited.push(element.clone());
        if self.targets.contains(element) {
            Ok((format!("{:?}", element), None))
        } else {
            Err(GetTextError::NoSelection)
        }
    }

    fn child_count(&mut self, element: &Vec<usize>) -> Option<usize> {
        if element.len() < self.height {
            Some(self.width)
        } else {
            Some(0)
        }
    }

    fn child(&mut self, element: &Vec<usize>, index: usize) -> Option<Vec<usize>> {
        let mut c = element.clone();
        c.push(index);
        Some(c)
    }
}

fn grid(width: usize, height: usize, targets: Vec<Vec<usize>>) -> GridTree {
    GridTree { width, height, targets, visited: Vec::new() }
}

#[test]
fn tree_search_limits() {
    assert_eq!(children_to_search(0, Some(40)), MAX_CHILDREN_PER_LEVEL);
    assert_eq!(children_to_search(5, Some(3)), 3);
    assert_eq!(children_to_search(6, Some(3)), 0);
    assert_eq!(children_to_search(0, None), 0);
}

#[test]
fn tree_search_finds_deep_element() {
    let mut tree = grid(2, 7, vec![vec![1, 0, 1, 1, 0, 1]]);
    let r = traverse_ui_tree(&mut tree, Vec::new());
    assert_eq!(r, Some(("[1, 0, 1, 1, 0, 1]".to_string(), None)));
}

#[test]
fn tree_search_returns_first_in_pre_order() {
    let mut tree = grid(3, 3, vec![vec![1], vec![0, 2], vec![0, 2, 0]]);
    let r = traverse_ui_tree(&mut tree, Vec::new());
    assert_eq!(r, Some(("[0, 2]".to_string(), None)));
    assert_eq!(tree.visited.last(), Some(&vec![0, 2]));
}

#[test]
fn tree_search_stops_at_depth_limit() {
    let mut tree = grid(1, 10, vec![vec![0; 7]]);
    let r = traverse_ui_tree(&mut tree, Vec::new());
    assert_eq!(r, None);
    assert_eq!(tree.visited.len(), 7);
    assert!(tree.visited.iter().all(|p| p.len() <= 6));
}

#[test]
fn tree_search_stops_at_breadth_limit() {
    let mut tree = grid(20, 1, vec![vec![15]]);
    let r = traverse_ui_tree(&mut tree, Vec::new());
    assert_eq!(r, None);
    assert_eq!(tree.visited.len(), 1 + 15);
}

#[test]
fn tree_walk_steps() {
    let (mut walk, r) = TreeWalk::new();
    assert_eq!(r, TreeRequest::Extract);
    assert_eq!(walk.step(TreeReport::Reading(Ok((String::new(), None)))), TreeRequest::CountChildren);
    assert_eq!(walk.step(TreeReport::Count(Some(2))), TreeRequest::Child(0));
    assert_eq!(walk.step(TreeReport::Child(false)), TreeRequest::Child(1));
    assert_eq!(walk.step(TreeReport::Child(true)), TreeRequest::Extract);
    assert_eq!(walk.step(TreeReport::Reading(Err(GetTextError::NoSelection))), TreeRequest::CountChildren);
    assert_eq!(walk.step(TreeReport::Count(None)), TreeRequest::Parent);
    assert_eq!(walk.step(TreeReport::Done), TreeRequest::Finish(None));
}

#[test]
fn tree_walk_stops_at_first_selection() {
    let (mut walk, _) = TreeWalk::new();
    let found = Some(("s".to_string(), Some("c".to_string())));
    assert_eq!(
        walk.step(TreeReport::Reading(Ok(("s".to_string(), Some("c".to_string()))))),
        TreeRequest::Finish(found)
    );
}

#[test]
fn ax_chain_steps() {
    let ok = Ok(("x".to_string(), None));
    assert_eq!(after_ax_strategy(AxStrategy::ActiveWindow, ok.clone()), AxChainStep::Done(ok));
    assert_eq!(
        after_ax_strategy(AxStrategy::SystemFocused, Err(GetTextError::NoSelection)),
        AxChainStep::Try(AxStrategy::ActiveWindow)
    );
    assert!(matches!(
        after_ax_strategy(AxStrategy::Alternatives, Err(GetTextError::NoSelection)),
        AxChainStep::Done(Err(GetTextError::Os(_)))
    ));
}

#[test]
fn method_requests_follow_plan() {
    assert_eq!(first_request(Plan::AppleScriptOnly), MethodRequest::AppleScript);
    assert_eq!(first_request(Plan::AccessibilityOnly), MethodRequest::Accessibility);
    assert_eq!(first_request(Plan::AccessibilityThenAppleScript), MethodRequest::Accessibility);
}

#[test]
fn mac_context_steps() {
    assert_eq!(
        context_after_ax(Ok(("s".to_string(), Some("a s b".to_string())))),
        AxContextStep::Done(Ok(("s".to_string(), Some("a s b".to_string()))))
    );
    assert_eq!(context_after_ax(Err(GetTextError::NoSelection)), AxContextStep::AskAppleScript);
    assert_eq!(
        context_after_ax(Ok((String::new(), Some("anything".to_string())))),
        AxContextStep::Done(Ok((String::new(), None)))
    );
    assert_eq!(context_after_script(Ok(String::new())), ScriptStep::Done(Ok((String::new(), None))));
    assert_eq!(context_after_script(Ok("s".to_string())), ScriptStep::AskDocument("s".to_string()));
    assert_eq!(
        context_after_script(Err(GetTextError::Os("e".to_string()))),
        ScriptStep::Done(Err(GetTextError::Os("e".to_string())))
    );
}

#[test]
fn active_window_prefers_focused_element() {
    let focused = Some(Ok(("f".to_string(), None)));
    assert!(!needs_tree_search(&focused));
    assert_eq!(active_window_selection(focused, Some(("t".to_string(), None))), Ok(("f".to_string(), None)));
    let failed = Some(Err(GetTextError::NoSelection));
    assert!(needs_tree_search(&failed));
    assert_eq!(active_window_selection(failed, Some(("t".to_string(), None))), Ok(("t".to_string(), None)));
    assert!(needs_tree_search(&None));
    assert_eq!(active_window_selection(None, None), Err(GetTextError::NoSelection));
}

struct FakeMethods {
    system: Result<(String, Option<String>), GetTextError>,
    window: Result<(String, Option<String>), GetTextError>,
    alternative: Result<(String, Option<String>), GetTextError>,
    script: Result<String, GetTextError>,
    document: Result<String, GetTextError>,
    ax_calls: usize,
    script_calls: usize,
}

impl FakeMethods {
    fn failing() -> FakeMethods {
        FakeMethods {
            system: Err(GetTextError::NoSelection),
            window: Err(GetTextError::NoSelection),
            alternative: Err(GetTextError::NoSelection),
            script: Err(GetTextError::Os("script".to_string())),
            document: Err(GetTextError::Os("script".to_string())),
            ax_calls: 0,
            script_calls: 0,
        }
    }
}

impl MacMethods for FakeMethods {
    fn system_focused_element(&mut self) -> Result<(String, Option<String>), GetTextError> {
        self.ax_calls += 1;
        self.system.clone()
    }

    fn active_window_element(&mut self) -> Result<(String, Option<String>), GetTextError> {
        self.window.clone()
    }

    fn alternative_methods(&mut self) -> Result<(String, Option<String>), GetTextError> {
        self.alternative.clone()
    }

    fn applescript_selection(&mut self) -> Result<String, GetTextError> {
        self.script_calls += 1;
        self.script.clone()
    }

    fn applescript_document(&mut self) -> Result<String, GetTextError> {
        self.document.clone()
    }
}

#[test]
fn ax_strategies_in_order() {
    let mut m = FakeMethods::failing();
    m.window = Ok(("w".to_string(), None));
    m.alternative = Ok(("a".to_string(), None));
    assert_eq!(get_selected_text_by_ax(&mut m), Ok(("w".to_string(), None)));
    let mut m = FakeMethods::failing();
    assert!(matches!(get_selected_text_by_ax(&mut m), Err(GetTextError::Os(_))));
}

#[test]
fn second_capture_skips_applescript_after_ax_success() {
    let mut cache = MethodCache::new();
    let mut m = FakeMethods::failing();
    m.system = Ok(("picked".to_string(), None));
    assert_eq!(get_selected_text_by_method(&mut cache, "Notes".to_string(), &mut m), Ok("picked".to_string()));
    m.system = Err(GetTextError::NoSelection);
    let second = get_selected_text_by_method(&mut cache, "Notes".to_string(), &mut m);
    assert!(matches!(second, Err(GetTextError::Os(_))));
    assert_eq!(m.ax_calls, 2);
    assert_eq!(m.script_calls, 0);
    assert_eq!(cache.plan(&"Notes".to_string()), Plan::AccessibilityOnly);
}

#[test]
fn applescript_fallback_is_remembered() {
    let mut cache = MethodCache::new();
    let mut m = FakeMethods::failing();
    m.script = Ok("via script".to_string());
    assert_eq!(get_selected_text_by_method(&mut cache, "Web".to_string(), &mut m), Ok("via script".to_string()));
    assert_eq!(get_selected_text_by_method(&mut cache, "Web".to_string(), &mut m), Ok("via script".to_string()));
    assert_eq!(m.ax_calls, 1);
    assert_eq!(m.script_calls, 2);
}

#[test]
fn mac_context_from_ax_is_checked() {
    let mut m = FakeMethods::failing();
    m.system = Ok(("sel".to_string(), Some("a sel b".to_string())));
    assert_eq!(
        get_selected_text_with_context_by_method(&mut m),
        Ok(("sel".to_string(), Some("a sel b".to_string())))
    );
    m.system = Ok(("sel".to_string(), Some("a title".to_string())));
    assert_eq!(get_selected_text_with_context_by_method(&mut m), Ok(("sel".to_string(), None)));
}

#[test]
fn mac_context_from_applescript() {
    let mut m = FakeMethods::failing();
    m.script = Ok("sel".to_string());
    m.document = Ok("whole sel doc".to_string());
    assert_eq!(
        get_selected_text_with_context_by_method(&mut m),
        Ok(("sel".to_string(), Some("whole sel doc".to_string())))
    );
    m.document = Ok("other".to_string());
    assert_eq!(get_selected_text_with_context_by_method(&mut m), Ok(("sel".to_string(), None)));
    m.script = Ok(String::new());
    assert_eq!(get_selected_text_with_context_by_method(&mut m), Ok((String::new(), None)));
    m.script = Err(GetTextError::Os("denied".to_string()));
    assert_eq!(get_selected_text_with_context_by_method(&mut m), Err(GetTextError::Os("denied".to_string())));
}

#[test]
fn traced_capture_reports_answers() {
    let mut cache = MethodCache::new();
    let mut m = FakeMethods::failing();
    m.script = Ok("via script".to_string());
    let (r, _, _) = get_selected_text_by_method_traced(&mut cache, "App".to_string(), &mut m);
    assert_eq!(r, Ok("via script".to_string()));
    assert_eq!(cache.plan(&"App".to_string()), Plan::AppleScriptOnly);
}
