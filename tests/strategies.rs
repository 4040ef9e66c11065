use get_selected_text::clipboard::{
    snapshot_of, ClipboardSnapshot, Effect, Event,
    ImageData, Next,
};
use get_selected_text::copy::{CopyPhase, CopySession};
use get_selected_text::driver::{
    get_context_via_select_all, get_context_via_select_all_traced, get_selected_text,
    get_selected_text_traced, get_selected_text_with_context, get_selected_text_with_context_traced,
    Desktop,
};
use get_selected_text::orchestrator::{ContextAction, ContextEvent, ContextRun};
use get_selected_text::select_all::{SelectAllPhase, SelectAllSession};
use get_selected_text::GetTextError;

/// A desktop whose clipboard is a value, whose focused field holds a
/// document with a selection, and which can be told to fail one effect.
struct FakeDesktop {
    clipboard: ClipboardSnapshot,
    document: String,
    selection: String,
    all_selected: bool,
    direct: Result<Option<String>, GetTextError>,
    fail_at: Option<usize>,
    elapsed_ms: u64,
    step_ms: u64,
    performed: Vec<Effect>,
    settled: Vec<u64>,
}

impl FakeDesktop {
    fn new(clipboard: ClipboardSnapshot, document: &str, selection: &str) -> FakeDesktop {
        FakeDesktop {
            clipboard,
            document: document.to_string(),
            selection: selection.to_string(),
            all_selected: false,
            direct: Err(GetTextError::Unimplemented),
            fail_at: None,
            elapsed_ms: 0,
            step_ms: 10,
            performed: Vec::new(),
            settled: Vec::new(),
        }
    }
}

impl Desktop for FakeDesktop {
    fn perform(&mut self, effect: Effect) -> Event {
        self.performed.push(effect.clone());
        let index = self.performed.len() - 1;
        let fail = self.fail_at == Some(index);
        self.elapsed_ms += self.step_ms;
        match effect {
            Effect::TakeSnapshot => {
                self.elapsed_ms = 0;
                if fail {
                    return Event::Failed(GetTextError::Clipboard("busy".to_string()));
                }
                Event::Snapshot(self.clipboard.clone())
            }
            Effect::Restore(x) => {
                if fail {
                    return Event::Failed(GetTextError::Clipboard("restore".to_string()));
                }
                self.clipboard = x;
                Event::Done(self.elapsed_ms)
            }
            Effect::WriteSentinel => {
                if fail {
                    return Event::Failed(GetTextError::Clipboard("write".to_string()));
                }
                self.clipboard = ClipboardSnapshot::Text(String::new());
                Event::Done(self.elapsed_ms)
            }
            Effect::Copy => {
                if fail {
                    return Event::Failed(GetTextError::Input("copy".to_string()));
                }
                let copied = if self.all_selected {
                    self.document.clone()
                } else {
                    self.selection.clone()
                };
                if !copied.is_empty() {
                    self.clipboard = ClipboardSnapshot::Text(copied);
                }
                Event::Done(self.elapsed_ms)
            }
            Effect::SelectAll => {
                if fail {
                    return Event::Failed(GetTextError::Input("select all".to_string()));
                }
                self.all_selected = true;
                Event::Done(self.elapsed_ms)
            }
            Effect::ReadClipboard => {
                if fail {
                    return Event::Read(None);
                }
                match &self.clipboard {
                    ClipboardSnapshot::Text(t) => Event::Read(Some(t.clone())),
                    _ => Event::Read(None),
                }
            }
            Effect::CancelSelection => {
                self.all_selected = false;
                if fail {
                    return Event::Failed(GetTextError::Input("cancel".to_string()));
                }
                Event::Done(self.elapsed_ms)
            }
            Effect::ReleaseModifiers | Effect::CollapseSelection => {
                if fail {
                    return Event::Failed(GetTextError::Input("keys".to_string()));
                }
                Event::Done(self.elapsed_ms)
            }
        }
    }

    fn settle(&mut self, ms: u64) {
        self.settled.push(ms);
    }

    fn direct_context(&mut self, _selected_text: &str) -> Result<Option<String>, GetTextError> {
        self.direct.clone()
    }
}

fn image() -> ClipboardSnapshot {
    ClipboardSnapshot::Image(ImageData { width: 1, height: 1, bytes: vec![1, 2, 3, 4] })
}

#[test]
fn copy_captures_selection_and_restores_text() {
    let before = ClipboardSnapshot::Text("old".to_string());
    let mut d = FakeDesktop::new(before.clone(), "a hello b", "hello");
    let r = get_selected_text(&mut d, false);
    assert_eq!(r, Ok("hello".to_string()));
    assert_eq!(d.clipboard, before);
    assert_eq!(
        d.performed,
        vec![
            Effect::TakeSnapshot,
            Effect::WriteSentinel,
            Effect::Copy,
            Effect::ReadClipboard,
            Effect::Restore(before.clone()),
        ]
    );
    assert_eq!(d.settled, vec![50, 250]);
}

#[test]
fn copy_with_cancel_collapses_selection() {
    let mut d = FakeDesktop::new(ClipboardSnapshot::Empty, "a hello b", "hello");
    let r = get_selected_text(&mut d, true);
    assert_eq!(r, Ok("hello".to_string()));
    assert!(d.performed.contains(&Effect::CollapseSelection));
    assert_eq!(d.clipboard, ClipboardSnapshot::Empty);
}

#[test]
fn copy_of_nothing_gives_empty_and_restores_image() {
    let mut d = FakeDesktop::new(image(), "doc", "");
    let r = get_selected_text(&mut d, false);
    assert_eq!(r, Ok(String::new()));
    assert_eq!(d.clipboard, image());
}

#[test]
fn copy_restores_clipboard_whatever_fails() {
    for fail_at in 0..5usize {
        let before = ClipboardSnapshot::Text("keep me".to_string());
        let mut d = FakeDesktop::new(before.clone(), "x sel y", "sel");
        d.fail_at = Some(fail_at);
        let _ = get_selected_text(&mut d, false);
        if fail_at != 4 {
            assert_eq!(d.clipboard, before, "failure at effect {}", fail_at);
        }
    }
}

#[test]
fn copy_failure_before_snapshot_touches_nothing() {
    let mut d = FakeDesktop::new(ClipboardSnapshot::Empty, "doc", "sel");
    d.fail_at = Some(0);
    let r = get_selected_text(&mut d, false);
    assert_eq!(r, Err(GetTextError::Clipboard("busy".to_string())));
    assert_eq!(d.performed, vec![Effect::TakeSnapshot]);
}

#[test]
fn copy_input_failure_is_reported_after_restore() {
    let before = ClipboardSnapshot::Text("old".to_string());
    let mut d = FakeDesktop::new(before.clone(), "doc", "sel");
    d.fail_at = Some(2);
    let r = get_selected_text(&mut d, false);
    assert_eq!(r, Err(GetTextError::Input("copy".to_string())));
    assert_eq!(d.clipboard, before);
    assert_eq!(d.performed.last(), Some(&Effect::Restore(before)));
}

#[test]
fn copy_restore_failure_is_reported() {
    let mut d = FakeDesktop::new(ClipboardSnapshot::Empty, "doc", "sel");
    d.fail_at = Some(4);
    let r = get_selected_text(&mut d, false);
    assert_eq!(r, Err(GetTextError::Clipboard("restore".to_string())));
}

#[test]
fn select_all_restores_clipboard_whatever_fails() {
    for fail_at in 0..8usize {
        let before = ClipboardSnapshot::Text("keep me".to_string());
        let mut d = FakeDesktop::new(before.clone(), "the whole doc with sel inside", "sel");
        d.fail_at = Some(fail_at);
        let _ = get_context_via_select_all(&mut d, "sel".to_string());
        if fail_at != 6 {
            assert_eq!(d.clipboard, before, "failure at effect {}", fail_at);
        }
    }
}

#[test]
fn select_all_finds_context_and_restores() {
    let before = image();
    let mut d = FakeDesktop::new(before.clone(), "0123456789hello0123456789", "hello");
    let r = get_context_via_select_all(&mut d, "hello".to_string());
    assert_eq!(r, Ok(Some("0123456789hello0123456789".to_string())));
    assert_eq!(d.clipboard, before);
    assert_eq!(
        d.performed,
        vec![
            Effect::TakeSnapshot,
            Effect::ReleaseModifiers,
            Effect::SelectAll,
            Effect::Copy,
            Effect::ReadClipboard,
            Effect::CancelSelection,
            Effect::Restore(before.clone()),
        ]
    );
}

#[test]
fn select_all_of_empty_selection_does_nothing() {
    let mut d = FakeDesktop::new(ClipboardSnapshot::Empty, "doc", "");
    let r = get_context_via_select_all(&mut d, String::new());
    assert_eq!(r, Ok(None));
    assert!(d.performed.is_empty());
}

#[test]
fn select_all_not_found_is_not_in_context() {
    let mut d = FakeDesktop::new(ClipboardSnapshot::Empty, "abcdef", "xyz");
    let r = get_context_via_select_all(&mut d, "xyz".to_string());
    assert_eq!(r, Err(GetTextError::NotInContext));
    assert_eq!(d.clipboard, ClipboardSnapshot::Empty);
}

#[test]
fn select_all_timeout_restores_and_reports() {
    let before = ClipboardSnapshot::Text("old".to_string());
    let mut d = FakeDesktop::new(before.clone(), "doc sel", "sel");
    d.step_ms = 3000;
    let r = get_context_via_select_all(&mut d, "sel".to_string());
    assert_eq!(r, Err(GetTextError::Other("Operation timed out".to_string())));
    assert_eq!(d.clipboard, before);
    assert!(!d.performed.contains(&Effect::ReadClipboard));
}

#[test]
fn with_context_not_found_keeps_selection() {
    let mut d = FakeDesktop::new(ClipboardSnapshot::Empty, "abcdef", "xyz");
    let r = get_selected_text_with_context(&mut d, false);
    assert_eq!(r, Ok(("xyz".to_string(), None)));
}

#[test]
fn with_context_end_to_end() {
    let before = ClipboardSnapshot::Text("mine".to_string());
    let mut d = FakeDesktop::new(before.clone(), "0123456789hello0123456789", "hello");
    let r = get_selected_text_with_context(&mut d, false);
    assert_eq!(r, Ok(("hello".to_string(), Some("0123456789hello0123456789".to_string()))));
    assert_eq!(d.clipboard, before);
    assert!(d.settled.contains(&100));
}

#[test]
fn with_context_prefers_direct_context() {
    let mut d = FakeDesktop::new(ClipboardSnapshot::Empty, "doc hello doc", "hello");
    d.direct = Ok(Some("a paragraph: hello".to_string()));
    let r = get_selected_text_with_context(&mut d, false);
    assert_eq!(r, Ok(("hello".to_string(), Some("a paragraph: hello".to_string()))));
    assert!(!d.performed.contains(&Effect::SelectAll));
}

#[test]
fn with_context_rejects_direct_context_without_selection() {
    let mut d = FakeDesktop::new(ClipboardSnapshot::Empty, "doc hello doc", "hello");
    d.direct = Ok(Some("unrelated".to_string()));
    let r = get_selected_text_with_context(&mut d, false);
    assert_eq!(r, Ok(("hello".to_string(), Some("doc hello doc".to_string()))));
}

#[test]
fn with_context_empty_selection_short_circuits() {
    let mut d = FakeDesktop::new(ClipboardSnapshot::Empty, "doc", "");
    let r = get_selected_text_with_context(&mut d, false);
    assert_eq!(r, Ok((String::new(), None)));
    assert!(!d.performed.contains(&Effect::SelectAll));
}

#[test]
fn with_context_selection_failure_is_fatal() {
    let mut d = FakeDesktop::new(ClipboardSnapshot::Empty, "doc", "sel");
    d.fail_at = Some(0);
    let r = get_selected_text_with_context(&mut d, false);
    assert_eq!(r, Err(GetTextError::Clipboard("busy".to_string())));
}

#[test]
fn copy_session_steps() {
    let (mut s, n) = CopySession::new(false);
    assert_eq!(n, Next::Perform(Effect::TakeSnapshot));
    assert_eq!(s.step(Event::Snapshot(ClipboardSnapshot::Empty)), Next::Perform(Effect::WriteSentinel));
    assert_eq!(s.step(Event::Done(1)), Next::Perform(Effect::Copy));
    assert_eq!(s.step(Event::Done(2)), Next::Perform(Effect::ReadClipboard));
    assert_eq!(
        s.step(Event::Read(Some("  ".to_string()))),
        Next::Perform(Effect::Restore(ClipboardSnapshot::Empty))
    );
    assert_eq!(s.step(Event::Done(3)), Next::Finish(Ok("  ".to_string())));
    assert_eq!(s.phase, CopyPhase::Finished);
}

#[test]
fn copy_session_unexpected_event_aborts_with_restore() {
    let (mut s, _) = CopySession::new(false);
    let snap = ClipboardSnapshot::Text("t".to_string());
    s.step(Event::Snapshot(snap.clone()));
    let n = s.step(Event::Read(None));
    assert_eq!(n, Next::Perform(Effect::Restore(snap)));
    assert!(matches!(s.step(Event::Done(0)), Next::Finish(Err(GetTextError::Other(_)))));
}

#[test]
fn select_all_session_empty_finishes_at_once() {
    let (s, n) = SelectAllSession::new(String::new());
    assert_eq!(n, Next::Finish(Ok(None)));
    assert_eq!(s.phase, SelectAllPhase::Finished);
}

#[test]
fn context_run_steps() {
    let (mut run, a) = ContextRun::new(true);
    assert_eq!(a, ContextAction::CaptureSelection);
    let a = run.step(ContextEvent::Selection(Ok("sel".to_string())));
    assert_eq!(a, ContextAction::DirectContext("sel".to_string()));
    let a = run.step(ContextEvent::Context(Err(GetTextError::Uia("no pattern".to_string()))));
    assert_eq!(a, ContextAction::FallbackContext("sel".to_string()));
    let a = run.step(ContextEvent::Context(Err(GetTextError::NotInContext)));
    assert_eq!(a, ContextAction::Finish(Ok(("sel".to_string(), None))));
}

#[test]
fn context_run_without_direct_goes_to_fallback() {
    let (mut run, _) = ContextRun::new(false);
    let a = run.step(ContextEvent::Selection(Ok("sel".to_string())));
    assert_eq!(a, ContextAction::FallbackContext("sel".to_string()));
}

#[test]
fn copy_keeps_whitespace_selection_verbatim() {
    let mut d = FakeDesktop::new(ClipboardSnapshot::Empty, "a  b", "  ");
    assert_eq!(get_selected_text(&mut d, false), Ok("  ".to_string()));
}

#[test]
fn copy_failed_read_is_clipboard_error_after_restore() {
    let before = ClipboardSnapshot::Text("old".to_string());
    let mut d = FakeDesktop::new(before.clone(), "doc", "sel");
    d.fail_at = Some(3);
    let r = get_selected_text(&mut d, false);
    assert!(matches!(r, Err(GetTextError::Clipboard(_))));
    assert_eq!(d.clipboard, before);
}

#[test]
fn copy_timeout_restores_and_reports() {
    let before = ClipboardSnapshot::Text("old".to_string());
    let mut d = FakeDesktop::new(before.clone(), "doc sel", "sel");
    d.step_ms = 3000;
    let r = get_selected_text(&mut d, false);
    assert_eq!(r, Err(GetTextError::Other("Operation timed out".to_string())));
    assert_eq!(d.clipboard, before);
    assert!(!d.performed.contains(&Effect::ReadClipboard));
}

#[test]
fn snapshot_prefers_text_then_image() {
    let img = ImageData { width: 2, height: 1, bytes: vec![0; 8] };
    assert_eq!(
        snapshot_of(Some("t".to_string()), Some(img.clone())),
        ClipboardSnapshot::Text("t".to_string())
    );
    assert_eq!(snapshot_of(None, Some(img.clone())), ClipboardSnapshot::Image(img));
    assert_eq!(snapshot_of(None, None), ClipboardSnapshot::Empty);
}

#[test]
fn traced_capture_ends_with_restore() {
    let before = ClipboardSnapshot::Text("old".to_string());
    let mut d = FakeDesktop::new(before.clone(), "a hello b", "hello");
    let (r, _, _) = get_selected_text_traced(&mut d, false);
    assert_eq!(r, Ok("hello".to_string()));
    assert_eq!(d.performed.last(), Some(&Effect::Restore(before)));
}

#[test]
fn traced_select_all_ends_with_restore_or_hands_nothing() {
    let before = image();
    let mut d = FakeDesktop::new(before.clone(), "x sel y", "sel");
    let (r, _, _) = get_context_via_select_all_traced(&mut d, "sel".to_string());
    assert_eq!(r, Ok(Some("x sel y".to_string())));
    assert_eq!(d.performed.last(), Some(&Effect::Restore(before)));
    let mut e = FakeDesktop::new(ClipboardSnapshot::Empty, "doc", "");
    let (r, _, _) = get_context_via_select_all_traced(&mut e, String::new());
    assert_eq!(r, Ok(None));
    assert!(e.performed.is_empty());
}

#[test]
fn traced_with_context_restores_after_each_strategy() {
    let before = ClipboardSnapshot::Text("mine".to_string());
    let mut d = FakeDesktop::new(before.clone(), "0123456789hello0123456789", "hello");
    let (r, _, _) = get_selected_text_with_context_traced(&mut d, false);
    assert_eq!(r, Ok(("hello".to_string(), Some("0123456789hello0123456789".to_string()))));
    let restores = d.performed.iter().filter(|e| **e == Effect::Restore(before.clone())).count();
    assert_eq!(restores, 2);
    assert_eq!(d.performed.last(), Some(&Effect::Restore(before)));
}
