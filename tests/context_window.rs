use get_selected_text::context::{context_window, CONTEXT_CHARS_AFTER, CONTEXT_CHARS_BEFORE};
use get_selected_text::orchestrator::{accept_context, contains_text};
use get_selected_text::select_all::context_from_capture;
use get_selected_text::GetTextError;

#[test]
fn window_with_small_budget_cuts_exact_offsets() {
    let r = context_window("0123456789hello0123456789", "hello", 5, 5);
    assert_eq!(r, Some("56789hello01234".to_string()));
}

#[test]
fn window_start_clamps_at_zero() {
    let r = context_window("hello world", "hello", 150, 3);
    assert_eq!(r, Some("hello wo".to_string()));
}

#[test]
fn window_end_clamps_at_length() {
    let r = context_window("say hello", "hello", 2, 150);
    assert_eq!(r, Some("y hello".to_string()));
}

#[test]
fn window_shrinks_inward_to_char_boundaries() {
    // Each 'é' takes two bytes; the raw window edges fall inside one.
    let r = context_window("ééééhelloéééé", "hello", 3, 3);
    assert_eq!(r, Some("éhelloé".to_string()));
}

#[test]
fn window_uses_first_occurrence() {
    let r = context_window("ab-x-cd-x-ef", "x", 1, 1);
    assert_eq!(r, Some("-x-".to_string()));
}

#[test]
fn window_absent_selection_gives_none() {
    assert_eq!(context_window("abcdef", "xyz", 5, 5), None);
}

#[test]
fn window_with_default_budget_keeps_whole_short_document() {
    let doc = "The quick brown fox jumps over the lazy dog.";
    let r = context_window(doc, "fox", CONTEXT_CHARS_BEFORE, CONTEXT_CHARS_AFTER);
    assert_eq!(r, Some(doc.to_string()));
}

#[test]
fn window_with_default_budget_trims_long_document() {
    let before = "a".repeat(200);
    let after = "b".repeat(200);
    let doc = format!("{}SEL{}", before, after);
    let r = context_window(&doc, "SEL", CONTEXT_CHARS_BEFORE, CONTEXT_CHARS_AFTER).unwrap();
    assert_eq!(r, format!("{}SEL{}", "a".repeat(150), "b".repeat(150)));
}

#[test]
fn window_empty_window_falls_back_to_whole_document() {
    let r = context_window("abc", "", 0, 0);
    assert_eq!(r, Some("abc".to_string()));
}

#[test]
fn every_window_holds_the_selection() {
    let docs = [
        ("0123456789hello0123456789", "hello"),
        ("ééééhelloéééé", "hello"),
        ("日本語のテキストです", "テキスト"),
        ("x", "x"),
        ("aaaa", "aa"),
    ];
    for (doc, sel) in docs.iter() {
        for before in 0..6usize {
            for after in 0..6usize {
                let c = context_window(doc, sel, before, after).unwrap();
                assert!(c.contains(sel), "{:?} in {:?}", sel, c);
                assert!(doc.contains(&c));
            }
        }
    }
}

#[test]
fn capture_not_found_is_not_in_context() {
    let r = context_from_capture("xyz", Some("abcdef".to_string()));
    assert_eq!(r, Err(GetTextError::NotInContext));
}

#[test]
fn capture_read_failure_is_other() {
    let r = context_from_capture("xyz", None);
    assert!(matches!(r, Err(GetTextError::Other(_))));
}

#[test]
fn capture_found_gives_window() {
    let r = context_from_capture("hello", Some("say hello there".to_string()));
    assert_eq!(r, Ok(Some("say hello there".to_string())));
}

#[test]
fn contains_text_is_exact() {
    assert!(contains_text("abcdef", "cde"));
    assert!(contains_text("abc", ""));
    assert!(!contains_text("abcdef", "CDE"));
    assert!(!contains_text("ab", "abc"));
}

#[test]
fn accept_context_drops_context_without_selection() {
    assert_eq!(accept_context("b", Ok(Some("abc".to_string()))), Some("abc".to_string()));
    assert_eq!(accept_context("z", Ok(Some("abc".to_string()))), None);
    assert_eq!(accept_context("z", Ok(None)), None);
    assert_eq!(accept_context("z", Err(GetTextError::NotInContext)), None);
}
