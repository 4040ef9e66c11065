//! The clipboard as the strategies see it: what a snapshot holds, the side
//! effects a strategy asks its driver to perform, and the outcomes that the
//! driver reports back.
use vstd::prelude::*;
use crate::error::GetTextError;

verus! {

/// Settle interval after the sentinel is written, in milliseconds.
pub const SENTINEL_SETTLE_MS: u64 = 50;

/// Settle interval after a copy shortcut, before the clipboard is read.
pub const COPY_SETTLE_MS: u64 = 250;

/// Settle interval before the select-all fallback starts.
pub const FALLBACK_SETTLE_MS: u64 = 100;

/// Ceiling on the elapsed time of a clipboard-mutating sequence.
pub const CLIPBOARD_OPERATION_TIMEOUT_MS: u64 = 5000;

/// An image held by the clipboard: its size and its RGBA bytes.
#[derive(Debug, Clone, PartialEq, Eq)]
pub struct ImageData {
    pub width: usize,
    pub height: usize,
    pub bytes: Vec<u8>,
}

/// What the clipboard held before a strategy touched it.
#[derive(Debug, Clone, PartialEq, Eq)]
pub enum ClipboardSnapshot {
    Text(String),
    Image(ImageData),
    Empty,
}

/// The snapshot to restore from what was read: the text where there was
/// text, else the image where there was one, else nothing.
pub fn snapshot_of(text: Option<String>, image: Option<ImageData>) -> (r: ClipboardSnapshot)
    ensures
        match text {
            Some(t) => r == ClipboardSnapshot::Text(t),
            None => match image {
                Some(i) => r == ClipboardSnapshot::Image(i),
                None => r == ClipboardSnapshot::Empty,
            },
        },
{
    match text {
        Some(t) => ClipboardSnapshot::Text(t),
        None => match image {
            Some(i) => ClipboardSnapshot::Image(i),
            None => ClipboardSnapshot::Empty,
        },
    }
}

/// A side effect that a strategy asks its driver to perform.
#[derive(Debug, Clone, PartialEq, Eq)]
pub enum Effect {
    /// Take the copy-paste lock and read the clipboard's text and image.
    TakeSnapshot,
    /// Write the empty sentinel to the clipboard.
    WriteSentinel,
    /// Release every modifier key.
    ReleaseModifiers,
    /// Press the select-all shortcut.
    SelectAll,
    /// Release the modifiers and press the copy shortcut.
    Copy,
    /// Press the right arrow once, collapsing the selection to its end.
    CollapseSelection,
    /// Undo the visual select-all: escape, left, right, modifier release.
    CancelSelection,
    /// Read the clipboard's text.
    ReadClipboard,
    /// Put the snapshot back on the clipboard.
    Restore(ClipboardSnapshot),
}

/// What a strategy wants next: an effect performed, or to stop with a result.
#[derive(Debug, PartialEq, Eq)]
pub enum Next<T> {
    Perform(Effect),
    Finish(Result<T, GetTextError>),
}

/// What the driver reports after performing an effect.
#[derive(Debug, Clone, PartialEq, Eq)]
pub enum Event {
    /// The snapshot that `TakeSnapshot` read.
    Snapshot(ClipboardSnapshot),
    /// The effect was performed; milliseconds elapsed since the strategy began.
    Done(u64),
    /// The clipboard text that `ReadClipboard` read, `None` where reading failed.
    Read(Option<String>),
    /// The effect failed.
    Failed(GetTextError),
}

/// `err` is the failure that event `e` stands for: the reported error, or
/// `Other` for an event that the current phase does not expect.
pub open spec fn failure_for(e: Event, err: GetTextError) -> bool {
    match e {
        Event::Failed(x) => err == x,
        _ => err is Other,
    }
}

/// The failure that an event stands for.
pub fn failure(e: Event) -> (r: GetTextError)
    ensures
        failure_for(e, r),
{
    match e {
        Event::Failed(x) => x,
        _ => GetTextError::Other("unexpected event".to_owned()),
    }
}

/// The characters with the Unicode White_Space property, which is what
/// `char::is_whitespace` tests.
pub open spec fn is_white(c: char) -> bool {
    ||| '\u{9}' <= c <= '\u{d}'
    ||| c == ' '
    ||| c == '\u{85}'
    ||| c == '\u{a0}'
    ||| c == '\u{1680}'
    ||| '\u{2000}' <= c <= '\u{200a}'
    ||| c == '\u{2028}'
    ||| c == '\u{2029}'
    ||| c == '\u{202f}'
    ||| c == '\u{205f}'
    ||| c == '\u{3000}'
}

/// The text without its leading whitespace.
pub open spec fn trim_start_of(s: Seq<char>) -> Seq<char>
    decreases s.len(),
{
    if s.len() > 0 && is_white(s[0]) {
        trim_start_of(s.drop_first())
    } else {
        s
    }
}

/// The text without its trailing whitespace.
pub open spec fn trim_end_of(s: Seq<char>) -> Seq<char>
    decreases s.len(),
{
    if s.len() > 0 && is_white(s.last()) {
        trim_end_of(s.drop_last())
    } else {
        s
    }
}

/// The text without leading and trailing whitespace.
pub open spec fn trimmed(s: Seq<char>) -> Seq<char> {
    trim_end_of(trim_start_of(s))
}

/// Relies on `str::trim`, which strips leading and trailing whitespace as
/// `char::is_whitespace` (Unicode White_Space) defines it.
#[verifier::external_body]
pub(crate) fn trim_str(s: &str) -> (r: &str)
    ensures
        r@ == trimmed(s@),
{
    s.trim()
}

/// The error reported when the timeout budget ran out.
pub open spec fn is_timeout(err: GetTextError) -> bool {
    match err {
        GetTextError::Other(m) => m@ == "Operation timed out"@,
        _ => false,
    }
}

/// The error for a run that ran out of its timeout budget.
pub fn timeout_error() -> (r: GetTextError)
    ensures
        is_timeout(r),
{
    GetTextError::Other("Operation timed out".to_owned())
}

} // verus!
