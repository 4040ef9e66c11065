//! The context window: locating a captured selection inside a captured
//! document and cutting a bounded slice of bytes around it, with both ends
//! moved inward onto UTF-8 character boundaries.
use vstd::prelude::*;
use vstd::utf8::*;
use vstd::string::StringSliceAdditionalSpecFns;

verus! {

broadcast use vstd::utf8::group_utf8_lib;

/// Bytes of document kept before the located selection.
pub const CONTEXT_CHARS_BEFORE: usize = 150;

/// Bytes of document kept after the located selection.
pub const CONTEXT_CHARS_AFTER: usize = 150;

/// The UTF-8 encoding of a string's characters.
pub open spec fn utf8_of(s: Seq<char>) -> Seq<u8> {
    encode_utf8(s)
}

/// `needle` occurs in `hay` starting at byte `i`.
pub open spec fn occurs_at(hay: Seq<u8>, needle: Seq<u8>, i: int) -> bool {
    &&& 0 <= i
    &&& i + needle.len() <= hay.len()
    &&& hay.subrange(i, i + needle.len()) == needle
}

/// `needle` occurs in `hay` at some byte offset.
pub open spec fn contains_bytes(hay: Seq<u8>, needle: Seq<u8>) -> bool {
    exists|i: int| occurs_at(hay, needle, i)
}

/// `i` is the first byte offset at which `needle` occurs in `hay`.
pub open spec fn is_first_occurrence(hay: Seq<u8>, needle: Seq<u8>, i: int) -> bool {
    &&& occurs_at(hay, needle, i)
    &&& forall|j: int| 0 <= j < i ==> !occurs_at(hay, needle, j)
}

/// The start of the raw window: `before` bytes ahead of the match, or 0.
pub open spec fn window_start(match_start: int, before: int) -> int {
    if match_start >= before {
        match_start - before
    } else {
        0
    }
}

/// The end of the raw window: `after` bytes past the match, or the length.
pub open spec fn window_end(match_end: int, after: int, len: int) -> int {
    if match_end + after <= len {
        match_end + after
    } else {
        len
    }
}

/// The first index from `i` upward that is a character boundary of `b`, or
/// the first index that reaches its length.
pub open spec fn snap_forward(b: Seq<u8>, i: int) -> int
    decreases b.len() - i,
{
    if i >= b.len() || is_char_boundary(b, i) {
        i
    } else {
        snap_forward(b, i + 1)
    }
}

/// The first index from `i` downward that is a character boundary of `b`,
/// never going below `lo`.
pub open spec fn snap_backward(b: Seq<u8>, i: int, lo: int) -> int
    decreases i - lo,
{
    if i <= lo || is_char_boundary(b, i) {
        i
    } else {
        snap_backward(b, i - 1, lo)
    }
}

/// Start of the context slice for a match at `match_start`.
pub open spec fn context_start(full: Seq<u8>, match_start: int, before: int) -> int {
    snap_forward(full, window_start(match_start, before))
}

/// End of the context slice for a match of `sel_len` bytes at `match_start`.
pub open spec fn context_end(
    full: Seq<u8>,
    match_start: int,
    sel_len: int,
    before: int,
    after: int,
) -> int {
    snap_backward(
        full,
        window_end(match_start + sel_len, after, full.len() as int),
        context_start(full, match_start, before),
    )
}

/// The bytes of the context for a match of `sel_len` bytes at `match_start`:
/// the snapped window, or the whole document where the window is empty.
pub open spec fn context_bytes(
    full: Seq<u8>,
    match_start: int,
    sel_len: int,
    before: int,
    after: int,
) -> Seq<u8> {
    let s = context_start(full, match_start, before);
    let e = context_end(full, match_start, sel_len, before, after);
    if s < e {
        full.subrange(s, e)
    } else {
        full
    }
}

/// The context that the window rule gives for `sel` inside `full`, with
/// `before` and `after` bytes of budget: `None` where `sel` does not occur,
/// else the window around its first occurrence.
pub open spec fn window_around_with(
    full: Seq<char>,
    sel: Seq<char>,
    before: int,
    after: int,
    r: Option<Seq<char>>,
) -> bool {
    let f = utf8_of(full);
    let s = utf8_of(sel);
    match r {
        None => !contains_bytes(f, s),
        Some(c) => exists|i: int|
            is_first_occurrence(f, s, i) && utf8_of(c) == context_bytes(
                f,
                i,
                s.len() as int,
                before,
                after,
            ),
    }
}

/// The characters of an optional string.
pub open spec fn opt_view(r: Option<String>) -> Option<Seq<char>> {
    match r {
        Some(c) => Some(c@),
        None => None,
    }
}

/// The window rule with the default budgets.
pub open spec fn window_around(full: Seq<char>, sel: Seq<char>, r: Option<Seq<char>>) -> bool {
    window_around_with(full, sel, before_budget(), after_budget(), r)
}

pub open spec fn before_budget() -> int {
    CONTEXT_CHARS_BEFORE as int
}

pub open spec fn after_budget() -> int {
    CONTEXT_CHARS_AFTER as int
}

/// A prefix of a valid UTF-8 sequence that is itself valid UTF-8 ends on a
/// character boundary.
proof fn lemma_valid_prefix_ends_on_boundary(t: Seq<u8>, k: int)
    requires
        valid_utf8(t),
        0 <= k <= t.len(),
        valid_utf8(t.subrange(0, k)),
    ensures
        is_char_boundary(t, k),
    decreases k,
{
    if k > 0 {
        let p = t.subrange(0, k);
        let l = length_of_first_scalar(t);
        assert(p[0] == t[0]);
        assert(length_of_first_scalar(p) == l);
        let rest = pop_first_scalar(t);
        assert(pop_first_scalar(p) =~= rest.subrange(0, k - l));
        lemma_valid_prefix_ends_on_boundary(rest, k - l);
    }
}

/// A nonempty encoded selection found in an encoded document starts and
/// ends on character boundaries of the document.
proof fn lemma_match_on_boundaries(full: Seq<char>, sel: Seq<char>, i: int)
    requires
        occurs_at(utf8_of(full), utf8_of(sel), i),
        sel.len() > 0,
    ensures
        is_char_boundary(utf8_of(full), i),
        is_char_boundary(utf8_of(full), i + utf8_of(sel).len()),
{
    let f = utf8_of(full);
    let s = utf8_of(sel);
    let e = i + s.len();
    encode_utf8_valid_utf8(full);
    encode_utf8_valid_utf8(sel);
    encode_utf8_first_scalar(sel);
    is_char_boundary_start_end_of_seq(f);
    is_char_boundary_start_end_of_seq(s);
    if s.len() > 0 {
        assert(f[i] == s[0]);
        is_char_boundary_iff_not_is_continuation_byte(s, 0);
        is_char_boundary_iff_not_is_continuation_byte(f, i);
        assert(is_char_boundary(f, i));
        if e < f.len() {
            let t = f.subrange(i, f.len() as int);
            valid_utf8_split(f, i);
            assert(t.subrange(0, s.len() as int) =~= s);
            lemma_valid_prefix_ends_on_boundary(t, s.len() as int);
            assert(t[s.len() as int] == f[e]);
            is_char_boundary_iff_not_is_continuation_byte(t, s.len() as int);
            is_char_boundary_iff_not_is_continuation_byte(f, e);
        }
    }
}

proof fn lemma_snap_forward(b: Seq<u8>, i: int, m: int)
    requires
        0 <= i <= m <= b.len(),
        is_char_boundary(b, m),
    ensures
        i <= snap_forward(b, i) <= m,
        is_char_boundary(b, snap_forward(b, i)),
        forall|k: int| i <= k < snap_forward(b, i) ==> !is_char_boundary(b, k),
    decreases m - i,
{
    if i < m && !is_char_boundary(b, i) {
        lemma_snap_forward(b, i + 1, m);
    }
}

proof fn lemma_snap_backward(b: Seq<u8>, i: int, lo: int, m: int)
    requires
        lo < m <= i,
        is_char_boundary(b, m),
    ensures
        m <= snap_backward(b, i, lo) <= i,
        is_char_boundary(b, snap_backward(b, i, lo)),
        forall|k: int| snap_backward(b, i, lo) < k <= i ==> !is_char_boundary(b, k),
    decreases i - m,
{
    if i > m && !is_char_boundary(b, i) {
        lemma_snap_backward(b, i - 1, lo, m);
    }
}

/// Where a nonempty selection occurs at `i`, the context slice starts on a
/// character boundary no later than the match and no earlier than `before`
/// bytes ahead of it (clamped at 0), ends on a character boundary no earlier
/// than the match's end and no later than `after` bytes past it (clamped at
/// the document's length), is never empty, and so holds the selection.
pub proof fn lemma_window_bounds(full: Seq<char>, sel: Seq<char>, i: int, before: int, after: int)
    requires
        occurs_at(utf8_of(full), utf8_of(sel), i),
        sel.len() > 0,
        before >= 0,
        after >= 0,
    ensures
        ({
            let f = utf8_of(full);
            let n = utf8_of(sel).len() as int;
            let s = context_start(f, i, before);
            let e = context_end(f, i, n, before, after);
            &&& window_start(i, before) <= s <= i
            &&& i + n <= e <= window_end(i + n, after, f.len() as int)
            &&& 0 <= s < e <= f.len()
            &&& is_char_boundary(f, s)
            &&& is_char_boundary(f, e)
            &&& context_bytes(f, i, n, before, after) == f.subrange(s, e)
            &&& occurs_at(context_bytes(f, i, n, before, after), utf8_of(sel), i - s)
        }),
{
    let f = utf8_of(full);
    let sb = utf8_of(sel);
    let n = sb.len() as int;
    lemma_match_on_boundaries(full, sel, i);
    encode_utf8_first_scalar(sel);
    assert(n > 0);
    let ws = window_start(i, before);
    lemma_snap_forward(f, ws, i);
    let s = context_start(f, i, before);
    let we = window_end(i + n, after, f.len() as int);
    lemma_snap_backward(f, we, s, i + n);
    let c = f.subrange(s, context_end(f, i, n, before, after));
    assert(c.subrange(i - s, i - s + n) =~= sb);
}

/// The selection is found inside every context that the window rule gives.
pub proof fn lemma_context_holds_selection(full: Seq<char>, sel: Seq<char>, before: int, after: int, c: Seq<char>)
    requires
        before >= 0,
        after >= 0,
        window_around_with(full, sel, before, after, Some(c)),
    ensures
        contains_bytes(utf8_of(c), utf8_of(sel)),
{
    let f = utf8_of(full);
    let sb = utf8_of(sel);
    let i = choose|i: int|
        is_first_occurrence(f, sb, i) && utf8_of(c) == context_bytes(
            f,
            i,
            sb.len() as int,
            before,
            after,
        );
    if sel.len() > 0 {
        lemma_window_bounds(full, sel, i, before, after);
        let s = context_start(f, i, before);
        assert(occurs_at(utf8_of(c), sb, i - s));
    } else {
        assert(sb =~= Seq::<u8>::empty());
        assert(utf8_of(c).subrange(0, 0) =~= sb);
        assert(occurs_at(utf8_of(c), sb, 0));
    }
}

/// The first offset at which `needle` occurs in `hay`.
pub(crate) fn find_bytes(hay: &[u8], needle: &[u8]) -> (r: Option<usize>)
    ensures
        match r {
            Some(i) => is_first_occurrence(hay@, needle@, i as int),
            None => !contains_bytes(hay@, needle@),
        },
{
    let n = hay.len();
    let m = needle.len();
    if m > n {
        assert forall|i: int| !occurs_at(hay@, needle@, i) by {}
        return None;
    }
    let mut i: usize = 0;
    while i <= n - m
        invariant
            n == hay@.len(),
            m == needle@.len(),
            m <= n,
            i <= n - m + 1,
            forall|j: int| 0 <= j < i ==> !occurs_at(hay@, needle@, j),
        decreases n - m + 1 - i,
    {
        let mut k: usize = 0;
        while k < m && hay[i + k] == needle[k]
            invariant
                n == hay@.len(),
                m == needle@.len(),
                i + m <= n,
                k <= m,
                forall|x: int| 0 <= x < k ==> hay@[i + x] == needle@[x],
            decreases m - k,
        {
            k = k + 1;
        }
        if k == m {
            assert(hay@.subrange(i as int, i + m) =~= needle@);
            return Some(i);
        }
        assert(!occurs_at(hay@, needle@, i as int)) by {
            if occurs_at(hay@, needle@, i as int) {
                assert(hay@[i + k as int] == hay@.subrange(i as int, i + m)[k as int]);
            }
        }
        i = i + 1;
    }
    assert forall|j: int| !occurs_at(hay@, needle@, j) by {
        if j > n - m {
            assert(j + m > n);
        }
    }
    None
}

/// Cuts the context around the first occurrence of `selected_text` in
/// `full_text`: up to `before` bytes ahead of it and `after` bytes past it,
/// clamped to the document and moved inward to character boundaries. The
/// whole document is returned where that window comes out empty, and `None`
/// where `selected_text` does not occur.
pub fn context_window(full_text: &str, selected_text: &str, before: usize, after: usize) -> (r: Option<String>)
    ensures
        window_around_with(full_text@, selected_text@, before as int, after as int, opt_view(r)),
{
    let full = full_text.as_bytes();
    let sel = selected_text.as_bytes();
    let ghost f = full@;
    let len = full.len();
    proof {
        encode_utf8_valid_utf8(full_text@);
        is_char_boundary_start_end_of_seq(f);
    }
    assert(sel@ == utf8_of(selected_text@));
    assert(f == utf8_of(full_text@));
    match find_bytes(full, sel) {
        None => None,
        Some(start_pos) => {
            let end_pos = start_pos + sel.len();
            let raw_start = if start_pos >= before { start_pos - before } else { 0 };
            let raw_end = if after <= len && end_pos <= len - after {
                end_pos + after
            } else {
                len
            };
            assert(raw_end == window_end(end_pos as int, after as int, len as int));
            let mut valid_start = raw_start;
            while !full_text.is_char_boundary(valid_start) && valid_start < len
                invariant
                    f == full_text.spec_bytes(),
                    len == f.len(),
                    raw_start <= valid_start <= len,
                    snap_forward(f, valid_start as int) == snap_forward(f, raw_start as int),
                decreases len - valid_start,
            {
                valid_start = valid_start + 1;
            }
            let mut valid_end = raw_end;
            while !full_text.is_char_boundary(valid_end) && valid_end > valid_start
                invariant
                    f == full_text.spec_bytes(),
                    len == f.len(),
                    valid_start <= len,
                    raw_end <= len,
                    valid_end <= raw_end,
                    snap_backward(f, valid_end as int, valid_start as int) == snap_backward(
                        f,
                        raw_end as int,
                        valid_start as int,
                    ),
                decreases valid_end,
            {
                valid_end = valid_end - 1;
            }
            let ghost s = context_start(f, start_pos as int, before as int);
            let ghost e = context_end(f, start_pos as int, sel@.len() as int, before as int, after as int);
            assert(valid_start == s);
            assert(valid_end == e);
            if valid_start < valid_end {
                proof {
                    if valid_start > 0 {
                        valid_utf8_split(f, valid_end as int);
                        is_char_boundary_iff_not_is_continuation_byte(f, valid_start as int);
                        is_char_boundary_iff_not_is_continuation_byte(
                            f.subrange(0, valid_end as int),
                            valid_start as int,
                        );
                    }
                }
                let (head, _) = full_text.split_at(valid_end);
                let (_, mid) = head.split_at(valid_start);
                let c = mid.to_owned();
                assert(mid.spec_bytes() =~= f.subrange(valid_start as int, valid_end as int));
                assert(utf8_of(c@) == context_bytes(f, start_pos as int, sel@.len() as int, before as int, after as int));
                assert(is_first_occurrence(f, sel@, start_pos as int));
                assert(window_around_with(full_text@, selected_text@, before as int, after as int, Some(c@)));
                Some(c)
            } else {
                let c = full_text.to_owned();
                assert(is_first_occurrence(f, sel@, start_pos as int));
                assert(utf8_of(c@) == context_bytes(f, start_pos as int, sel@.len() as int, before as int, after as int));
                Some(c)
            }
        },
    }
}

} // verus!
