//! Profile markers, `{{profile.<field>}}`, which the host replaces by what the
//! calling user's profile holds.
use vstd::prelude::*;

use crate::text;
use crate::text::{chars_of, is_white_space};

verus! {

/// What every profile marker begins with.
pub const MARKER: &'static str = "{{profile.";

/// Whether `c` may stand in the field that a marker names.
pub open spec fn field_char(c: char) -> bool {
    c != '{' && c != '}' && !text::white_space(c)
}

/// Whether a marker stands in `s`, from `start` to before `end`.
pub open spec fn marker_at(s: Seq<char>, start: int, end: int) -> bool {
    &&& start + MARKER@.len() < end - 2
    &&& text::occurs_at(s, MARKER@, start)
    &&& text::occurs_at(s, "}}"@, end - 2)
    &&& forall|k: int| start + MARKER@.len() <= k < end - 2 ==> field_char(#[trigger] s[k])
}

/// Whether the character at `i` is part of a marker.
pub open spec fn in_marker(s: Seq<char>, i: int) -> bool {
    exists|start: int, end: int| start <= i < end && #[trigger] marker_at(s, start, end)
}

/// Whether `s` holds nothing but markers and white space.
pub open spec fn markers_only(s: Seq<char>) -> bool {
    forall|i: int| 0 <= i < s.len() ==> text::white_space(s[i]) || #[trigger] in_marker(s, i)
}

/// Whether `s` holds a marker's beginning, and nothing but markers and white
/// space.
pub open spec fn template(s: Seq<char>) -> bool {
    text::has_text(s, MARKER@) && markers_only(s)
}

/// The characters at both ends of a marker.
proof fn lemma_marker_ends(s: Seq<char>, start: int, end: int)
    requires
        marker_at(s, start, end),
    ensures
        MARKER@.len() == 10,
        0 <= start,
        start + 12 < end <= s.len(),
        s[start] == '{',
        s[start + 1] == '{',
        forall|k: int| start + 2 <= k < start + 10 ==> #[trigger] s[k] != '{',
        s[end - 2] == '}',
        s[end - 1] == '}',
{
    reveal_strlit("{{profile.");
    reveal_strlit("}}");
    let head = s.subrange(start, start + MARKER@.len());
    assert(head[0] == s[start] && head[1] == s[start + 1]);
    assert forall|k: int| start + 2 <= k < start + 10 implies #[trigger] s[k] != '{' by {
        assert(s[k] == head[k - start]);
    }
    let tail = s.subrange(end - 2, end - 2 + "}}"@.len());
    assert(tail[0] == s[end - 2] && tail[1] == s[end - 1]);
}

/// A marker has one end.
proof fn lemma_one_end(s: Seq<char>, start: int, a: int, b: int)
    requires
        marker_at(s, start, a),
        marker_at(s, start, b),
    ensures
        a == b,
{
    lemma_marker_ends(s, start, a);
    lemma_marker_ends(s, start, b);
    if a < b {
        assert(field_char(s[a - 2]));
    } else if b < a {
        assert(field_char(s[b - 2]));
    }
}

/// Markers do not overlap.
proof fn lemma_apart(s: Seq<char>, start: int, end: int, next: int, next_end: int)
    requires
        marker_at(s, start, end),
        marker_at(s, next, next_end),
        start < next,
    ensures
        end <= next,
{
    lemma_marker_ends(s, start, end);
    lemma_marker_ends(s, next, next_end);
    if next < end {
        if start + 10 <= next < end - 2 {
            assert(field_char(s[next]));
        }
    }
}

/// Where the marker that begins at `start` ends, if one begins there.
fn marker_end(chars: &Vec<char>, start: usize) -> (r: Option<usize>)
    requires
        start < chars@.len(),
    ensures
        match r {
            Some(end) => marker_at(chars@, start as int, end as int),
            None => forall|end: int| !marker_at(chars@, start as int, end),
        },
{
    let head = chars_of(MARKER);
    proof {
        reveal_strlit("{{profile.");
        reveal_strlit("}}");
    }
    let ghost s = chars@;
    if chars.len() - start < head.len() {
        return None;
    }
    let mut i: usize = 0;
    while i < head.len()
        invariant
            s == chars@,
            head@ == MARKER@,
            start + head.len() <= chars.len(),
            i <= head.len(),
            forall|k: int| 0 <= k < i ==> s[start + k] == #[trigger] head@[k],
        decreases head.len() - i,
    {
        if chars[start + i] != head[i] {
            assert forall|end: int| !marker_at(s, start as int, end) by {
                if marker_at(s, start as int, end) {
                    assert(s.subrange(start as int, start + MARKER@.len())[i as int] == s[start
                        + i]);
                }
            }
            return None;
        }
        i += 1;
    }
    assert(s.subrange(start as int, start + MARKER@.len()) =~= MARKER@);
    let first: usize = start + head.len();
    let mut at: usize = first;
    while at < chars.len() && chars[at] != '{' && chars[at] != '}' && !is_white_space(chars[at])
        invariant
            s == chars@,
            first <= at <= chars.len(),
            forall|k: int| first <= k < at ==> field_char(#[trigger] s[k]),
        ensures
            first <= at <= chars.len(),
            forall|k: int| first <= k < at ==> field_char(#[trigger] s[k]),
            at < chars.len() ==> !field_char(s[at as int]),
        decreases chars.len() - at,
    {
        at += 1;
    }
    if at > first && at < chars.len() && chars.len() - at >= 2 && chars[at] == '}' && chars[at + 1]
        == '}' {
        assert(s.subrange(at as int, at + 2) =~= "}}"@);
        return Some(at + 2);
    }
    assert forall|end: int| !marker_at(s, start as int, end) by {
        if marker_at(s, start as int, end) {
            lemma_marker_ends(s, start as int, end);
            if end - 2 < at {
                assert(field_char(s[end - 2]));
            } else if at < end - 2 {
                assert(field_char(s[at as int]));
            }
        }
    }
    None
}

/// Whether `s` holds nothing but markers and white space.
pub fn holds_markers_only(s: &str) -> (r: bool)
    ensures
        r == markers_only(s@),
{
    let chars = chars_of(s);
    let mut i: usize = 0;
    while i < chars.len()
        invariant
            chars@ == s@,
            i <= chars.len(),
            forall|k: int| 0 <= k < i ==> text::white_space(s@[k]) || #[trigger] in_marker(s@, k),
            forall|start: int, end: int|
                start < i && #[trigger] marker_at(s@, start, end) ==> end <= i,
        decreases chars.len() - i,
    {
        if is_white_space(chars[i]) {
            assert forall|start: int, end: int|
                start < i + 1 && #[trigger] marker_at(s@, start, end) implies end <= i + 1 by {
                lemma_marker_ends(s@, start, end);
            }
            i += 1;
        } else {
            match marker_end(&chars, i) {
                Some(e) => {
                    proof {
                        lemma_marker_ends(s@, i as int, e as int);
                    }
                    assert forall|start: int, end: int|
                        start < e && #[trigger] marker_at(s@, start, end) implies end <= e by {
                        if start == i {
                            lemma_one_end(s@, start, end, e as int);
                        } else if i < start {
                            lemma_apart(s@, i as int, e as int, start, end);
                        }
                    }
                    assert forall|k: int| 0 <= k < e implies text::white_space(s@[k])
                        || #[trigger] in_marker(s@, k) by {
                        if i <= k {
                            assert(marker_at(s@, i as int, e as int));
                        }
                    }
                    i = e;
                },
                None => {
                    assert(!in_marker(s@, i as int));
                    return false;
                },
            }
        }
    }
    true
}

} // verus!
