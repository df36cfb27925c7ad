//! Sentence-aware truncation on code-point boundaries.
use vstd::prelude::*;
use crate::text::{
    chars_of, is_white, lemma_last_at_or_before_some, rfind, rfind_exec, slice_chars, string_of,
    trim, trim_end, trim_start, trimmed, trimmed_end,
};

verus! {

/// The sentence endings, in the order in which they are tried.
pub open spec fn sentence_markers() -> Seq<Seq<char>> {
    seq![". "@, ".\n"@, "다."@, "다!\n"@, "다?\n"@, "요."@, "음."@, "임."@]
}

/// Where to cut `window`: just past the rightmost occurrence of the first
/// marker, from the `k`-th on, that occurs in it at all.
pub open spec fn marker_cut(window: Seq<char>, k: nat) -> Option<int>
    decreases sentence_markers().len() - k,
{
    if k >= sentence_markers().len() {
        None
    } else {
        match rfind(window, sentence_markers()[k as int]) {
            Some(i) => Some(i + sentence_markers()[k as int].len()),
            None => marker_cut(window, k + 1),
        }
    }
}

/// Text of at most `max` code points: unchanged when it already fits, else
/// cut after a sentence ending found between code points `min` and `max`,
/// or at `max` when there is none.
pub open spec fn truncate_spec(t: Seq<char>, min: nat, max: nat) -> Seq<char> {
    if t.len() <= max {
        t
    } else {
        match marker_cut(t.subrange(min as int, max as int), 0) {
            Some(c) => trim_end(t.subrange(0, min + c)),
            None => trim(t.subrange(0, max as int)),
        }
    }
}

proof fn lemma_marker_cut_bound(window: Seq<char>, k: nat)
    requires
        marker_cut(window, k) is Some,
    ensures
        0 <= marker_cut(window, k)->0 <= window.len(),
    decreases sentence_markers().len() - k,
{
    if k < sentence_markers().len() {
        let m = sentence_markers()[k as int];
        if rfind(window, m) is Some {
            lemma_last_at_or_before_some(window, m, window.len() - m.len());
        } else {
            lemma_marker_cut_bound(window, k + 1);
        }
    }
}

/// Trimming the end leaves a prefix.
pub proof fn lemma_trim_end_prefix(s: Seq<char>)
    ensures
        exists|j: int| 0 <= j <= s.len() && trim_end(s) == #[trigger] s.subrange(0, j),
    decreases s.len(),
{
    if s.len() > 0 && is_white(s.last()) {
        lemma_trim_end_prefix(s.drop_last());
        let j = choose|j: int|
            0 <= j <= s.drop_last().len() && trim_end(s.drop_last())
                == #[trigger] s.drop_last().subrange(0, j);
        assert(s.drop_last().subrange(0, j) =~= s.subrange(0, j));
    } else {
        assert(s.subrange(0, s.len() as int) =~= s);
    }
}

/// Trimming the start leaves a suffix.
pub proof fn lemma_trim_start_suffix(s: Seq<char>)
    ensures
        exists|i: int| 0 <= i <= s.len() && trim_start(s) == #[trigger] s.subrange(i, s.len() as int),
    decreases s.len(),
{
    if s.len() > 0 && is_white(s[0]) {
        lemma_trim_start_suffix(s.drop_first());
        let i = choose|i: int|
            0 <= i <= s.drop_first().len() && trim_start(s.drop_first())
                == #[trigger] s.drop_first().subrange(i, s.drop_first().len() as int);
        assert(s.drop_first().subrange(i, s.drop_first().len() as int) =~= s.subrange(
            i + 1,
            s.len() as int,
        ));
    } else {
        assert(s.subrange(0, s.len() as int) =~= s);
    }
}

/// Trimming both ends leaves a contiguous run of the input's code points.
pub proof fn lemma_trim_run(s: Seq<char>)
    ensures
        exists|i: int, j: int| 0 <= i <= j <= s.len() && trim(s) == #[trigger] s.subrange(i, j),
{
    lemma_trim_start_suffix(s);
    let i = choose|i: int|
        0 <= i <= s.len() && trim_start(s) == #[trigger] s.subrange(i, s.len() as int);
    let t = s.subrange(i, s.len() as int);
    lemma_trim_end_prefix(t);
    let j = choose|j: int| 0 <= j <= t.len() && trim_end(t) == #[trigger] t.subrange(0, j);
    assert(t.subrange(0, j) =~= s.subrange(i, i + j));
}

/// A truncated text is a run of whole code points of the input, taken from
/// its start up to at most `max` code points, so a cut never falls inside a
/// multi-byte character; text that already fits comes back unchanged.
pub proof fn lemma_truncate_keeps_whole_code_points(t: Seq<char>, min: nat, max: nat)
    requires
        min <= max,
    ensures
        t.len() <= max ==> truncate_spec(t, min, max) == t,
        exists|i: int, j: int|
            0 <= i <= j <= t.len() && j <= max
                && truncate_spec(t, min, max) == #[trigger] t.subrange(i, j),
        truncate_spec(t, min, max).len() <= max,
{
    if t.len() <= max {
        assert(t.subrange(0, t.len() as int) =~= t);
    } else {
        let w = t.subrange(min as int, max as int);
        match marker_cut(w, 0) {
            Some(c) => {
                lemma_marker_cut_bound(w, 0);
                let p = t.subrange(0, min + c);
                lemma_trim_end_prefix(p);
                let j = choose|j: int| 0 <= j <= p.len() && trim_end(p) == #[trigger] p.subrange(0, j);
                assert(p.subrange(0, j) =~= t.subrange(0, j));
            },
            None => {
                let p = t.subrange(0, max as int);
                lemma_trim_run(p);
                let (i, j) = choose|i: int, j: int|
                    0 <= i <= j <= p.len() && trim(p) == #[trigger] p.subrange(i, j);
                assert(p.subrange(i, j) =~= t.subrange(i, j));
            },
        }
    }
}

fn sentence_markers_exec() -> (r: Vec<Vec<char>>)
    ensures
        r.len() == sentence_markers().len(),
        forall|i: int| 0 <= i < r.len() ==> (#[trigger] r[i])@ == sentence_markers()[i],
{
    let mut r: Vec<Vec<char>> = Vec::new();
    r.push(chars_of(". "));
    r.push(chars_of(".\n"));
    r.push(chars_of("다."));
    r.push(chars_of("다!\n"));
    r.push(chars_of("다?\n"));
    r.push(chars_of("요."));
    r.push(chars_of("음."));
    r.push(chars_of("임."));
    r
}

/// Shortens `text` to at most `max_chars` code points, preferring to end
/// just after a sentence ending between code points `min_chars` and
/// `max_chars`.
pub fn smart_truncate(text: &str, min_chars: usize, max_chars: usize) -> (r: String)
    requires
        min_chars <= max_chars,
    ensures
        r@ == truncate_spec(text@, min_chars as nat, max_chars as nat),
        text@.len() <= max_chars ==> r@ == text@,
        r@.len() <= max_chars,
{
    proof {
        lemma_truncate_keeps_whole_code_points(text@, min_chars as nat, max_chars as nat);
    }
    let v = chars_of(text);
    if v.len() <= max_chars {
        return string_of(v.as_slice());
    }
    let window = slice_chars(&v, min_chars, max_chars);
    let markers = sentence_markers_exec();
    let mut k: usize = 0;
    while k < markers.len()
        invariant
            markers.len() == sentence_markers().len(),
            forall|i: int| 0 <= i < markers.len() ==> (#[trigger] markers[i])@ == sentence_markers()[i],
            k <= markers.len(),
            min_chars <= max_chars < v.len(),
            v@ == text@,
            window@ == text@.subrange(min_chars as int, max_chars as int),
            marker_cut(window@, 0) == marker_cut(window@, k as nat),
            truncate_spec(text@, min_chars as nat, max_chars as nat).len() <= max_chars,
        decreases markers.len() - k,
    {
        let m = &markers[k];
        match rfind_exec(&window, m) {
            Some(i) => {
                proof {
                    lemma_last_at_or_before_some(window@, m@, window@.len() - m@.len());
                }
                let cut = min_chars + i + m.len();
                let prefix = slice_chars(&v, 0, cut);
                return string_of(trimmed_end(&prefix).as_slice());
            },
            None => {
                k = k + 1;
            },
        }
    }
    let prefix = slice_chars(&v, 0, max_chars);
    string_of(trimmed(&prefix).as_slice())
}

} // verus!
