//! Text splitting for chunked speech synthesis.

use vstd::prelude::*;
use crate::utils::chars::{chars_of, str_eq, string_from_chars, string_from_range};
use crate::utils::text::{trim, trim_chars, is_white_space, lemma_trim_keeps_last, lemma_trim_idempotent, visible, lemma_visible_add, lemma_visible_trim};

verus! {

/// Sentence-ending punctuation.
pub open spec fn is_terminal(c: char) -> bool {
    c == '.' || c == '!' || c == '?'
}

/// The separators skipped after a sentence end.
pub open spec fn is_separator(c: char) -> bool {
    c == ' ' || c == '\n' || c == '\t'
}

/// An ASCII capital letter.
pub open spec fn is_ascii_upper(c: char) -> bool {
    'A' <= c <= 'Z'
}

/// Common abbreviations whose period does not end a sentence.
pub open spec fn is_abbreviation(w: Seq<char>) -> bool {
    ||| w == "Mr"@
    ||| w == "Mrs"@
    ||| w == "Ms"@
    ||| w == "Dr"@
    ||| w == "Prof"@
    ||| w == "Sr"@
    ||| w == "Jr"@
    ||| w == "St"@
    ||| w == "vs"@
    ||| w == "e.g"@
    ||| w == "i.e"@
}

/// Where the word that ends before position `k` starts: just after the last
/// separator before `k`, or at 0.
pub open spec fn word_start(s: Seq<char>, k: int) -> int
    decreases k,
{
    if k <= 0 || k > s.len() {
        0
    } else if is_separator(s[k - 1]) {
        k
    } else {
        word_start(s, k - 1)
    }
}

/// Position `i` holds the period of a common abbreviation ("Mr.", "e.g.").
pub open spec fn abbreviation_period(s: Seq<char>, i: int) -> bool {
    s[i] == '.' && is_abbreviation(s.subrange(word_start(s, i), i))
}

/// Position `i` of `s` ends a sentence: it holds `.`, `!` or `?` that is not
/// the period of a common abbreviation, and it is the last character, or it
/// is followed by a separator, or the character two places after it is a
/// capital letter.
pub open spec fn ends_sentence(s: Seq<char>, i: int) -> bool {
    &&& 0 <= i < s.len()
    &&& is_terminal(s[i])
    &&& !abbreviation_period(s, i)
    &&& (i + 1 == s.len() || is_separator(s[i + 1]) || (i + 2 < s.len() && is_ascii_upper(s[i + 2])))
}

fn is_abbreviation_exec(w: &str) -> (r: bool)
    ensures
        r == is_abbreviation(w@),
{
    str_eq(w, "Mr") || str_eq(w, "Mrs") || str_eq(w, "Ms") || str_eq(w, "Dr") || str_eq(w, "Prof")
        || str_eq(w, "Sr") || str_eq(w, "Jr") || str_eq(w, "St") || str_eq(w, "vs") || str_eq(w, "e.g")
        || str_eq(w, "i.e")
}

/// Whether the period at `i` belongs to a common abbreviation.
fn abbreviation_period_exec(chars: &Vec<char>, i: usize) -> (r: bool)
    requires
        i < chars@.len(),
    ensures
        r == abbreviation_period(chars@, i as int),
{
    if chars[i] != '.' {
        return false;
    }
    let mut k: usize = i;
    while k > 0 && !(chars[k - 1] == ' ' || chars[k - 1] == '\n' || chars[k - 1] == '\t')
        invariant
            k <= i < chars@.len(),
            word_start(chars@, i as int) == word_start(chars@, k as int),
        decreases k,
    {
        k -= 1;
    }
    let w = string_from_range(chars.as_slice(), k, i);
    is_abbreviation_exec(w.as_str())
}

/// The first sentence end at or after `k` (or `s.len()` if there is none).
pub open spec fn first_end_from(s: Seq<char>, k: int) -> int
    decreases s.len() - k,
{
    if k < 0 || k >= s.len() {
        s.len() as int
    } else if ends_sentence(s, k) {
        k
    } else {
        first_end_from(s, k + 1)
    }
}

/// The first position at or after `k` that does not hold a separator.
pub open spec fn skip_separators(s: Seq<char>, k: int) -> int
    decreases s.len() - k,
{
    if k < 0 || k >= s.len() {
        s.len() as int
    } else if is_separator(s[k]) {
        skip_separators(s, k + 1)
    } else {
        k
    }
}

proof fn lemma_first_end_bounds(s: Seq<char>, k: int)
    requires
        0 <= k <= s.len(),
    ensures
        k <= first_end_from(s, k) <= s.len(),
        first_end_from(s, k) < s.len() ==> ends_sentence(s, first_end_from(s, k)),
    decreases s.len() - k,
{
    if k < s.len() && !ends_sentence(s, k) {
        lemma_first_end_bounds(s, k + 1);
    }
}

proof fn lemma_skip_bounds(s: Seq<char>, k: int)
    requires
        0 <= k <= s.len(),
    ensures
        k <= skip_separators(s, k) <= s.len(),
    decreases s.len() - k,
{
    if k < s.len() && is_separator(s[k]) {
        lemma_skip_bounds(s, k + 1);
    }
}

/// The raw pieces of `s[st..]`: each piece runs to a sentence end (inclusive),
/// the separators after that end are dropped, and the last piece is what is left.
pub open spec fn raw_pieces(s: Seq<char>, st: int) -> Seq<Seq<char>>
    decreases s.len() - st,
{
    if st < 0 || st > s.len() {
        seq![]
    } else {
        let e = first_end_from(s, st);
        if e >= s.len() {
            seq![s.subrange(st, s.len() as int)]
        } else {
            let next = skip_separators(s, e + 1);
            if next <= st || next > s.len() {
                seq![]
            } else {
                seq![s.subrange(st, e + 1)] + raw_pieces(s, next)
            }
        }
    }
}

/// The pieces trimmed, keeping the non-empty ones.
pub open spec fn kept(ps: Seq<Seq<char>>) -> Seq<Seq<char>>
    decreases ps.len(),
{
    if ps.len() == 0 {
        seq![]
    } else {
        let t = trim(ps[0]);
        let rest = kept(ps.drop_first());
        if t.len() > 0 {
            seq![t] + rest
        } else {
            rest
        }
    }
}

/// The sentences of `s`: none when `s` is blank; otherwise the trimmed,
/// non-empty pieces, or `s` trimmed when there are no such pieces.
pub open spec fn sentences(s: Seq<char>) -> Seq<Seq<char>> {
    if trim(s).len() == 0 {
        seq![]
    } else {
        let k = kept(raw_pieces(s, 0));
        if k.len() == 0 {
            seq![trim(s)]
        } else {
            k
        }
    }
}

/// The views of a vector of strings.
pub open spec fn string_views(v: Seq<String>) -> Seq<Seq<char>> {
    v.map_values(|x: String| x@)
}

proof fn lemma_kept_cons(x: Seq<char>, rest: Seq<Seq<char>>)
    ensures
        kept(seq![x] + rest) == (if trim(x).len() > 0 { seq![trim(x)] + kept(rest) } else { kept(rest) }),
{
    assert((seq![x] + rest).drop_first() == rest);
    assert((seq![x] + rest)[0] == x);
}

proof fn lemma_first_end_skip(s: Seq<char>, st: int, i: int)
    requires
        0 <= st <= i <= s.len(),
        forall|k: int| st <= k < i ==> !#[trigger] ends_sentence(s, k),
    ensures
        first_end_from(s, st) == first_end_from(s, i),
    decreases i - st,
{
    if st < i {
        lemma_first_end_skip(s, st + 1, i);
    }
}

/// Splits text into sentences on `.`, `!` and `?`, keeping the punctuation.
pub fn split_into_sentences(text: &str) -> (r: Vec<String>)
    ensures
        string_views(r@) == sentences(text@),
        trim(text@).len() == 0 <==> r@.len() == 0,
        forall|i: int| 0 <= i < r@.len() ==> (#[trigger] r@[i])@.len() > 0,
        forall|i: int| 0 <= i < r@.len() ==> trim((#[trigger] r@[i])@) == r@[i]@,
        forall|i: int| 0 <= i < r@.len() - 1 ==> is_terminal((#[trigger] r@[i])@.last()),
{
    let chars = chars_of(text);
    let n = chars.len();
    let whole = trim_chars(chars.as_slice());
    if whole.len() == 0 {
        return Vec::new();
    }
    let ghost s = text@;
    let mut out: Vec<String> = Vec::new();
    let mut current: Vec<char> = Vec::new();
    let ghost mut st: int = 0;
    let mut i: usize = 0;
    proof {
        assert(string_views(out@) + kept(raw_pieces(s, 0)) == kept(raw_pieces(s, 0)));
    }
    while i < n
        invariant
            n == s.len(),
            chars@ == s,
            0 <= st <= i <= n,
            current@ == s.subrange(st, i as int),
            forall|k: int| st <= k < i ==> !#[trigger] ends_sentence(s, k),
            string_views(out@) + kept(raw_pieces(s, st)) == kept(raw_pieces(s, 0)),
            forall|k: int| 0 <= k < out@.len() ==> (#[trigger] out@[k])@.len() > 0,
            forall|k: int| 0 <= k < out@.len() ==> trim((#[trigger] out@[k])@) == out@[k]@,
            forall|k: int| 0 <= k < out@.len() ==> is_terminal((#[trigger] out@[k])@.last()),
        decreases n - i,
    {
        let ch = chars[i];
        current.push(ch);
        let terminal = ch == '.' || ch == '!' || ch == '?';
        let mut is_end = false;
        if terminal && !abbreviation_period_exec(&chars, i) {
            is_end = if i + 1 < n {
                let next_ch = chars[i + 1];
                next_ch == ' ' || next_ch == '\n' || next_ch == '\t' || (i + 2 < n && 'A'
                    <= chars[i + 2] && chars[i + 2] <= 'Z')
            } else {
                true
            };
        }
        assert(is_end == ends_sentence(s, i as int));
        if is_end {
            let mut j: usize = i + 1;
            while j < n && (chars[j] == ' ' || chars[j] == '\n' || chars[j] == '\t')
                invariant
                    i + 1 <= j <= n,
                    n == s.len(),
                    chars@ == s,
                    skip_separators(s, i + 1) == skip_separators(s, j as int),
                decreases n - j,
            {
                j += 1;
            }
            proof {
                lemma_first_end_skip(s, st, i as int);
                lemma_first_end_bounds(s, st);
                let piece = s.subrange(st, i + 1);
                assert(current@ == piece);
                assert(skip_separators(s, j as int) == j);
                assert(raw_pieces(s, st) == seq![piece] + raw_pieces(s, j as int));
                lemma_kept_cons(piece, raw_pieces(s, j as int));
                // the piece ends with the terminal character, which is not white space
                assert(piece.last() == ch);
                assert(!is_white_space(ch));
            }
            let sentence = trim_chars(current.as_slice());
            if sentence.len() > 0 {
                proof {
                    lemma_trim_keeps_last(current@);
                    lemma_trim_idempotent(current@);
                }
                let sv = string_from_chars(sentence.as_slice());
                let ghost old_out = out@;
                out.push(sv);
                proof {
                    assert(string_views(out@) == string_views(old_out) + seq![sentence@]);
                    assert(string_views(out@) + kept(raw_pieces(s, j as int)) == string_views(old_out) + (seq![sentence@] + kept(raw_pieces(s, j as int))));
                }
            }
            current = Vec::new();
            proof {
                st = j as int;
                assert(s.subrange(st, st) == Seq::<char>::empty());
            }
            i = j;
        } else {
            proof {
                assert(s.subrange(st, i + 1) == s.subrange(st, i as int).push(ch));
            }
            i += 1;
        }
    }
    proof {
        lemma_first_end_skip(s, st, n as int);
        assert(first_end_from(s, n as int) == n);
        assert(raw_pieces(s, st) == seq![current@]);
        lemma_kept_cons(current@, Seq::empty());
        assert(seq![current@] + Seq::<Seq<char>>::empty() == seq![current@]);
    }
    let remaining = trim_chars(current.as_slice());
    if remaining.len() > 0 {
        proof {
            lemma_trim_idempotent(current@);
        }
        let rv = string_from_chars(remaining.as_slice());
        let ghost old_out = out@;
        out.push(rv);
        proof {
            assert(string_views(out@) == string_views(old_out) + seq![remaining@]);
        }
    } else {
        proof {
            assert(string_views(out@) + Seq::empty() == string_views(out@));
        }
    }
    if out.len() == 0 {
        proof {
            lemma_trim_idempotent(s);
        }
        let wv = string_from_chars(whole.as_slice());
        out.push(wv);
        proof {
            assert(string_views(out@) == seq![trim(s)]);
        }
    }
    out
}

proof fn lemma_skip_all_separators(s: Seq<char>, k: int)
    requires
        0 <= k <= s.len(),
    ensures
        forall|j: int| k <= j < skip_separators(s, k) ==> is_separator(#[trigger] s[j]),
    decreases s.len() - k,
{
    if k < s.len() && is_separator(s[k]) {
        lemma_skip_all_separators(s, k + 1);
    }
}

proof fn lemma_visible_separators(t: Seq<char>)
    requires
        forall|j: int| 0 <= j < t.len() ==> is_separator(#[trigger] t[j]),
    ensures
        visible(t) == Seq::<char>::empty(),
    decreases t.len(),
{
    if t.len() > 0 {
        assert(is_separator(t[0]));
        assert forall|j: int| 0 <= j < t.drop_first().len() implies is_separator(#[trigger] t.drop_first()[j]) by {
            assert(t.drop_first()[j] == t[j + 1]);
        }
        lemma_visible_separators(t.drop_first());
    }
}

proof fn lemma_flatten_cons(x: Seq<char>, rest: Seq<Seq<char>>)
    ensures
        (seq![x] + rest).flatten() == x + rest.flatten(),
{
    assert((seq![x] + rest).first() == x);
    assert((seq![x] + rest).drop_first() == rest);
}

proof fn lemma_visible_kept(ps: Seq<Seq<char>>)
    ensures
        visible(kept(ps).flatten()) == visible(ps.flatten()),
    decreases ps.len(),
{
    if ps.len() > 0 {
        let rest = ps.drop_first();
        lemma_visible_kept(rest);
        lemma_visible_trim(ps[0]);
        lemma_visible_add(ps[0], rest.flatten());
        let t = trim(ps[0]);
        if t.len() > 0 {
            lemma_flatten_cons(t, kept(rest));
            lemma_visible_add(t, kept(rest).flatten());
        } else {
            assert(visible(ps[0]) + visible(rest.flatten()) == visible(rest.flatten()));
        }
    }
}

proof fn lemma_visible_raw_pieces(s: Seq<char>, st: int)
    requires
        0 <= st <= s.len(),
    ensures
        visible(raw_pieces(s, st).flatten()) == visible(s.subrange(st, s.len() as int)),
    decreases s.len() - st,
{
    let n = s.len() as int;
    let e = first_end_from(s, st);
    lemma_first_end_bounds(s, st);
    if e >= n {
        let p = s.subrange(st, n);
        assert(seq![p] == seq![p] + Seq::<Seq<char>>::empty());
        lemma_flatten_cons(p, Seq::<Seq<char>>::empty());
        assert(p + Seq::<char>::empty() == p);
    } else {
        let next = skip_separators(s, e + 1);
        lemma_skip_bounds(s, e + 1);
        lemma_skip_all_separators(s, e + 1);
        lemma_visible_raw_pieces(s, next);
        let p = s.subrange(st, e + 1);
        let sep = s.subrange(e + 1, next);
        let tail = s.subrange(next, n);
        lemma_flatten_cons(p, raw_pieces(s, next));
        lemma_visible_add(p, raw_pieces(s, next).flatten());
        assert forall|j: int| 0 <= j < sep.len() implies is_separator(#[trigger] sep[j]) by {
            assert(sep[j] == s[e + 1 + j]);
        }
        lemma_visible_separators(sep);
        assert(s.subrange(st, n) == p + (sep + tail));
        lemma_visible_add(p, sep + tail);
        lemma_visible_add(sep, tail);
        assert(Seq::<char>::empty() + visible(tail) == visible(tail));
    }
}

/// Splitting loses no text but white space: the sentences, put back
/// together, hold exactly the visible characters of the text, in order.
pub proof fn law_split_keeps_visible_text(s: Seq<char>)
    ensures
        visible(sentences(s).flatten()) == visible(s),
{
    lemma_visible_trim(s);
    if trim(s).len() == 0 {
        assert(sentences(s).flatten() == Seq::<char>::empty());
        assert(visible(Seq::<char>::empty()) == Seq::<char>::empty());
    } else {
        let k = kept(raw_pieces(s, 0));
        if k.len() == 0 {
            let t = trim(s);
            assert(seq![t] == seq![t] + Seq::<Seq<char>>::empty());
            lemma_flatten_cons(t, Seq::<Seq<char>>::empty());
            assert(t + Seq::<char>::empty() == t);
        } else {
            lemma_visible_kept(raw_pieces(s, 0));
            lemma_visible_raw_pieces(s, 0);
            assert(s.subrange(0, s.len() as int) == s);
        }
    }
}

} // verus!
