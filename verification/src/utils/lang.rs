//! Language utility functions

use vstd::prelude::*;
use crate::utils::chars::{chars_of, string_from_chars};

verus! {

/// The result of `str::to_lowercase`: the lowercase equivalent of the string
/// according to the Unicode `Lowercase` property.
pub uninterp spec fn unicode_lowercase(s: Seq<char>) -> Seq<char>;

/// Whether every character of `s` is ASCII.
pub open spec fn all_ascii(s: Seq<char>) -> bool {
    forall|i: int| 0 <= i < s.len() ==> (#[trigger] s[i] as u32) < 128
}

/// `c` with an ASCII capital mapped to its small letter.
pub open spec fn ascii_lower_char(c: char) -> char {
    if 'A' <= c <= 'Z' {
        ((c as u32) + 32) as char
    } else {
        c
    }
}

/// `s` with ASCII capitals mapped to small letters.
pub open spec fn ascii_lowercase(s: Seq<char>) -> Seq<char> {
    s.map_values(|c: char| ascii_lower_char(c))
}

/// The lowercase equivalent of `s`.
///
/// Trusted: calls `str::to_lowercase`. The contract names its result and
/// states that ASCII text is lowercased the ASCII way (the Unicode lowercase
/// mapping of an ASCII character is its ASCII lowercase).
#[verifier::external_body]
fn to_lowercase(s: &str) -> (r: String)
    ensures
        r@ == unicode_lowercase(s@),
        all_ascii(s@) ==> r@ == ascii_lowercase(s@),
{
    s.to_lowercase()
}

/// The part of `s` before its first `-` (all of `s` when it has none).
pub open spec fn language_base(s: Seq<char>) -> Seq<char> {
    if exists|i: int| 0 <= i < s.len() && s[i] == '-' {
        let i = choose|i: int| 0 <= i < s.len() && s[i] == '-' && forall|k: int| 0 <= k < i ==> s[k] != '-';
        s.take(i)
    } else {
        s
    }
}

/// The part of a language code before its first `-` ("pl" from "pl-PL").
pub fn language_base_code(lang: &str) -> (r: String)
    ensures
        r@ == language_base(lang@),
{
    let cs = chars_of(lang);
    let mut i: usize = 0;
    while i < cs.len() && cs[i] != '-'
        invariant
            i <= cs@.len(),
            cs@ == lang@,
            forall|k: int| 0 <= k < i ==> cs@[k] != '-',
        decreases cs.len() - i,
    {
        i += 1;
    }
    let mut out: Vec<char> = Vec::new();
    let mut k: usize = 0;
    while k < i
        invariant
            k <= i <= cs@.len(),
            out@ == cs@.take(k as int),
        decreases i - k,
    {
        out.push(cs[k]);
        assert(cs@.take(k + 1) == cs@.take(k as int).push(cs@[k as int]));
        k += 1;
    }
    proof {
        let s = lang@;
        if i < cs.len() {
            assert(s[i as int] == '-');
            let j = choose|j: int| 0 <= j < s.len() && s[j] == '-' && forall|k: int| 0 <= k < j ==> s[k] != '-';
            assert(j == i) by {
                if j < i {
                    assert(s[j] != '-');
                } else if j > i {
                    assert(s[i as int] != '-');
                }
            }
        } else {
            assert(cs@.take(i as int) == cs@);
        }
    }
    string_from_chars(out.as_slice())
}

/// Normalize a language code: the part before the first `-`, lowercased
/// ("pl-PL" becomes "pl", "EN" becomes "en").
pub fn normalize_language_code(lang: &str) -> (r: String)
    ensures
        r@ == unicode_lowercase(language_base(lang@)),
        all_ascii(lang@) ==> r@ == ascii_lowercase(language_base(lang@)),
{
    let base = language_base_code(lang);
    proof {
        lemma_base_ascii(lang@);
    }
    to_lowercase(base.as_str())
}

proof fn lemma_base_prefix(s: Seq<char>)
    ensures
        exists|k: int| 0 <= k <= s.len() && language_base(s) == s.take(k),
        forall|i: int| 0 <= i < language_base(s).len() ==> language_base(s)[i] != '-',
{
    if exists|i: int| 0 <= i < s.len() && s[i] == '-' {
        let i = choose|i: int| 0 <= i < s.len() && s[i] == '-' && forall|k: int| 0 <= k < i ==> s[k] != '-';
        assert(exists|i: int| 0 <= i < s.len() && s[i] == '-' && forall|k: int| 0 <= k < i ==> s[k] != '-') by {
            lemma_first_dash(s, 0);
        }
        assert(language_base(s) == s.take(i));
    } else {
        assert(language_base(s) == s.take(s.len() as int));
    }
}

proof fn lemma_first_dash(s: Seq<char>, j: int)
    requires
        0 <= j <= s.len(),
        forall|k: int| 0 <= k < j ==> s[k] != '-',
        exists|i: int| j <= i < s.len() && s[i] == '-',
    ensures
        exists|i: int| 0 <= i < s.len() && s[i] == '-' && forall|k: int| 0 <= k < i ==> s[k] != '-',
    decreases s.len() - j,
{
    if s[j] == '-' {
        assert(forall|k: int| 0 <= k < j ==> s[k] != '-');
    } else {
        lemma_first_dash(s, j + 1);
    }
}

proof fn lemma_base_ascii(s: Seq<char>)
    ensures
        all_ascii(s) ==> all_ascii(language_base(s)),
{
    lemma_base_prefix(s);
    if all_ascii(s) {
        let k = choose|k: int| 0 <= k <= s.len() && language_base(s) == s.take(k);
        assert forall|i: int| 0 <= i < language_base(s).len() implies (#[trigger] language_base(s)[i] as u32) < 128 by {
            assert(language_base(s)[i] == s[i]);
        }
    }
}

/// On ASCII codes, normalizing is taking the part before the first `-` and
/// lowercasing it the ASCII way; the result holds no `-` and normalizes to
/// itself.
pub proof fn law_normalize_ascii(lang: Seq<char>)
    requires
        all_ascii(lang),
    ensures
        ({
            let r = ascii_lowercase(language_base(lang));
            &&& forall|i: int| 0 <= i < r.len() ==> r[i] != '-'
            &&& all_ascii(r)
            &&& ascii_lowercase(language_base(r)) == r
        }),
{
    lemma_base_prefix(lang);
    lemma_base_ascii(lang);
    let b = language_base(lang);
    let r = ascii_lowercase(b);
    assert forall|i: int| 0 <= i < r.len() implies r[i] != '-' && (#[trigger] r[i] as u32) < 128 by {
        assert(r[i] == ascii_lower_char(b[i]));
        assert(b[i] != '-');
        assert((b[i] as u32) < 128);
    }
    assert(!(exists|i: int| 0 <= i < r.len() && r[i] == '-'));
    assert(language_base(r) == r);
    assert forall|i: int| 0 <= i < r.len() implies #[trigger] ascii_lower_char(r[i]) == r[i] by {
        assert(r[i] == ascii_lower_char(b[i]));
    }
    assert(ascii_lowercase(r) =~= r);
}

} // verus!
