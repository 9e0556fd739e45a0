//! Server-sent-event line handling for streamed speech synthesis.

use vstd::prelude::*;
use crate::utils::chars::{chars_of, string_from_range, string_from_chars};
use crate::utils::text::{trim, trim_chars};

verus! {

/// The first `\n` at or after `k` (`s.len()` when there is none).
pub open spec fn newline_from(s: Seq<char>, k: int) -> int
    decreases s.len() - k,
{
    if k < 0 || k >= s.len() {
        s.len() as int
    } else if s[k] == '\n' {
        k
    } else {
        newline_from(s, k + 1)
    }
}

/// The complete lines of `s` (without their `\n`) and the unfinished rest.
pub open spec fn split_lines(s: Seq<char>) -> (Seq<Seq<char>>, Seq<char>)
    decreases s.len(),
{
    let p = newline_from(s, 0);
    if p < 0 || p >= s.len() {
        (seq![], s)
    } else {
        let (ls, r) = split_lines(s.skip(p + 1));
        (seq![s.take(p)] + ls, r)
    }
}

/// `s` without trailing carriage returns.
pub open spec fn strip_cr_end(s: Seq<char>) -> Seq<char>
    decreases s.len(),
{
    if s.len() > 0 && s.last() == '\r' {
        strip_cr_end(s.drop_last())
    } else {
        s
    }
}

/// The event data of a line: for a line starting `data:` (after removing
/// trailing carriage returns), the rest trimmed, unless that is empty or
/// `[DONE]`.
pub open spec fn line_payload(line: Seq<char>) -> Option<Seq<char>> {
    let l = strip_cr_end(line);
    if l.len() >= 5 && l.take(5) == "data:"@ {
        let d = trim(l.skip(5));
        if d.len() == 0 || d == "[DONE]"@ {
            None
        } else {
            Some(d)
        }
    } else {
        None
    }
}

/// The event data of each line that has some, in order.
pub open spec fn payloads(lines: Seq<Seq<char>>) -> Seq<Seq<char>>
    decreases lines.len(),
{
    if lines.len() == 0 {
        seq![]
    } else {
        let rest = payloads(lines.drop_first());
        match line_payload(lines[0]) {
            Some(d) => seq![d] + rest,
            None => rest,
        }
    }
}

proof fn lemma_newline_from_bounds(s: Seq<char>, k: int)
    requires
        0 <= k <= s.len(),
    ensures
        k <= newline_from(s, k) <= s.len(),
        newline_from(s, k) < s.len() ==> s[newline_from(s, k)] == '\n',
        forall|j: int| k <= j < newline_from(s, k) ==> s[j] != '\n',
    decreases s.len() - k,
{
    if k < s.len() && s[k] != '\n' {
        lemma_newline_from_bounds(s, k + 1);
    }
}

proof fn lemma_newline_from_is(s: Seq<char>, k: int, p: int)
    requires
        0 <= k <= p <= s.len(),
        forall|j: int| k <= j < p ==> s[j] != '\n',
        p == s.len() || s[p] == '\n',
    ensures
        newline_from(s, k) == p,
    decreases p - k,
{
    if k < p {
        lemma_newline_from_is(s, k + 1, p);
    }
}

proof fn lemma_payloads_append(a: Seq<Seq<char>>, b: Seq<Seq<char>>)
    ensures
        payloads(a + b) == payloads(a) + payloads(b),
    decreases a.len(),
{
    if a.len() == 0 {
        assert(a + b == b);
    } else {
        lemma_payloads_append(a.drop_first(), b);
        assert((a + b).drop_first() == a.drop_first() + b);
        assert((a + b)[0] == a[0]);
    }
}

/// Splitting `x + y` into lines: the lines of `x`, then the lines of the rest
/// of `x` followed by `y`.
proof fn lemma_split_lines_append(x: Seq<char>, y: Seq<char>)
    ensures
        split_lines(x + y).0 == split_lines(x).0 + split_lines(split_lines(x).1 + y).0,
        split_lines(x + y).1 == split_lines(split_lines(x).1 + y).1,
    decreases x.len(),
{
    let p = newline_from(x, 0);
    lemma_newline_from_bounds(x, 0);
    if p >= x.len() {
        assert(split_lines(x).0 == Seq::<Seq<char>>::empty());
        assert(split_lines(x).1 == x);
        assert(Seq::<Seq<char>>::empty() + split_lines(x + y).0 == split_lines(x + y).0);
    } else {
        let xy = x + y;
        assert forall|j: int| 0 <= j < p implies xy[j] != '\n' by {
            assert(xy[j] == x[j]);
        }
        lemma_newline_from_is(xy, 0, p);
        assert(xy.skip(p + 1) == x.skip(p + 1) + y);
        assert(xy.take(p) == x.take(p));
        lemma_split_lines_append(x.skip(p + 1), y);
        let (l1, r1) = split_lines(x.skip(p + 1));
        assert(split_lines(x) == (seq![x.take(p)] + l1, r1));
        assert(split_lines(xy).0 == seq![x.take(p)] + (l1 + split_lines(r1 + y).0));
        assert(seq![x.take(p)] + (l1 + split_lines(r1 + y).0) == (seq![x.take(p)] + l1) + split_lines(r1 + y).0);
    }
}

/// Decodes the data lines of a server-sent-event stream, chunk by chunk.
pub struct SseDecoder {
    buffer: String,
}

impl SseDecoder {
    /// The text received but not yet ended by a newline.
    pub closed spec fn pending(&self) -> Seq<char> {
        self.buffer@
    }

    /// A decoder with nothing pending.
    pub fn new() -> (r: Self)
        ensures
            r.pending() == Seq::<char>::empty(),
    {
        SseDecoder { buffer: String::new() }
    }

    fn line_payload_exec(line: &[char]) -> (r: Option<String>)
        ensures
            match r {
                Some(d) => line_payload(line@) == Some(d@),
                None => line_payload(line@) is None,
            },
    {
        let mut end: usize = line.len();
        assert(line@.take(end as int) == line@);
        while end > 0 && line[end - 1] == '\r'
            invariant
                end <= line@.len(),
                strip_cr_end(line@) == strip_cr_end(line@.take(end as int)),
            decreases end,
        {
            assert(line@.take(end as int).drop_last() == line@.take(end - 1));
            end -= 1;
        }
        let ghost l = line@.take(end as int);
        assert(strip_cr_end(l) == l);
        if end < 5 || line[0] != 'd' || line[1] != 'a' || line[2] != 't' || line[3] != 'a' || line[4] != ':' {
            proof {
                reveal_strlit("data:");
                if l.len() >= 5 {
                    assert(l.take(5) != "data:"@) by {
                        if l.take(5) == "data:"@ {
                            assert(l.take(5)[0] == 'd');
                            assert(l.take(5)[1] == 'a');
                            assert(l.take(5)[2] == 't');
                            assert(l.take(5)[3] == 'a');
                            assert(l.take(5)[4] == ':');
                        }
                    }
                }
            }
            return None;
        }
        proof {
            reveal_strlit("data:");
            assert(l.take(5) =~= "data:"@);
        }
        let rest: Vec<char> = {
            let mut v: Vec<char> = Vec::new();
            let mut k: usize = 5;
            while k < end
                invariant
                    5 <= k <= end <= line@.len(),
                    v@ == line@.subrange(5, k as int),
                decreases end - k,
            {
                v.push(line[k]);
                assert(line@.subrange(5, k + 1) == line@.subrange(5, k as int).push(line@[k as int]));
                k += 1;
            }
            v
        };
        assert(rest@ == l.skip(5));
        let d = trim_chars(rest.as_slice());
        if d.len() == 0 {
            return None;
        }
        if d.len() == 6 && d[0] == '[' && d[1] == 'D' && d[2] == 'O' && d[3] == 'N' && d[4] == 'E' && d[5] == ']' {
            proof {
                reveal_strlit("[DONE]");
                assert(d@ =~= "[DONE]"@);
            }
            return None;
        }
        proof {
            reveal_strlit("[DONE]");
            if d@ == "[DONE]"@ {
                assert(d@[0] == '[' && d@[1] == 'D' && d@[2] == 'O' && d@[3] == 'N' && d@[4] == 'E' && d@[5] == ']');
            }
        }
        Some(string_from_chars(d.as_slice()))
    }

    /// Takes in a chunk of the stream; returns the event data of every line the
    /// chunk completes, keeping an unfinished last line for the next chunk.
    pub fn push(&mut self, chunk: &str) -> (r: Vec<String>)
        ensures
            final(self).pending() == split_lines(old(self).pending() + chunk@).1,
            r@.map_values(|x: String| x@) == payloads(split_lines(old(self).pending() + chunk@).0),
    {
        let mut all = chars_of(self.buffer.as_str());
        let c = chars_of(chunk);
        let ghost s = self.buffer@ + chunk@;
        let mut i: usize = 0;
        while i < c.len()
            invariant
                i <= c@.len(),
                c@ == chunk@,
                all@ == self.buffer@ + chunk@.take(i as int),
            decreases c.len() - i,
        {
            all.push(c[i]);
            assert(chunk@.take(i + 1) == chunk@.take(i as int).push(chunk@[i as int]));
            i += 1;
        }
        assert(chunk@.take(c@.len() as int) == chunk@);
        assert(all@ == s);
        let n = all.len();
        let mut out: Vec<String> = Vec::new();
        let mut start: usize = 0;
        let mut p: usize = 0;
        assert(s.skip(0) == s);
        while p < n
            invariant
                all@ == s,
                n == s.len(),
                start <= p <= n,
                forall|j: int| start <= j < p ==> s[j] != '\n',
                split_lines(s).1 == split_lines(s.skip(start as int)).1,
                payloads(split_lines(s).0) == out@.map_values(|x: String| x@) + payloads(split_lines(s.skip(start as int)).0),
            decreases n - p,
        {
            if all[p] == '\n' {
                let ghost t = s.skip(start as int);
                proof {
                    assert forall|j: int| 0 <= j < p - start implies t[j] != '\n' by {
                        assert(t[j] == s[start + j]);
                    }
                    assert(t[p - start] == '\n');
                    lemma_newline_from_is(t, 0, p - start);
                    assert(t.skip(p - start + 1) == s.skip(p + 1));
                    assert(t.take(p - start) == s.subrange(start as int, p as int));
                }
                let mut line: Vec<char> = Vec::new();
                let mut k: usize = start;
                while k < p
                    invariant
                        start <= k <= p < n,
                        n == s.len(),
                        all@ == s,
                        line@ == s.subrange(start as int, k as int),
                    decreases p - k,
                {
                    line.push(all[k]);
                    assert(s.subrange(start as int, k + 1) == s.subrange(start as int, k as int).push(s[k as int]));
                    k += 1;
                }
                let ghost old_out = out@.map_values(|x: String| x@);
                let pl = Self::line_payload_exec(line.as_slice());
                match pl {
                    Some(d) => {
                        out.push(d);
                    },
                    None => {},
                }
                proof {
                    let rest = split_lines(s.skip(p + 1)).0;
                    assert(split_lines(t).0 == seq![line@] + rest);
                    assert(payloads(seq![line@] + rest) == match line_payload(line@) {
                        Some(x) => seq![x] + payloads(rest),
                        None => payloads(rest),
                    }) by {
                        assert((seq![line@] + rest).drop_first() == rest);
                        assert((seq![line@] + rest)[0] == line@);
                    }
                    match line_payload(line@) {
                        Some(x) => {
                            assert(out@.map_values(|x: String| x@) == old_out.push(x));
                            assert(old_out + (seq![x] + payloads(rest)) == old_out.push(x) + payloads(rest));
                        },
                        None => {},
                    }
                }
                start = p + 1;
            }
            p += 1;
        }
        proof {
            let t = s.skip(start as int);
            assert forall|j: int| 0 <= j < t.len() implies t[j] != '\n' by {
                assert(t[j] == s[start + j]);
            }
            lemma_newline_from_is(t, 0, t.len() as int);
            assert(split_lines(t) == (Seq::<Seq<char>>::empty(), t));
            assert(out@.map_values(|x: String| x@) + Seq::<Seq<char>>::empty() == out@.map_values(|x: String| x@));
            assert(t == s.subrange(start as int, n as int));
        }
        self.buffer = string_from_range(all.as_slice(), start, n);
        out
    }
}

/// Feeding the stream in two chunks decodes the same events, and leaves the
/// same unfinished line, as feeding it in one.
pub proof fn law_sse_chunking(pending: Seq<char>, a: Seq<char>, b: Seq<char>)
    ensures
        ({
            let (l1, r1) = split_lines(pending + a);
            let (l2, r2) = split_lines(r1 + b);
            let (l, r) = split_lines(pending + a + b);
            payloads(l1) + payloads(l2) == payloads(l) && r2 == r
        }),
{
    lemma_split_lines_append(pending + a, b);
    let (l1, r1) = split_lines(pending + a);
    let (l2, r2) = split_lines(r1 + b);
    lemma_payloads_append(l1, l2);
}

/// A line `data:` followed by `x` (no space needed after the colon) carries
/// `x` trimmed, unless that is empty or `[DONE]`. (Trailing carriage returns
/// are covered by `law_sse_carriage_return_ignored`.)
pub proof fn law_sse_data_line(x: Seq<char>)
    requires
        x.len() == 0 || x.last() != '\r',
    ensures
        line_payload("data:"@ + x) == (if trim(x).len() == 0 || trim(x) == "[DONE]"@ {
            None
        } else {
            Some(trim(x))
        }),
{
    reveal_strlit("data:");
    let l = "data:"@ + x;
    assert(l.len() == x.len() + 5);
    if x.len() == 0 {
        assert(l.last() == ':');
    } else {
        assert(l.last() == x.last());
    }
    assert(strip_cr_end(l) == l);
    assert(l.take(5) =~= "data:"@);
    assert(l.skip(5) =~= x);
}

/// Carriage returns at the end of a line do not change what it carries.
pub proof fn law_sse_carriage_return_ignored(line: Seq<char>)
    ensures
        line_payload(line.push('\r')) == line_payload(line),
{
    assert(line.push('\r').drop_last() =~= line);
    assert(strip_cr_end(line.push('\r')) == strip_cr_end(line));
}

/// A decoder with nothing pending, given one complete event line
/// `data:{x}\n`, hands out `x` trimmed and keeps nothing pending.
pub proof fn law_sse_single_event(x: Seq<char>)
    requires
        forall|j: int| 0 <= j < x.len() ==> x[j] != '\n',
        x.len() == 0 || x.last() != '\r',
        trim(x).len() > 0,
        trim(x) != "[DONE]"@,
    ensures
        payloads(split_lines(Seq::<char>::empty() + ("data:"@ + x + seq!['\n'])).0) == seq![trim(x)],
        split_lines(Seq::<char>::empty() + ("data:"@ + x + seq!['\n'])).1 == Seq::<char>::empty(),
{
    reveal_strlit("data:");
    let line = "data:"@ + x;
    let s = Seq::<char>::empty() + (line + seq!['\n']);
    assert(s =~= line + seq!['\n']);
    let p = line.len() as int;
    assert forall|j: int| 0 <= j < p implies s[j] != '\n' by {
        if j >= 5 {
            assert(s[j] == x[j - 5]);
        }
    }
    assert(s[p] == '\n');
    lemma_newline_from_is(s, 0, p);
    assert(s.take(p) =~= line);
    assert(s.skip(p + 1) =~= Seq::<char>::empty());
    assert(newline_from(Seq::<char>::empty(), 0) == 0);
    assert(split_lines(Seq::<char>::empty()) == (Seq::<Seq<char>>::empty(), Seq::<char>::empty()));
    assert(split_lines(s).0 =~= seq![line]);
    law_sse_data_line(x);
    assert(payloads(seq![line]) == seq![trim(x)]) by {
        assert(seq![line].drop_first() =~= Seq::<Seq<char>>::empty());
        assert(seq![line][0] == line);
        assert(payloads(Seq::<Seq<char>>::empty()) == Seq::<Seq<char>>::empty());
        assert(line_payload(line) == Some(trim(x)));
        assert(seq![trim(x)] + Seq::<Seq<char>>::empty() =~= seq![trim(x)]);
    }
}

} // verus!
