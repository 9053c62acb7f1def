//! Making one text from another: lines, joining, replacing, lower case.

use vstd::prelude::*;
use crate::text::chars::{ascii_lower, string_push, text_of, to_ascii_lower, to_chars};
use crate::text::scan::{matches_at, occurs_at};
use crate::text::split::{lemma_pieces_from, pieces, split};

verus! {

/// `line` without the carriage return at its end, if it has one.
pub open spec fn without_cr(line: Seq<char>) -> Seq<char> {
    if line.len() > 0 && line.last() == '\r' {
        line.drop_last()
    } else {
        line
    }
}

/// The lines of `s`. A line ends at a line feed, or at a carriage return
/// followed by a line feed; neither belongs to the line. What follows the last
/// line feed is a line of its own unless it is empty.
pub open spec fn line_list(s: Seq<char>) -> Seq<Seq<char>> {
    let parts = pieces(s, '\n');
    let ended = Seq::new((parts.len() - 1) as nat, |k: int| without_cr(parts[k]));
    if parts.last().len() > 0 {
        ended.push(parts.last())
    } else {
        ended
    }
}

/// Line number `n` of `s`, counted from zero, if `s` has that many lines.
pub open spec fn nth_of_lines(s: Seq<char>, n: nat) -> Option<Seq<char>> {
    if n < line_list(s).len() {
        Some(line_list(s)[n as int])
    } else {
        None
    }
}

/// The lines of `s`, in order.
pub fn lines(s: &str) -> (r: Vec<String>)
    ensures
        r.deep_view() == line_list(s@),
{
    let parts = split(s, '\n');
    proof {
        lemma_pieces_from(s@, '\n', 0);
    }
    let ghost all = pieces(s@, '\n');
    let mut out: Vec<String> = Vec::new();
    let last: usize = parts.len() - 1;
    let mut k: usize = 0;
    while k < last
        invariant
            parts.deep_view() == all,
            last == all.len() - 1,
            k <= last,
            out.deep_view() == Seq::new(k as nat, |j: int| without_cr(all[j])),
        decreases last - k,
    {
        let cs = to_chars(parts[k].as_str());
        assert(cs@ == all[k as int]) by {
            assert(parts.deep_view()[k as int] == parts[k as int]@);
        }
        let n = cs.len();
        let line = if n > 0 && cs[n - 1] == '\r' {
            text_of(&cs, 0, n - 1)
        } else {
            text_of(&cs, 0, n)
        };
        assert(line@ =~= without_cr(all[k as int]));
        let ghost before = out.deep_view();
        out.push(line);
        assert(out.deep_view() =~= before.push(line@));
        k = k + 1;
        assert(out.deep_view() =~= Seq::new(k as nat, |j: int| without_cr(all[j])));
    }
    let tail = parts[last].as_str();
    assert(tail@ == all.last()) by {
        assert(parts.deep_view()[last as int] == parts[last as int]@);
    }
    if tail.unicode_len() > 0 {
        let ghost before = out.deep_view();
        out.push(tail.to_owned());
        assert(out.deep_view() =~= before.push(tail@));
    }
    out
}

/// Line number `n` of `s`, counted from zero.
pub fn nth_line(s: &str, n: usize) -> (r: Option<String>)
    ensures
        match r {
            Some(line) => nth_of_lines(s@, n as nat) == Some(line@),
            None => nth_of_lines(s@, n as nat) is None,
        },
{
    let all = lines(s);
    if n < all.len() {
        assert(all.deep_view()[n as int] == all[n as int]@);
        Some(all[n].clone())
    } else {
        None
    }
}

/// The parts in order, with `sep` between each two neighbours.
pub open spec fn joined(parts: Seq<Seq<char>>, sep: Seq<char>) -> Seq<char>
    decreases parts.len(),
{
    if parts.len() == 0 {
        Seq::empty()
    } else if parts.len() == 1 {
        parts[0]
    } else {
        joined(parts.drop_last(), sep) + sep + parts.last()
    }
}

/// The parts in order, with `sep` between each two neighbours.
pub fn join(parts: &Vec<String>, sep: &str) -> (r: String)
    ensures
        r@ == joined(parts.deep_view(), sep@),
{
    let mut out = String::new();
    let ghost all = parts.deep_view();
    let mut k: usize = 0;
    while k < parts.len()
        invariant
            all == parts.deep_view(),
            k <= parts.len(),
            out@ == joined(all.take(k as int), sep@),
        decreases parts.len() - k,
    {
        if k > 0 {
            out.append(sep);
        }
        out.append(parts[k].as_str());
        proof {
            assert(parts[k as int]@ == all[k as int]);
            assert(all.take(k + 1).drop_last() =~= all.take(k as int));
            assert(all.take(k + 1).last() == all[k as int]);
            if k == 0 {
                assert(out@ =~= all[0]);
            }
        }
        k = k + 1;
    }
    assert(all.take(parts.len() as int) =~= all);
    out
}

/// `s` from `from` on, with `with` in place of each occurrence of `pattern`,
/// the occurrences taken from left to right without overlap. An empty
/// pattern occurs nowhere.
pub open spec fn replaced_from(s: Seq<char>, pattern: Seq<char>, with: Seq<char>, from: int) -> Seq<
    char,
>
    decreases s.len() - from,
{
    if from < 0 || from >= s.len() {
        Seq::empty()
    } else if pattern.len() > 0 && occurs_at(s, pattern, from) {
        with + replaced_from(s, pattern, with, from + pattern.len())
    } else {
        seq![s[from]] + replaced_from(s, pattern, with, from + 1)
    }
}

/// `s` with `with` in place of each occurrence of `pattern`.
pub open spec fn replaced(s: Seq<char>, pattern: Seq<char>, with: Seq<char>) -> Seq<char> {
    replaced_from(s, pattern, with, 0)
}

/// `s` with `with` in place of each occurrence of `pattern`, the occurrences
/// taken from left to right without overlap.
pub fn replace(s: &str, pattern: &str, with: &str) -> (r: String)
    ensures
        r@ == replaced(s@, pattern@, with@),
{
    let cs = to_chars(s);
    let ps = to_chars(pattern);
    let mut out = String::new();
    let mut i: usize = 0;
    while i < cs.len()
        invariant
            cs@ == s@,
            ps@ == pattern@,
            i <= cs.len(),
            out@ + replaced_from(s@, pattern@, with@, i as int) == replaced(s@, pattern@, with@),
        decreases cs.len() - i,
    {
        let ghost before = out@;
        let ghost rest = replaced_from(s@, pattern@, with@, i as int);
        if ps.len() > 0 && matches_at(&cs, &ps, i) {
            out.append(with);
            i = i + ps.len();
            assert(out@ + replaced_from(s@, pattern@, with@, i as int) =~= before + rest);
        } else {
            string_push(&mut out, cs[i]);
            i = i + 1;
            assert(out@ + replaced_from(s@, pattern@, with@, i as int) =~= before + rest);
        }
    }
    assert(out@ + Seq::<char>::empty() =~= out@);
    out
}

/// `s` with each ASCII capital in lower case.
pub open spec fn lowered(s: Seq<char>) -> Seq<char> {
    Seq::new(s.len(), |i: int| ascii_lower(s[i]))
}

/// `s` with each ASCII capital in lower case.
pub fn to_ascii_lowercase(s: &str) -> (r: String)
    ensures
        r@ == lowered(s@),
{
    let cs = to_chars(s);
    let mut out = String::new();
    let mut i: usize = 0;
    while i < cs.len()
        invariant
            cs@ == s@,
            i <= cs.len(),
            out@ == Seq::new(i as nat, |j: int| ascii_lower(s@[j])),
        decreases cs.len() - i,
    {
        string_push(&mut out, to_ascii_lower(cs[i]));
        i = i + 1;
        assert(out@ =~= Seq::new(i as nat, |j: int| ascii_lower(s@[j])));
    }
    out
}

} // verus!
