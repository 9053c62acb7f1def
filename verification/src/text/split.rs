//! Cutting a text into parts: tokens between delimiters, pieces between
//! occurrences of one character, lines, and the text without the whitespace
//! around it.

use vstd::prelude::*;
use crate::text::chars::{is_whitespace, is_word_char, whitespace, word_char, to_chars, text_of};

verus! {

/// A class of characters that separate tokens.
#[derive(Clone, Copy, Debug, PartialEq, Eq)]
pub enum Delimiter {
    /// Every whitespace character separates.
    Whitespace,
    /// Every character that cannot stand inside a word separates.
    NonWord,
}

impl Delimiter {
    pub open spec fn holds(self, c: char) -> bool {
        match self {
            Delimiter::Whitespace => is_whitespace(c),
            Delimiter::NonWord => !is_word_char(c),
        }
    }

    pub fn separates(self, c: char) -> (r: bool)
        ensures
            r == self.holds(c),
    {
        match self {
            Delimiter::Whitespace => whitespace(c),
            Delimiter::NonWord => !word_char(c),
        }
    }
}

/// The first index from `from` on that holds no delimiter; the length of `s`
/// where only delimiters follow.
pub open spec fn skip_delimiters(s: Seq<char>, d: Delimiter, from: int) -> int
    decreases s.len() - from,
{
    if 0 <= from < s.len() && d.holds(s[from]) {
        skip_delimiters(s, d, from + 1)
    } else {
        from
    }
}

/// The first index from `from` on that holds a delimiter; the length of `s`
/// where none follows.
pub open spec fn skip_token(s: Seq<char>, d: Delimiter, from: int) -> int
    decreases s.len() - from,
{
    if 0 <= from < s.len() && !d.holds(s[from]) {
        skip_token(s, d, from + 1)
    } else {
        from
    }
}

/// The tokens of `s` that begin at `from` or later: the maximal runs of
/// characters that are no delimiters, in order.
pub open spec fn tokens_from(s: Seq<char>, d: Delimiter, from: int) -> Seq<Seq<char>>
    decreases s.len() - from,
{
    let start = skip_delimiters(s, d, from);
    let end = skip_token(s, d, start);
    if 0 <= from <= start && start < end <= s.len() {
        seq![s.subrange(start, end)] + tokens_from(s, d, end)
    } else {
        Seq::empty()
    }
}

/// The tokens of `s`: the maximal runs of characters that are no delimiters.
pub open spec fn tokens(s: Seq<char>, d: Delimiter) -> Seq<Seq<char>> {
    tokens_from(s, d, 0)
}

/// The whitespace-separated words of `s`.
pub open spec fn words(s: Seq<char>) -> Seq<Seq<char>> {
    tokens(s, Delimiter::Whitespace)
}

/// Where `skip_delimiters` stops: at or after `from`, within `s`, with only
/// delimiters in between and none at the stop.
pub proof fn lemma_skip_delimiters(s: Seq<char>, d: Delimiter, from: int)
    requires
        0 <= from <= s.len(),
    ensures
        from <= skip_delimiters(s, d, from) <= s.len(),
        forall|j: int| from <= j < skip_delimiters(s, d, from) ==> d.holds(#[trigger] s[j]),
        skip_delimiters(s, d, from) < s.len() ==> !d.holds(s[skip_delimiters(s, d, from)]),
    decreases s.len() - from,
{
    if from < s.len() && d.holds(s[from]) {
        lemma_skip_delimiters(s, d, from + 1);
    }
}

/// Where `skip_token` stops: at or after `from`, within `s`, with no delimiter
/// in between and one at the stop.
pub proof fn lemma_skip_token(s: Seq<char>, d: Delimiter, from: int)
    requires
        0 <= from <= s.len(),
    ensures
        from <= skip_token(s, d, from) <= s.len(),
        forall|j: int| from <= j < skip_token(s, d, from) ==> !d.holds(#[trigger] s[j]),
        skip_token(s, d, from) < s.len() ==> d.holds(s[skip_token(s, d, from)]),
    decreases s.len() - from,
{
    if from < s.len() && !d.holds(s[from]) {
        lemma_skip_token(s, d, from + 1);
    }
}

/// A text that holds nothing but delimiters has no token.
pub proof fn lemma_tokens_of_delimiters(s: Seq<char>, d: Delimiter)
    requires
        forall|j: int| 0 <= j < s.len() ==> d.holds(#[trigger] s[j]),
    ensures
        tokens(s, d).len() == 0,
{
    lemma_skip_delimiters(s, d, 0);
    let start = skip_delimiters(s, d, 0);
    if start < s.len() {
        assert(d.holds(s[start]));
    }
    lemma_skip_token(s, d, start);
}

/// A token is never empty and holds no delimiter.
pub proof fn lemma_tokens_from(s: Seq<char>, d: Delimiter, from: int)
    requires
        0 <= from <= s.len(),
    ensures
        forall|k: int|
            0 <= k < tokens_from(s, d, from).len() ==> (#[trigger] tokens_from(s, d, from)[k]).len()
                > 0,
        forall|k: int, j: int|
            0 <= k < tokens_from(s, d, from).len() && 0 <= j < tokens_from(s, d, from)[k].len()
                ==> !d.holds(#[trigger] tokens_from(s, d, from)[k][j]),
    decreases s.len() - from,
{
    lemma_skip_delimiters(s, d, from);
    let start = skip_delimiters(s, d, from);
    lemma_skip_token(s, d, start);
    let end = skip_token(s, d, start);
    if start < end {
        lemma_tokens_from(s, d, end);
        let rest = tokens_from(s, d, end);
        let all = tokens_from(s, d, from);
        assert(all =~= seq![s.subrange(start, end)] + rest);
        assert forall|k: int| 0 <= k < all.len() implies (#[trigger] all[k]).len() > 0 by {
            if k > 0 {
                assert(all[k] == rest[k - 1]);
            }
        }
        assert forall|k: int, j: int| 0 <= k < all.len() && 0 <= j < all[k].len() implies !d.holds(
            #[trigger] all[k][j],
        ) by {
            if k > 0 {
                assert(all[k] == rest[k - 1]);
            } else {
                assert(all[0][j] == s[start + j]);
            }
        }
    }
}

/// The index after the delimiters that begin at `from`, on a character vector.
pub fn after_delimiters(s: &Vec<char>, d: Delimiter, from: usize) -> (r: usize)
    requires
        from <= s.len(),
    ensures
        r == skip_delimiters(s@, d, from as int),
        from <= r <= s.len(),
{
    let mut i: usize = from;
    while i < s.len() && d.separates(s[i])
        invariant
            from <= i <= s.len(),
            skip_delimiters(s@, d, from as int) == skip_delimiters(s@, d, i as int),
        decreases s.len() - i,
    {
        i = i + 1;
    }
    i
}

/// The index after the token that begins at `from`, on a character vector.
pub fn after_token(s: &Vec<char>, d: Delimiter, from: usize) -> (r: usize)
    requires
        from <= s.len(),
    ensures
        r == skip_token(s@, d, from as int),
        from <= r <= s.len(),
{
    let mut i: usize = from;
    while i < s.len() && !d.separates(s[i])
        invariant
            from <= i <= s.len(),
            skip_token(s@, d, from as int) == skip_token(s@, d, i as int),
        decreases s.len() - i,
    {
        i = i + 1;
    }
    i
}

/// The tokens of `s` between the delimiters of class `d`, in order.
pub fn split_tokens(s: &str, d: Delimiter) -> (r: Vec<String>)
    ensures
        r.deep_view() == tokens(s@, d),
{
    let cs = to_chars(s);
    let mut out: Vec<String> = Vec::new();
    let mut i: usize = 0;
    loop
        invariant
            cs@ == s@,
            i <= cs.len(),
            out.deep_view() + tokens_from(s@, d, i as int) == tokens(s@, d),
        decreases cs.len() - i,
    {
        let start = after_delimiters(&cs, d, i);
        let end = after_token(&cs, d, start);
        if start >= end {
            assert(tokens_from(s@, d, i as int) =~= Seq::empty());
            assert(out.deep_view() + Seq::<Seq<char>>::empty() =~= out.deep_view());
            return out;
        }
        let token = text_of(&cs, start, end);
        let ghost before = out.deep_view();
        out.push(token);
        proof {
            assert(out.deep_view() =~= before.push(token@));
            assert(before.push(token@) + tokens_from(s@, d, end as int) =~= before + (seq![token@]
                + tokens_from(s@, d, end as int)));
        }
        i = end;
    }
}

/// The whitespace-separated words of `s`, in order.
pub fn split_whitespace(s: &str) -> (r: Vec<String>)
    ensures
        r.deep_view() == words(s@),
{
    split_tokens(s, Delimiter::Whitespace)
}

/// The first index from `from` on that holds `c`; the length of `s` where
/// none does.
pub open spec fn position_from(s: Seq<char>, c: char, from: int) -> int
    decreases s.len() - from,
{
    if 0 <= from < s.len() && s[from] != c {
        position_from(s, c, from + 1)
    } else {
        from
    }
}

/// The index of the first `c` in `s`; the length of `s` where it holds none.
pub open spec fn position(s: Seq<char>, c: char) -> int {
    position_from(s, c, 0)
}

/// The parts of `s` from `from` on that lie between the occurrences of `c`:
/// one more than there are occurrences, empty parts included.
pub open spec fn pieces_from(s: Seq<char>, c: char, from: int) -> Seq<Seq<char>>
    decreases s.len() - from,
{
    let at = position_from(s, c, from);
    if 0 <= from <= at && at < s.len() {
        seq![s.subrange(from, at)] + pieces_from(s, c, at + 1)
    } else {
        seq![s.subrange(from, s.len() as int)]
    }
}

/// The parts of `s` between the occurrences of `c`.
pub open spec fn pieces(s: Seq<char>, c: char) -> Seq<Seq<char>> {
    pieces_from(s, c, 0)
}

/// Where `position_from` stops: at or after `from`, within `s`, with no `c`
/// in between and a `c` at the stop.
pub proof fn lemma_position_from(s: Seq<char>, c: char, from: int)
    requires
        0 <= from <= s.len(),
    ensures
        from <= position_from(s, c, from) <= s.len(),
        forall|j: int| from <= j < position_from(s, c, from) ==> #[trigger] s[j] != c,
        position_from(s, c, from) < s.len() ==> s[position_from(s, c, from)] == c,
    decreases s.len() - from,
{
    if from < s.len() && s[from] != c {
        lemma_position_from(s, c, from + 1);
    }
}

/// There is always a first piece, and no piece holds the separator.
pub proof fn lemma_pieces_from(s: Seq<char>, c: char, from: int)
    requires
        0 <= from <= s.len(),
    ensures
        pieces_from(s, c, from).len() >= 1,
        forall|k: int, j: int|
            0 <= k < pieces_from(s, c, from).len() && 0 <= j < pieces_from(s, c, from)[k].len()
                ==> #[trigger] pieces_from(s, c, from)[k][j] != c,
    decreases s.len() - from,
{
    lemma_position_from(s, c, from);
    let at = position_from(s, c, from);
    let all = pieces_from(s, c, from);
    if at < s.len() {
        lemma_pieces_from(s, c, at + 1);
        let rest = pieces_from(s, c, at + 1);
        assert(all =~= seq![s.subrange(from, at)] + rest);
        assert forall|k: int, j: int| 0 <= k < all.len() && 0 <= j < all[k].len() implies #[trigger] all[k][j]
            != c by {
            if k > 0 {
                assert(all[k] == rest[k - 1]);
            } else {
                assert(all[0][j] == s[from + j]);
            }
        }
    } else {
        assert forall|k: int, j: int| 0 <= k < all.len() && 0 <= j < all[k].len() implies #[trigger] all[k][j]
            != c by {
            assert(all[0][j] == s[from + j]);
        }
    }
}

/// The index of the first `c` from `from` on, on a character vector.
pub fn index_of_from(s: &Vec<char>, c: char, from: usize) -> (r: usize)
    requires
        from <= s.len(),
    ensures
        r == position_from(s@, c, from as int),
        from <= r <= s.len(),
{
    let mut i: usize = from;
    while i < s.len() && s[i] != c
        invariant
            from <= i <= s.len(),
            position_from(s@, c, from as int) == position_from(s@, c, i as int),
        decreases s.len() - i,
    {
        i = i + 1;
    }
    i
}

/// The parts of `s` between the occurrences of `c`, empty parts included.
pub fn split(s: &str, c: char) -> (r: Vec<String>)
    ensures
        r.deep_view() == pieces(s@, c),
{
    let cs = to_chars(s);
    let mut out: Vec<String> = Vec::new();
    let mut i: usize = 0;
    loop
        invariant
            cs@ == s@,
            i <= cs.len(),
            out.deep_view() + pieces_from(s@, c, i as int) == pieces(s@, c),
        decreases cs.len() - i,
    {
        let at = index_of_from(&cs, c, i);
        let piece = text_of(&cs, i, at);
        let ghost before = out.deep_view();
        out.push(piece);
        proof {
            assert(out.deep_view() =~= before.push(piece@));
        }
        if at >= cs.len() {
            proof {
                assert(before.push(piece@) =~= before + pieces_from(s@, c, i as int));
            }
            return out;
        }
        proof {
            assert(before.push(piece@) + pieces_from(s@, c, at + 1) =~= before + (seq![piece@]
                + pieces_from(s@, c, at + 1)));
        }
        i = at + 1;
    }
}

/// The end of `s[..upto]` once the whitespace at its end is left out.
pub open spec fn trim_end_index(s: Seq<char>, upto: int) -> int
    decreases upto,
{
    if 0 < upto <= s.len() && is_whitespace(s[upto - 1]) {
        trim_end_index(s, upto - 1)
    } else {
        upto
    }
}

/// `s` without the whitespace at its beginning and at its end.
pub open spec fn trimmed(s: Seq<char>) -> Seq<char> {
    let start = skip_delimiters(s, Delimiter::Whitespace, 0);
    let end = trim_end_index(s, s.len() as int);
    if start <= end {
        s.subrange(start, end)
    } else {
        Seq::empty()
    }
}

/// Where `trim_end_index` stops: at or before `upto`, with only whitespace
/// behind it and none just before it.
pub proof fn lemma_trim_end_index(s: Seq<char>, upto: int)
    requires
        0 <= upto <= s.len(),
    ensures
        0 <= trim_end_index(s, upto) <= upto,
        forall|j: int| trim_end_index(s, upto) <= j < upto ==> is_whitespace(#[trigger] s[j]),
        trim_end_index(s, upto) > 0 ==> !is_whitespace(s[trim_end_index(s, upto) - 1]),
    decreases upto,
{
    if 0 < upto && is_whitespace(s[upto - 1]) {
        lemma_trim_end_index(s, upto - 1);
    }
}

/// The index behind the last character of `s` that is no whitespace.
pub fn before_trailing_whitespace(s: &Vec<char>) -> (r: usize)
    ensures
        r == trim_end_index(s@, s@.len() as int),
        r <= s.len(),
{
    let mut i: usize = s.len();
    while i > 0 && whitespace(s[i - 1])
        invariant
            i <= s.len(),
            trim_end_index(s@, s@.len() as int) == trim_end_index(s@, i as int),
        decreases i,
    {
        i = i - 1;
    }
    i
}

/// `s` without the whitespace at its beginning and at its end.
pub fn trim(s: &str) -> (r: String)
    ensures
        r@ == trimmed(s@),
{
    let cs = to_chars(s);
    let start = after_delimiters(&cs, Delimiter::Whitespace, 0);
    let end = before_trailing_whitespace(&cs);
    if start <= end {
        text_of(&cs, start, end)
    } else {
        String::new()
    }
}

/// What stands in `s` before the first `c`: all of `s` where it holds none.
pub open spec fn before_first(s: Seq<char>, c: char) -> Seq<char> {
    s.subrange(0, position(s, c))
}

/// What stands in `s` after the first `c`: nothing where it holds none.
pub open spec fn after_first(s: Seq<char>, c: char) -> Seq<char> {
    if position(s, c) < s.len() {
        s.subrange(position(s, c) + 1, s.len() as int)
    } else {
        Seq::empty()
    }
}

/// `s` cut in two at its first `c`, which belongs to neither part.
pub fn cut(s: &str, c: char) -> (r: (String, String))
    ensures
        r.0@ == before_first(s@, c),
        r.1@ == after_first(s@, c),
{
    let cs = to_chars(s);
    let at = index_of_from(&cs, c, 0);
    let head = text_of(&cs, 0, at);
    let tail = if at < cs.len() {
        text_of(&cs, at + 1, cs.len())
    } else {
        String::new()
    };
    (head, tail)
}

/// What stands in `s` before its first `c`.
pub fn first_piece(s: &str, c: char) -> (r: String)
    ensures
        r@ == before_first(s@, c),
{
    let cs = to_chars(s);
    let at = index_of_from(&cs, c, 0);
    text_of(&cs, 0, at)
}

} // verus!
