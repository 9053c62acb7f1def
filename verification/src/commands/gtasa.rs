//! The command that quotes a line of a file, picked at random among the lines
//! that hold the word that was asked for.

use vstd::prelude::*;
use crate::chance::random_below;
use crate::commands::outcome::{Action, ActionView, Outcome, OutcomeView};
use crate::commands::registry::Registry;
use crate::commands::{BuiltinCommand, Command};
use crate::helpers::arg_count;
use crate::text::edit::{line_list, lines, lowered, to_ascii_lowercase};
use crate::text::scan::{contains, occurs};
use crate::text::split::{split_whitespace, trim, trimmed, words};

verus! {

/// Quotes a line of the file of quotes.
#[derive(Clone, Copy, Debug, Default, PartialEq, Eq)]
pub struct Gta;

/// The word to look for: the first argument, where there is one.
pub open spec fn target_of(args: Seq<char>) -> Option<Seq<char>> {
    if arg_count(args) >= 1 {
        Some(words(args)[0])
    } else {
        None
    }
}

/// Each of `all` without the whitespace around it, the empty ones left out.
pub open spec fn kept(all: Seq<Seq<char>>) -> Seq<Seq<char>> {
    all.map_values(|line: Seq<char>| trimmed(line)).filter(|line: Seq<char>| line.len() > 0)
}

/// The lines of a file that count: each line without the whitespace around
/// it, the empty ones left out.
pub open spec fn file_lines(content: Seq<char>) -> Seq<Seq<char>> {
    kept(line_list(content))
}

/// Whether the line holds the target, the case of ASCII letters left aside.
/// Every line holds no target.
pub open spec fn holds_target(line: Seq<char>, target: Option<Seq<char>>) -> bool {
    match target {
        Some(t) => occurs(lowered(line), lowered(t)),
        None => true,
    }
}

/// The lines that hold the target, in order.
pub open spec fn candidates(all: Seq<Seq<char>>, target: Option<Seq<char>>) -> Seq<Seq<char>> {
    all.filter(|line: Seq<char>| holds_target(line, target))
}

/// What one more line adds to the lines that count.
proof fn lemma_kept_step(all: Seq<Seq<char>>, i: int)
    requires
        0 <= i < all.len(),
    ensures
        kept(all.take(i + 1)) == if trimmed(all[i]).len() > 0 {
            kept(all.take(i)).push(trimmed(all[i]))
        } else {
            kept(all.take(i))
        },
{
    reveal(Seq::filter);
    let trims = all.take(i + 1).map_values(|line: Seq<char>| trimmed(line));
    assert(trims.drop_last() =~= all.take(i).map_values(|line: Seq<char>| trimmed(line)));
    assert(trims.last() == trimmed(all[i]));
}

/// What one more line adds to the lines that hold the target.
proof fn lemma_candidates_step(all: Seq<Seq<char>>, target: Option<Seq<char>>, i: int)
    requires
        0 <= i < all.len(),
    ensures
        candidates(all.take(i + 1), target) == if holds_target(all[i], target) {
            candidates(all.take(i), target).push(all[i])
        } else {
            candidates(all.take(i), target)
        },
{
    reveal(Seq::filter);
    assert(all.take(i + 1).drop_last() =~= all.take(i));
    assert(all.take(i + 1).last() == all[i]);
}

/// No line counts among no lines, and none holds the target.
proof fn lemma_nothing_kept(target: Option<Seq<char>>)
    ensures
        kept(Seq::empty()) == Seq::<Seq<char>>::empty(),
        candidates(Seq::empty(), target) == Seq::<Seq<char>>::empty(),
{
    reveal(Seq::filter);
    assert(Seq::<Seq<char>>::empty().map_values(|line: Seq<char>| trimmed(line))
        =~= Seq::<Seq<char>>::empty());
}

/// The target as a text, where there is one.
pub open spec fn target_view(target: Option<&str>) -> Option<Seq<char>> {
    match target {
        Some(t) => Some(t@),
        None => None,
    }
}

/// The lines of a file that count.
pub fn read_lines(content: &str) -> (r: Vec<String>)
    ensures
        r.deep_view() == file_lines(content@),
{
    let all = lines(content);
    let mut out: Vec<String> = Vec::new();
    let mut i: usize = 0;
    proof {
        lemma_nothing_kept(None);
        assert(all.deep_view().take(0) =~= Seq::<Seq<char>>::empty());
        assert(out.deep_view() =~= Seq::<Seq<char>>::empty());
    }
    while i < all.len()
        invariant
            i <= all.len(),
            all.deep_view() == line_list(content@),
            out.deep_view() == kept(all.deep_view().take(i as int)),
        decreases all.len() - i,
    {
        assert(all.deep_view()[i as int] == all[i as int]@);
        proof {
            lemma_kept_step(all.deep_view(), i as int);
        }
        let line = trim(all[i].as_str());
        if !line.as_str().is_empty() {
            let ghost before = out.deep_view();
            out.push(line);
            assert(out.deep_view() =~= before.push(trimmed(all.deep_view()[i as int])));
        }
        i = i + 1;
    }
    assert(all.deep_view().take(all.len() as int) =~= all.deep_view());
    out
}

/// The lines that hold the target, in order; all the lines where there is no
/// target.
pub fn filter_lines(all: &Vec<String>, target: Option<&str>) -> (r: Vec<String>)
    ensures
        r.deep_view() == candidates(all.deep_view(), target_view(target)),
{
    let mut out: Vec<String> = Vec::new();
    let mut i: usize = 0;
    proof {
        lemma_nothing_kept(target_view(target));
        assert(all.deep_view().take(0) =~= Seq::<Seq<char>>::empty());
        assert(out.deep_view() =~= Seq::<Seq<char>>::empty());
    }
    while i < all.len()
        invariant
            i <= all.len(),
            out.deep_view() == candidates(all.deep_view().take(i as int), target_view(target)),
        decreases all.len() - i,
    {
        assert(all.deep_view()[i as int] == all[i as int]@);
        proof {
            lemma_candidates_step(all.deep_view(), target_view(target), i as int);
        }
        let keep = match target {
            Some(t) => {
                let low_line = to_ascii_lowercase(all[i].as_str());
                let low_target = to_ascii_lowercase(t);
                contains(low_line.as_str(), low_target.as_str())
            },
            None => true,
        };
        if keep {
            let ghost before = out.deep_view();
            let line = all[i].clone();
            assert(line@ == all[i as int]@);
            out.push(line);
            assert(out.deep_view() =~= before.push(all[i as int]@));
        }
        i = i + 1;
    }
    assert(all.deep_view().take(all.len() as int) =~= all.deep_view());
    out
}

/// The line at `index`, where there is one.
pub fn line_at(filtered: &Vec<String>, index: usize) -> (r: Option<String>)
    ensures
        match r {
            Some(line) => index < filtered.len() && line@ == filtered.deep_view()[index as int],
            None => index >= filtered.len(),
        },
{
    if index < filtered.len() {
        assert(filtered.deep_view()[index as int] == filtered[index as int]@);
        let line = filtered[index].clone();
        Some(line)
    } else {
        None
    }
}

/// One of the lines that hold the target, picked at random; none where no
/// line holds it.
pub fn choose_line(all: &Vec<String>, target: Option<&str>) -> (r: Option<String>)
    ensures
        r is None <==> candidates(all.deep_view(), target_view(target)).len() == 0,
        r matches Some(line) ==> candidates(all.deep_view(), target_view(target)).contains(line@),
{
    let filtered = filter_lines(all, target);
    assert(filtered.deep_view().len() == filtered.len());
    if filtered.len() == 0 {
        None
    } else {
        let index = random_below(filtered.len());
        line_at(&filtered, index)
    }
}

/// What the sender gets: a line of the file, nothing where no line holds the
/// target, or an excuse where the file could not be read.
pub fn reply(content: Option<&str>, target: Option<&str>) -> (r: String)
    ensures
        match content {
            None => r@ == "Error reading file"@,
            Some(c) => {
                let found = candidates(file_lines(c@), target_view(target));
                if found.len() == 0 {
                    r@ == Seq::<char>::empty()
                } else {
                    found.contains(r@)
                }
            },
        },
{
    match content {
        None => "Error reading file".to_owned(),
        Some(c) => {
            let all = read_lines(c);
            assert(all.deep_view().len() == all.len());
            match choose_line(&all, target) {
                Some(line) => line,
                None => String::new(),
            }
        },
    }
}

impl Command for Gta {
    open spec fn label(&self) -> Seq<char> {
        "gtasa"@
    }

    open spec fn privileged(&self) -> bool {
        false
    }

    open spec fn outcome(
        &self,
        registry: Seq<BuiltinCommand>,
        args: Seq<char>,
        sender: Seq<char>,
    ) -> OutcomeView {
        OutcomeView::act(ActionView::PickLine { target: target_of(args) })
    }

    fn name(&self) -> (r: &'static str) {
        "gtasa"
    }

    fn requires_trust(&self) -> (r: bool) {
        false
    }

    fn execute(&self, registry: &Registry, args: &str, sender: &str) -> (r: Outcome) {
        let tokens = split_whitespace(args);
        assert(tokens.deep_view().len() == tokens.len());
        let target = if tokens.len() >= 1 {
            assert(tokens.deep_view()[0] == tokens[0]@);
            Some(tokens[0].clone())
        } else {
            None
        };
        Outcome::act(Action::PickLine { target })
    }
}

} // verus!
