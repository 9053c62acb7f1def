//! Counting the arguments of a command: the whitespace-separated tokens of
//! the text that follows the command's name.

use vstd::prelude::*;
use crate::text::chars::is_whitespace;
use crate::text::split::{lemma_tokens_of_delimiters, split_whitespace, words, Delimiter};

verus! {

/// The number of arguments in `args`.
pub open spec fn arg_count(args: Seq<char>) -> nat {
    words(args).len()
}

/// Whether `args` holds `n` arguments or more.
pub fn has_at_least_n_args(args: &str, n: usize) -> (r: bool)
    ensures
        r == (arg_count(args@) >= n),
{
    let tokens = split_whitespace(args);
    assert(tokens.deep_view().len() == tokens.len());
    tokens.len() >= n
}

/// Whether `args` holds an argument.
pub fn has_at_least_one_arg(args: &str) -> (r: bool)
    ensures
        r == (arg_count(args@) >= 1),
{
    has_at_least_n_args(args, 1)
}

/// Whether `args` holds two arguments or more.
pub fn has_more_than_one_arg(args: &str) -> (r: bool)
    ensures
        r == (arg_count(args@) > 1),
{
    has_at_least_n_args(args, 2)
}

/// Whether `args` holds four arguments or more.
pub fn has_at_least_four_args(args: &str) -> (r: bool)
    ensures
        r == (arg_count(args@) >= 4),
{
    has_at_least_n_args(args, 4)
}

/// A text that is empty or holds nothing but whitespace has no argument.
pub proof fn lemma_blank_has_no_args(args: Seq<char>)
    requires
        forall|i: int| 0 <= i < args.len() ==> is_whitespace(#[trigger] args[i]),
    ensures
        arg_count(args) == 0,
{
    assert forall|i: int| 0 <= i < args.len() implies Delimiter::Whitespace.holds(
        #[trigger] args[i],
    ) by {}
    lemma_tokens_of_delimiters(args, Delimiter::Whitespace);
}

} // verus!
