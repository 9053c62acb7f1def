//! The command that tells the odds of drawing cards from a deck.

use vstd::prelude::*;
use crate::commands::outcome::{
    concat2,
    Action,
    ActionView,
    Level,
    OddsParams,
    Outcome,
    OutcomeView,
};
use crate::commands::registry::Registry;
use crate::commands::{BuiltinCommand, Command};
use crate::helpers::arg_count;
use crate::text::number::{decimal_digits, parse_u64, parsed_u64, push_decimal};
use crate::text::split::{split_whitespace, words};

verus! {

/// Tells the odds of drawing cards from a deck.
#[derive(Clone, Copy, Debug, Default, PartialEq, Eq)]
pub struct Odds;

/// How the command is to be called.
pub open spec fn usage() -> Seq<char> {
    "USAGE: odds <Deck Size> <Number of Successes> <Number of Draws> <Successes Needed>"@
}

/// What the arguments give: the four numbers, or the text that the sender
/// gets. There must be four arguments or more, the first four must be
/// numbers, and neither the successes nor the draws may exceed the deck.
pub open spec fn parsed(args: Seq<char>) -> Result<OddsParams, Seq<char>> {
    if arg_count(args) < 4 {
        Err(usage())
    } else {
        let parts = words(args);
        match (parsed_u64(parts[0]), parsed_u64(parts[1]), parsed_u64(parts[2]), parsed_u64(parts[3])) {
            (Some(deck_size), Some(num_successes), Some(num_draws), Some(min_successes)) => {
                if num_successes > deck_size || num_draws > deck_size {
                    Err("Error: More successes or draws than cards in deck."@)
                } else {
                    Ok(OddsParams { deck_size, num_successes, num_draws, min_successes })
                }
            },
            _ => Err(usage()),
        }
    }
}

/// The answer that tells the odds, with the percentage as it was computed.
pub open spec fn odds_text(params: OddsParams, percentage: Seq<char>) -> Seq<char> {
    "Odds of drawing "@ + decimal_digits(params.min_successes as nat) + " or more of "@
        + decimal_digits(params.num_successes as nat) + " cards from "@ + decimal_digits(
        params.num_draws as nat,
    ) + " draws in a "@ + decimal_digits(params.deck_size as nat) + " card deck: "@ + percentage
        + "%"@
}

/// What the sender gets once the odds are computed: the answer with the
/// percentage, or an excuse where there is none, with the arguments in the
/// log.
pub open spec fn replied(params: OddsParams, args: Seq<char>, percentage: Option<Seq<char>>) -> OutcomeView {
    match percentage {
        Some(p) => OutcomeView::reply(odds_text(params, p)),
        None => OutcomeView::noted(
            "Error creating hypergeometric distribution."@,
            Level::Error,
            "Error creating hypergeometric distribution: "@ + args,
        ),
    }
}

/// The four numbers, taken from the arguments.
pub fn parse_odds_args(args: &str) -> (r: Result<OddsParams, String>)
    ensures
        match r {
            Ok(params) => parsed(args@) == Ok::<OddsParams, Seq<char>>(params),
            Err(message) => parsed(args@) == Err::<OddsParams, Seq<char>>(message@),
        },
{
    let parts = split_whitespace(args);
    assert(parts.deep_view().len() == parts.len());
    if parts.len() < 4 {
        return Err(
            "USAGE: odds <Deck Size> <Number of Successes> <Number of Draws> <Successes Needed>".to_owned(),
        );
    }
    assert(parts.deep_view()[0] == parts[0]@);
    assert(parts.deep_view()[1] == parts[1]@);
    assert(parts.deep_view()[2] == parts[2]@);
    assert(parts.deep_view()[3] == parts[3]@);
    let deck_size = parse_u64(parts[0].as_str());
    let num_successes = parse_u64(parts[1].as_str());
    let num_draws = parse_u64(parts[2].as_str());
    let min_successes = parse_u64(parts[3].as_str());
    match (deck_size, num_successes, num_draws, min_successes) {
        (Some(deck_size), Some(num_successes), Some(num_draws), Some(min_successes)) => {
            if num_successes > deck_size || num_draws > deck_size {
                return Err("Error: More successes or draws than cards in deck.".to_owned());
            }
            Ok(OddsParams { deck_size, num_successes, num_draws, min_successes })
        },
        _ => Err(
            "USAGE: odds <Deck Size> <Number of Successes> <Number of Draws> <Successes Needed>".to_owned(),
        ),
    }
}

/// What the sender gets once the odds are computed. The percentage comes as
/// the text to show, or not at all where the distribution could not be made.
pub fn reply(params: OddsParams, args: &str, percentage: Option<&str>) -> (r: Outcome)
    ensures
        r@ == replied(
            params,
            args@,
            match percentage {
                Some(p) => Some(p@),
                None => None,
            },
        ),
{
    match percentage {
        Some(p) => {
            let mut text = "Odds of drawing ".to_owned();
            push_decimal(&mut text, params.min_successes);
            text.append(" or more of ");
            push_decimal(&mut text, params.num_successes);
            text.append(" cards from ");
            push_decimal(&mut text, params.num_draws);
            text.append(" draws in a ");
            push_decimal(&mut text, params.deck_size);
            text.append(" card deck: ");
            text.append(p);
            text.append("%");
            Outcome::reply(text)
        },
        None => Outcome::noted(
            "Error creating hypergeometric distribution.".to_owned(),
            Level::Error,
            concat2("Error creating hypergeometric distribution: ", args),
        ),
    }
}

impl Command for Odds {
    open spec fn label(&self) -> Seq<char> {
        "odds"@
    }

    open spec fn privileged(&self) -> bool {
        false
    }

    open spec fn outcome(
        &self,
        registry: Seq<BuiltinCommand>,
        args: Seq<char>,
        sender: Seq<char>,
    ) -> OutcomeView {
        match parsed(args) {
            Ok(params) => OutcomeView::act(ActionView::ComputeOdds { params }),
            Err(message) => OutcomeView::reply(message),
        }
    }

    fn name(&self) -> (r: &'static str) {
        "odds"
    }

    fn requires_trust(&self) -> (r: bool) {
        false
    }

    fn execute(&self, registry: &Registry, args: &str, sender: &str) -> (r: Outcome) {
        match parse_odds_args(args) {
            Ok(params) => Outcome::act(Action::ComputeOdds { params }),
            Err(message) => Outcome::reply(message),
        }
    }
}

/// The numbers that come out of the arguments fit together: neither the
/// successes nor the draws exceed the deck.
pub proof fn lemma_parsed_fits(args: Seq<char>)
    ensures
        parsed(args) matches Ok(p) ==> p.num_successes <= p.deck_size && p.num_draws
            <= p.deck_size,
{
}

} // verus!
