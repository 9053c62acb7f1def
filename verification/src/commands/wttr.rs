//! The command that tells the weather of a place.

use vstd::prelude::*;
use crate::commands::outcome::{concat2, Action, ActionView, Level, Outcome, OutcomeView};
use crate::commands::registry::Registry;
use crate::commands::{BuiltinCommand, Command};
use crate::text::edit::{replace, replaced};

verus! {

/// Tells the weather of a place.
#[derive(Clone, Copy, Debug, Default, PartialEq, Eq)]
pub struct Wttr;

/// The address that holds the weather of the place that `args` names: the
/// place with a plus sign for each space, then the format of the answer and
/// the choice of metric units.
pub open spec fn weather_url(args: Seq<char>) -> Seq<char> {
    "https://wttr.in/"@ + replaced(args, " "@, "+"@) + "?format="@
        + "%l: %c \u{1F321}\u{FE0F}%t\\n"@ + "&m"@
}

/// What the sender gets once the fetch has ended: the text that came, or an
/// excuse where none came, with the reason in the log.
pub open spec fn replied(fetched: Result<Seq<char>, Seq<char>>) -> OutcomeView {
    match fetched {
        Ok(body) => OutcomeView::reply(body),
        Err(reason) => OutcomeView::noted(
            "Could not retrieve weather data."@,
            Level::Error,
            "Failed to fetch weather: "@ + reason,
        ),
    }
}

/// The address that holds the weather of the place that `args` names.
pub fn build_weather_url(args: &str) -> (r: String)
    ensures
        r@ == weather_url(args@),
{
    let location = replace(args, " ", "+");
    let mut url = concat2("https://wttr.in/", location.as_str());
    url.append("?format=");
    url.append("%l: %c \u{1F321}\u{FE0F}%t\\n");
    url.append("&m");
    url
}

/// What the sender gets once the fetch has ended; an error comes as the text
/// that describes it.
pub fn reply(fetched: Result<String, String>) -> (r: Outcome)
    ensures
        r@ == replied(
            match fetched {
                Ok(body) => Ok(body@),
                Err(reason) => Err(reason@),
            },
        ),
{
    match fetched {
        Ok(body) => Outcome::reply(body),
        Err(reason) => Outcome::noted(
            "Could not retrieve weather data.".to_owned(),
            Level::Error,
            concat2("Failed to fetch weather: ", reason.as_str()),
        ),
    }
}

impl Command for Wttr {
    open spec fn label(&self) -> Seq<char> {
        "clima"@
    }

    open spec fn privileged(&self) -> bool {
        false
    }

    open spec fn outcome(
        &self,
        registry: Seq<BuiltinCommand>,
        args: Seq<char>,
        sender: Seq<char>,
    ) -> OutcomeView {
        OutcomeView::act(ActionView::FetchWeather { url: weather_url(args) })
    }

    fn name(&self) -> (r: &'static str) {
        "clima"
    }

    fn requires_trust(&self) -> (r: bool) {
        false
    }

    fn execute(&self, registry: &Registry, args: &str, sender: &str) -> (r: Outcome) {
        Outcome::act(Action::FetchWeather { url: build_weather_url(args) })
    }
}

} // verus!
