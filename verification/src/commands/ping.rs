//! The command that answers a ping.

use vstd::prelude::*;
use crate::commands::outcome::{Outcome, OutcomeView};
use crate::commands::registry::Registry;
use crate::commands::{BuiltinCommand, Command};

verus! {

/// Answers a ping.
#[derive(Clone, Copy, Debug, Default, PartialEq, Eq)]
pub struct Ping;

impl Command for Ping {
    open spec fn label(&self) -> Seq<char> {
        "ping"@
    }

    open spec fn privileged(&self) -> bool {
        false
    }

    open spec fn outcome(
        &self,
        registry: Seq<BuiltinCommand>,
        args: Seq<char>,
        sender: Seq<char>,
    ) -> OutcomeView {
        OutcomeView::reply("Pong!"@)
    }

    fn name(&self) -> (r: &'static str) {
        "ping"
    }

    fn requires_trust(&self) -> (r: bool) {
        false
    }

    fn execute(&self, registry: &Registry, args: &str, sender: &str) -> (r: Outcome) {
        Outcome::reply("Pong!".to_owned())
    }
}

} // verus!
