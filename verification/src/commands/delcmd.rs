//! The command that deletes a custom command.

use vstd::prelude::*;
use crate::commands::names::{is_command_name, is_valid_command_name};
use crate::commands::outcome::{
    concat3,
    Action,
    ActionView,
    Level,
    Outcome,
    OutcomeView,
    StoreRequest,
    StoreRequestView,
};
use crate::commands::registry::{is_builtin, registered, Registry};
use crate::commands::{BuiltinCommand, Command};
use crate::helpers::{arg_count, has_at_least_n_args};
use crate::text::split::{before_first, first_piece};

verus! {

/// Deletes a custom command.
#[derive(Clone, Copy, Debug, Default, PartialEq, Eq)]
pub struct DelCmd;

/// What the arguments give: the name of the command to delete, or the
/// rejection that the sender gets.
pub open spec fn parsed(args: Seq<char>, sender: Seq<char>) -> Result<Seq<char>, OutcomeView> {
    let name = before_first(args, ' ');
    if arg_count(args) < 1 {
        Err(OutcomeView::reply("@"@ + sender + " USAGE: delcmd <name>"@))
    } else if !is_command_name(name) {
        Err(
            OutcomeView::noted(
                "Command name can only contain letters and numbers."@,
                Level::Error,
                sender + " tried to delete an invalid command name: "@ + name,
            ),
        )
    } else {
        Ok(name)
    }
}

/// What is done about a well-formed name: a built-in command is left alone,
/// any other name goes to the store.
pub open spec fn handled(registry: Seq<BuiltinCommand>, name: Seq<char>, sender: Seq<char>) -> OutcomeView {
    if registered(registry, name) is Some {
        OutcomeView::noted(
            "The command you are trying to delete already is a built-in command."@,
            Level::Error,
            sender + " tried to delete a built-in command: "@ + name,
        )
    } else {
        OutcomeView::act(
            ActionView::Store {
                request: StoreRequestView::Delete { name },
                reply: "Command deleted!"@,
            },
        )
    }
}

/// The name of the command to delete, taken from the arguments.
pub fn parse_args(args: &str, sender: &str) -> (r: Result<String, Outcome>)
    ensures
        match r {
            Ok(name) => parsed(args@, sender@) == Ok::<Seq<char>, OutcomeView>(name@),
            Err(rejection) => parsed(args@, sender@) == Err::<Seq<char>, OutcomeView>(rejection@),
        },
{
    if !has_at_least_n_args(args, 1) {
        return Err(Outcome::reply(concat3("@", sender, " USAGE: delcmd <name>")));
    }
    let name = first_piece(args, ' ');
    if !is_valid_command_name(name.as_str()) {
        return Err(
            Outcome::noted(
                "Command name can only contain letters and numbers.".to_owned(),
                Level::Error,
                concat3(sender, " tried to delete an invalid command name: ", name.as_str()),
            ),
        );
    }
    Ok(name)
}

/// Asks the store to delete the command, unless the name is that of a
/// built-in command.
pub fn handle_command(registry: &Registry, name: String, sender: &str) -> (r: Outcome)
    ensures
        r@ == handled(registry@, name@, sender@),
{
    if is_builtin(registry, name.as_str()) {
        return Outcome::noted(
            "The command you are trying to delete already is a built-in command.".to_owned(),
            Level::Error,
            concat3(sender, " tried to delete a built-in command: ", name.as_str()),
        );
    }
    Outcome::act(
        Action::Store {
            request: StoreRequest::Delete { name },
            reply: "Command deleted!".to_owned(),
        },
    )
}

impl Command for DelCmd {
    open spec fn label(&self) -> Seq<char> {
        "delcmd"@
    }

    open spec fn privileged(&self) -> bool {
        true
    }

    open spec fn outcome(
        &self,
        registry: Seq<BuiltinCommand>,
        args: Seq<char>,
        sender: Seq<char>,
    ) -> OutcomeView {
        match parsed(args, sender) {
            Ok(name) => handled(registry, name, sender),
            Err(rejection) => rejection,
        }
    }

    fn name(&self) -> (r: &'static str) {
        "delcmd"
    }

    fn requires_trust(&self) -> (r: bool) {
        true
    }

    fn execute(&self, registry: &Registry, args: &str, sender: &str) -> (r: Outcome) {
        match parse_args(args, sender) {
            Ok(name) => handle_command(registry, name, sender),
            Err(rejection) => rejection,
        }
    }
}

/// Nothing is deleted under the name of a registered command: the store is
/// asked for a change only where the name is no built-in and matches the
/// pattern of command names.
pub proof fn lemma_store_request_is_checked(
    registry: Seq<BuiltinCommand>,
    args: Seq<char>,
    sender: Seq<char>,
)
    ensures
        DelCmd.outcome(registry, args, sender).action matches ActionView::Store { request, .. }
            ==> request matches StoreRequestView::Delete { name } && is_command_name(name)
            && registered(registry, name) is None,
{
}

} // verus!
